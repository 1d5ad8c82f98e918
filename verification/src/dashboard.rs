//! The dashboard: scenes that show threats, and the state of the display.

use vstd::prelude::*;
use crate::fixed::{bump, bumped, Ppm, ONE};
use crate::host::{clock_micros, random_uuid, whole_seconds, whole_seconds_of, UUID_TEXT_LEN};
use crate::table::{
    lemma_map_values_of, map_values_of, put, text_entries, text_of, Metadata, StringTable,
};
use crate::text::{decimal, decimal_digits, join, texts};

verus! {

/// Settings of the dashboard.
#[derive(Debug)]
pub struct DashboardConfig {
    pub server_port: u16,
    pub server_address: String,
    pub refresh_interval_ms: u64,
    /// The most events that are shown.
    pub max_events: usize,
    pub enable_3d_visualization: bool,
    pub enable_realtime_notifications: bool,
    /// From 1 to 5.
    pub detail_level: u8,
    /// `light`, `dark` or `system`.
    pub theme: String,
}

impl Clone for DashboardConfig {
    fn clone(&self) -> (r: Self)
        ensures
            r == *self,
    {
        DashboardConfig {
            server_port: self.server_port,
            server_address: self.server_address.clone(),
            refresh_interval_ms: self.refresh_interval_ms,
            max_events: self.max_events,
            enable_3d_visualization: self.enable_3d_visualization,
            enable_realtime_notifications: self.enable_realtime_notifications,
            detail_level: self.detail_level,
            theme: self.theme.clone(),
        }
    }
}

impl Default for DashboardConfig {
    fn default() -> (r: Self)
        ensures
            r.server_port == 8443,
            r.server_address@ == "0.0.0.0"@,
            r.refresh_interval_ms == 1000,
            r.max_events == 1000,
            r.enable_3d_visualization,
            r.enable_realtime_notifications,
            r.detail_level == 3,
            r.theme@ == "dark"@,
    {
        DashboardConfig {
            server_port: 8443,
            server_address: "0.0.0.0".to_owned(),
            refresh_interval_ms: 1000,
            max_events: 1000,
            enable_3d_visualization: true,
            enable_realtime_notifications: true,
            detail_level: 3,
            theme: "dark".to_owned(),
        }
    }
}

/// The kinds of view.
#[derive(Debug, Clone, Copy, PartialEq, Eq, Structural)]
pub enum VisualizationType {
    Network3D,
    ThreatHeatmap,
    Timeline,
    Dashboard,
    GeoMap,
    SystemDetail,
    AlertView,
}

/// What a user may do, from `ReadOnly` up to `Commander`.
#[derive(Debug, Clone, Copy, PartialEq, Eq, PartialOrd, Structural)]
pub enum AccessLevel {
    ReadOnly,
    Analyst,
    Operator,
    Administrator,
    Commander,
}

/// The place of a level of access in the order from `ReadOnly` (0) to `Commander` (4).
pub open spec fn access_rank(level: AccessLevel) -> nat {
    match level {
        AccessLevel::ReadOnly => 0,
        AccessLevel::Analyst => 1,
        AccessLevel::Operator => 2,
        AccessLevel::Administrator => 3,
        AccessLevel::Commander => 4,
    }
}

impl AccessLevel {
    /// The place of the level in the order from `ReadOnly` (0) to `Commander` (4).
    pub fn rank(self) -> (r: u8)
        ensures
            r == access_rank(self),
    {
        match self {
            AccessLevel::ReadOnly => 0,
            AccessLevel::Analyst => 1,
            AccessLevel::Operator => 2,
            AccessLevel::Administrator => 3,
            AccessLevel::Commander => 4,
        }
    }

    /// Whether a user of this level may do what takes the level `needed`.
    pub fn allows(self, needed: AccessLevel) -> (r: bool)
        ensures
            r == (access_rank(self) >= access_rank(needed)),
    {
        self.rank() >= needed.rank()
    }
}

/// A user of the dashboard.
#[derive(Debug)]
pub struct DashboardUser {
    pub id: String,
    pub username: String,
    pub access_level: AccessLevel,
    /// Seconds since the Unix epoch.
    pub last_login: Option<u64>,
    pub preferences: Metadata,
}

/// Something that happened in the user interface.
#[derive(Debug)]
pub struct UiEvent {
    pub id: String,
    pub event_type: String,
    pub data: Metadata,
    /// Seconds since the Unix epoch.
    pub timestamp: u64,
    pub user_id: Option<String>,
}

/// Where the dashboard stands.
#[derive(Debug, PartialEq)]
pub enum DashboardState {
    Initializing,
    Running,
    Maintenance,
    Error(String),
    Stopped,
}

impl Clone for DashboardState {
    fn clone(&self) -> (r: Self)
        ensures
            r == *self,
    {
        match self {
            DashboardState::Initializing => DashboardState::Initializing,
            DashboardState::Running => DashboardState::Running,
            DashboardState::Maintenance => DashboardState::Maintenance,
            DashboardState::Error(detail) => DashboardState::Error(detail.clone()),
            DashboardState::Stopped => DashboardState::Stopped,
        }
    }
}

/// Counters of the dashboard.
#[derive(Debug, Clone, Copy, PartialEq, Eq, Structural)]
pub struct DashboardStats {
    pub connected_users: usize,
    pub active_views: usize,
    pub processed_events: u64,
    pub avg_response_time_ms: u64,
    pub cpu_usage: Ppm,
    pub memory_usage: Ppm,
    pub uptime_seconds: u64,
}

/// Why the dashboard refused a request. No request is refused at present.
#[derive(Debug, Clone, Copy, PartialEq, Eq, Structural)]
pub enum DashboardError {
    /// The dashboard cannot be reached.
    Unavailable,
}

/// Something shown in a scene. Positions are in thousandths of a unit of the scene.
#[derive(Debug)]
pub struct VisualizationElement {
    pub id: String,
    pub element_type: String,
    pub position_x: i32,
    pub position_y: i32,
    pub position_z: i32,
    /// In hexadecimal notation, such as `#00AAFF`.
    pub color: String,
    pub size: Ppm,
    pub opacity: Ppm,
    pub data: Metadata,
    pub children: Vec<String>,
}

/// The value of a [`VisualizationElement`].
pub struct VisualizationElementView {
    pub id: Seq<char>,
    pub element_type: Seq<char>,
    pub position_x: i32,
    pub position_y: i32,
    pub position_z: i32,
    pub color: Seq<char>,
    pub size: Ppm,
    pub opacity: Ppm,
    pub data: Seq<(Seq<char>, Seq<char>)>,
    pub children: Seq<Seq<char>>,
}

impl View for VisualizationElement {
    type V = VisualizationElementView;

    open spec fn view(&self) -> VisualizationElementView {
        VisualizationElementView {
            id: self.id@,
            element_type: self.element_type@,
            position_x: self.position_x,
            position_y: self.position_y,
            position_z: self.position_z,
            color: self.color@,
            size: self.size,
            opacity: self.opacity,
            data: text_entries(self.data@),
            children: texts(self.children@),
        }
    }
}

/// The function that takes an element to its value.
pub open spec fn element_value() -> spec_fn(VisualizationElement) -> VisualizationElementView {
    |e: VisualizationElement| e@
}

/// A scene: elements under their identifiers, in the order in which they were added.
#[derive(Debug)]
pub struct VisualizationScene {
    pub id: String,
    pub visualization_type: VisualizationType,
    pub title: String,
    pub description: String,
    pub elements: StringTable<VisualizationElement>,
    /// Seconds since the Unix epoch.
    pub created_at: u64,
    /// Seconds since the Unix epoch.
    pub updated_at: u64,
}

/// The value of a [`VisualizationScene`].
pub struct VisualizationSceneView {
    pub id: Seq<char>,
    pub visualization_type: VisualizationType,
    pub title: Seq<char>,
    pub description: Seq<char>,
    pub elements: Seq<(Seq<char>, VisualizationElementView)>,
    pub created_at: u64,
    pub updated_at: u64,
}

impl View for VisualizationScene {
    type V = VisualizationSceneView;

    open spec fn view(&self) -> VisualizationSceneView {
        VisualizationSceneView {
            id: self.id@,
            visualization_type: self.visualization_type,
            title: self.title@,
            description: self.description@,
            elements: map_values_of(self.elements@, element_value()),
            created_at: self.created_at,
            updated_at: self.updated_at,
        }
    }
}

/// An empty scene made at time `now` under the identifier `scene-` followed by `uuid`.
pub open spec fn empty_scene(
    visualization_type: VisualizationType,
    title: Seq<char>,
    description: Seq<char>,
    uuid: Seq<char>,
    now: u64,
) -> VisualizationSceneView {
    VisualizationSceneView {
        id: "scene-"@ + uuid,
        visualization_type,
        title,
        description,
        elements: Seq::empty(),
        created_at: now,
        updated_at: now,
    }
}

/// A new element: blue, of full size and opacity, without children.
pub open spec fn new_element(
    element_type: Seq<char>,
    position: (i32, i32, i32),
    data: Seq<(Seq<char>, Seq<char>)>,
    uuid: Seq<char>,
) -> VisualizationElementView {
    VisualizationElementView {
        id: "element-"@ + uuid,
        element_type,
        position_x: position.0,
        position_y: position.1,
        position_z: position.2,
        color: "#00AAFF"@,
        size: ONE,
        opacity: ONE,
        data,
        children: Seq::empty(),
    }
}

/// The scene after an element has been added at time `now`.
pub open spec fn with_element(
    scene: VisualizationSceneView,
    element: VisualizationElementView,
    now: u64,
) -> VisualizationSceneView {
    VisualizationSceneView {
        elements: put(scene.elements, element.id, element),
        updated_at: now,
        ..scene
    }
}

/// Two entries of metadata, the second stored after the first.
pub open spec fn two_entries(k1: Seq<char>, v1: Seq<char>, k2: Seq<char>, v2: Seq<char>) -> Seq<
    (Seq<char>, Seq<char>),
> {
    put(put(Seq::empty(), k1, v1), k2, v2)
}

/// The scene that shows a threat: a node for its source on the left, a
/// node for its target on the right, and the threat between them.
pub open spec fn threat_scene(
    threat_id: Seq<char>,
    threat_type: Seq<char>,
    severity: u8,
    source: Seq<char>,
    target: Seq<char>,
    uuids: (Seq<char>, Seq<char>, Seq<char>, Seq<char>),
    now: u64,
) -> VisualizationSceneView {
    let scene = empty_scene(
        VisualizationType::Network3D,
        "Menace: "@ + threat_id,
        "Visualisation de la menace de type "@ + threat_type,
        uuids.0,
        now,
    );
    let with_source = with_element(
        scene,
        new_element(
            "node"@,
            (-5000i32, 0i32, 0i32),
            two_entries("type"@, "source"@, "address"@, source),
            uuids.1,
        ),
        now,
    );
    let with_target = with_element(
        with_source,
        new_element(
            "node"@,
            (5000i32, 0i32, 0i32),
            two_entries("type"@, "target"@, "address"@, target),
            uuids.2,
        ),
        now,
    );
    with_element(
        with_target,
        new_element(
            "threat"@,
            (0i32, 0i32, 0i32),
            put(
                two_entries("id"@, threat_id, "type"@, threat_type),
                "severity"@,
                decimal_digits(severity as nat),
            ),
            uuids.3,
        ),
        now,
    )
}

/// The address under which a dashboard is reached.
pub open spec fn url_of(config: DashboardConfig) -> Seq<char> {
    "https://"@ + config.server_address@ + ":"@ + decimal_digits(config.server_port as nat)
        + "/dashboard"@
}

/// The counters of a dashboard in which nothing has happened yet.
pub open spec fn initial_stats() -> DashboardStats {
    DashboardStats {
        connected_users: 0,
        active_views: 0,
        processed_events: 0,
        avg_response_time_ms: 0,
        cpu_usage: 0,
        memory_usage: 0,
        uptime_seconds: 0,
    }
}

/// Metadata of two entries.
fn metadata_of_two(k1: &str, v1: &str, k2: &str, v2: &str) -> (r: Metadata)
    ensures
        text_entries(r@) == two_entries(k1@, v1@, k2@, v2@),
{
    let mut data = Metadata::new();
    let ghost d0 = data@;
    let first = v1.to_owned();
    data.insert(k1.to_owned(), first);
    let ghost d1 = data@;
    let second = v2.to_owned();
    data.insert(k2.to_owned(), second);
    proof {
        assert(text_entries(d0) =~= Seq::<(Seq<char>, Seq<char>)>::empty());
        lemma_map_values_of(d0, text_of(), k1@, first);
        lemma_map_values_of(d1, text_of(), k2@, second);
    }
    data
}

/// Makes an empty scene.
pub fn new_scene(
    visualization_type: VisualizationType,
    title: &str,
    description: &str,
    uuid: &str,
    now: u64,
) -> (r: VisualizationScene)
    ensures
        r@ == empty_scene(visualization_type, title@, description@, uuid@, now),
{
    let elements: StringTable<VisualizationElement> = StringTable::new();
    assert(map_values_of(elements@, element_value()) =~= Seq::<
        (Seq<char>, VisualizationElementView),
    >::empty());
    VisualizationScene {
        id: join("scene-", uuid),
        visualization_type,
        title: title.to_owned(),
        description: description.to_owned(),
        elements,
        created_at: now,
        updated_at: now,
    }
}

/// Adds a new element to a scene at time `now`, under the identifier
/// `element-` followed by `uuid`, and hands the identifier back.
pub fn place_element(
    scene: &mut VisualizationScene,
    element_type: &str,
    position: (i32, i32, i32),
    data: Metadata,
    uuid: &str,
    now: u64,
) -> (r: String)
    ensures
        r@ == "element-"@ + uuid@,
        final(scene)@ == with_element(
            old(scene)@,
            new_element(element_type@, position, text_entries(data@), uuid@),
            now,
        ),
{
    let element_id = join("element-", uuid);
    let children: Vec<String> = Vec::new();
    assert(texts(children@) =~= Seq::<Seq<char>>::empty());
    let element = VisualizationElement {
        id: element_id.clone(),
        element_type: element_type.to_owned(),
        position_x: position.0,
        position_y: position.1,
        position_z: position.2,
        color: "#00AAFF".to_owned(),
        size: ONE,
        opacity: ONE,
        data,
        children,
    };
    proof {
        lemma_map_values_of(scene.elements@, element_value(), element_id@, element);
    }
    scene.elements.insert(element_id.clone(), element);
    scene.updated_at = now;
    element_id
}

/// The present time in whole seconds since the Unix epoch.
fn now_seconds() -> (r: u64)
    ensures
        exists|micros: u64| r == #[trigger] whole_seconds_of(micros),
        r <= u64::MAX / 1_000_000,
{
    let micros = clock_micros();
    let r = whole_seconds(micros);
    assert(r == whole_seconds_of(micros));
    r
}

/// The dashboard.
pub struct Dashboard {
    config: DashboardConfig,
    state: DashboardState,
    stats: DashboardStats,
}

impl Dashboard {
    /// The settings of the dashboard.
    pub closed spec fn settings(&self) -> DashboardConfig {
        self.config
    }

    /// The state of the dashboard.
    pub closed spec fn current_state(&self) -> DashboardState {
        self.state
    }

    /// The counters of the dashboard.
    pub closed spec fn counters(&self) -> DashboardStats {
        self.stats
    }

    /// A dashboard that has not started yet.
    pub fn new(config: DashboardConfig) -> (r: Self)
        ensures
            r.settings() == config,
            r.current_state() == DashboardState::Initializing,
            r.counters() == initial_stats(),
    {
        Dashboard {
            config,
            state: DashboardState::Initializing,
            stats: DashboardStats {
                connected_users: 0,
                active_views: 0,
                processed_events: 0,
                avg_response_time_ms: 0,
                cpu_usage: 0,
                memory_usage: 0,
                uptime_seconds: 0,
            },
        }
    }

    /// Starts the dashboard.
    pub fn start(&mut self) -> (r: Result<(), DashboardError>)
        ensures
            r is Ok,
            final(self).settings() == old(self).settings(),
            final(self).counters() == old(self).counters(),
            final(self).current_state() == DashboardState::Running,
    {
        self.state = DashboardState::Running;
        Ok(())
    }

    /// Stops the dashboard.
    pub fn stop(&mut self) -> (r: Result<(), DashboardError>)
        ensures
            r is Ok,
            final(self).settings() == old(self).settings(),
            final(self).counters() == old(self).counters(),
            final(self).current_state() == DashboardState::Stopped,
    {
        self.state = DashboardState::Stopped;
        Ok(())
    }

    /// The state of the dashboard.
    pub fn get_state(&self) -> (r: DashboardState)
        ensures
            r == self.current_state(),
    {
        self.state.clone()
    }

    /// The counters of the dashboard.
    pub fn get_stats(&self) -> (r: DashboardStats)
        ensures
            r == self.counters(),
    {
        self.stats
    }

    /// Makes an empty scene. The identifier is drawn at random, and the
    /// time is read from the clock.
    pub fn create_visualization_scene(
        &self,
        visualization_type: VisualizationType,
        title: &str,
        description: &str,
    ) -> (r: Result<VisualizationScene, DashboardError>)
        ensures
            r is Ok,
            exists|uuid: Seq<char>, now: u64|
                uuid.len() == UUID_TEXT_LEN && r->Ok_0@ == #[trigger] empty_scene(
                    visualization_type,
                    title@,
                    description@,
                    uuid,
                    now,
                ),
    {
        let uuid = random_uuid();
        let now = now_seconds();
        let scene = new_scene(visualization_type, title, description, uuid.as_str(), now);
        assert(scene@ == empty_scene(visualization_type, title@, description@, uuid@, now));
        Ok(scene)
    }

    /// Adds a new element to a scene and hands its identifier back. The
    /// identifier is drawn at random, and the time is read from the clock.
    pub fn add_element_to_scene(
        &self,
        scene: &mut VisualizationScene,
        element_type: &str,
        position: (i32, i32, i32),
        data: Metadata,
    ) -> (r: Result<String, DashboardError>)
        ensures
            r is Ok,
            exists|uuid: Seq<char>, now: u64|
                uuid.len() == UUID_TEXT_LEN && r->Ok_0@ == "element-"@ + uuid && final(scene)@
                    == #[trigger] with_element(
                    old(scene)@,
                    new_element(element_type@, position, text_entries(data@), uuid),
                    now,
                ),
    {
        let uuid = random_uuid();
        let now = now_seconds();
        let id = place_element(scene, element_type, position, data, uuid.as_str(), now);
        assert(scene@ == with_element(
            old(scene)@,
            new_element(element_type@, position, text_entries(data@), uuid@),
            now,
        ));
        Ok(id)
    }

    /// Makes the scene that shows a threat, at time `now`, with the four
    /// identifiers given for the scene and its three elements, and counts
    /// the threat among the events that were processed.
    pub fn visualize_threat(
        &mut self,
        threat_id: &str,
        threat_type: &str,
        severity: u8,
        source: &str,
        target: &str,
        uuids: (&str, &str, &str, &str),
        now: u64,
    ) -> (r: Result<VisualizationScene, DashboardError>)
        ensures
            r is Ok,
            r->Ok_0@ == threat_scene(
                threat_id@,
                threat_type@,
                severity,
                source@,
                target@,
                (uuids.0@, uuids.1@, uuids.2@, uuids.3@),
                now,
            ),
            final(self).settings() == old(self).settings(),
            final(self).current_state() == old(self).current_state(),
            final(self).counters() == (DashboardStats {
                processed_events: bumped(old(self).counters().processed_events),
                ..old(self).counters()
            }),
    {
        let title = join("Menace: ", threat_id);
        let description = join("Visualisation de la menace de type ", threat_type);
        let mut scene = new_scene(
            VisualizationType::Network3D,
            title.as_str(),
            description.as_str(),
            uuids.0,
            now,
        );
        let source_data = metadata_of_two("type", "source", "address", source);
        let _ = place_element(&mut scene, "node", (-5000, 0, 0), source_data, uuids.1, now);
        let target_data = metadata_of_two("type", "target", "address", target);
        let _ = place_element(&mut scene, "node", (5000, 0, 0), target_data, uuids.2, now);
        let mut threat_data = metadata_of_two("id", threat_id, "type", threat_type);
        let ghost d2 = threat_data@;
        let severity_text = decimal(severity as u64);
        threat_data.insert("severity".to_owned(), severity_text);
        proof {
            lemma_map_values_of(d2, text_of(), "severity"@, severity_text);
        }
        let _ = place_element(&mut scene, "threat", (0, 0, 0), threat_data, uuids.3, now);
        self.stats.processed_events = bump(self.stats.processed_events);
        Ok(scene)
    }

    /// Makes the scene that shows a threat. The identifiers are drawn at
    /// random, and the time is read from the clock.
    pub fn process_threat_for_visualization(
        &mut self,
        threat_id: &str,
        threat_type: &str,
        severity: u8,
        source: &str,
        target: &str,
    ) -> (r: Result<VisualizationScene, DashboardError>)
        ensures
            r is Ok,
            exists|uuids: (Seq<char>, Seq<char>, Seq<char>, Seq<char>), now: u64|
                uuids.0.len() == UUID_TEXT_LEN && uuids.1.len() == UUID_TEXT_LEN && uuids.2.len()
                    == UUID_TEXT_LEN && uuids.3.len() == UUID_TEXT_LEN && r->Ok_0@
                    == #[trigger] threat_scene(
                    threat_id@,
                    threat_type@,
                    severity,
                    source@,
                    target@,
                    uuids,
                    now,
                ),
            final(self).settings() == old(self).settings(),
            final(self).current_state() == old(self).current_state(),
            final(self).counters() == (DashboardStats {
                processed_events: bumped(old(self).counters().processed_events),
                ..old(self).counters()
            }),
    {
        let scene_uuid = random_uuid();
        let source_uuid = random_uuid();
        let target_uuid = random_uuid();
        let threat_uuid = random_uuid();
        let now = now_seconds();
        let r = self.visualize_threat(
            threat_id,
            threat_type,
            severity,
            source,
            target,
            (
                scene_uuid.as_str(),
                source_uuid.as_str(),
                target_uuid.as_str(),
                threat_uuid.as_str(),
            ),
            now,
        );
        assert(r->Ok_0@ == threat_scene(
            threat_id@,
            threat_type@,
            severity,
            source@,
            target@,
            (scene_uuid@, source_uuid@, target_uuid@, threat_uuid@),
            now,
        ));
        r
    }

    /// The address under which the dashboard is reached.
    pub fn get_dashboard_url(&self) -> (r: String)
        ensures
            r@ == url_of(self.settings()),
    {
        let port = decimal(self.config.server_port as u64);
        join("https://", self.config.server_address.as_str()).concat(":").concat(
            port.as_str(),
        ).concat("/dashboard")
    }
}

} // verus!
