use icarus::dashboard::{
    new_scene, place_element, AccessLevel, Dashboard, DashboardConfig, DashboardState,
    DashboardUser, UiEvent, VisualizationType,
};
use icarus::table::Metadata;

#[test]
fn test_dashboard_creation() {
    let config = DashboardConfig::default();
    let dashboard = Dashboard::new(config);

    assert_eq!(dashboard.get_state(), DashboardState::Initializing);
}

#[test]
fn test_dashboard_start_stop() {
    let config = DashboardConfig::default();
    let mut dashboard = Dashboard::new(config);

    let start_result = dashboard.start();
    assert!(start_result.is_ok());
    assert_eq!(dashboard.get_state(), DashboardState::Running);

    let stop_result = dashboard.stop();
    assert!(stop_result.is_ok());
    assert_eq!(dashboard.get_state(), DashboardState::Stopped);
}

#[test]
fn test_create_visualization_scene() {
    let config = DashboardConfig::default();
    let dashboard = Dashboard::new(config);

    let scene_result = dashboard.create_visualization_scene(
        VisualizationType::Network3D,
        "Test Scene",
        "Test Description",
    );

    assert!(scene_result.is_ok());

    let scene = scene_result.unwrap();
    assert_eq!(scene.title, "Test Scene");
    assert_eq!(scene.description, "Test Description");
    assert_eq!(scene.visualization_type, VisualizationType::Network3D);
    assert!(scene.elements.is_empty());
}

#[test]
fn test_add_element_to_scene() {
    let config = DashboardConfig::default();
    let dashboard = Dashboard::new(config);

    let mut scene = dashboard
        .create_visualization_scene(VisualizationType::Network3D, "Test Scene", "Test Description")
        .unwrap();

    let mut data = Metadata::new();
    data.insert("key1".to_string(), "value1".to_string());

    let element_id_result =
        dashboard.add_element_to_scene(&mut scene, "node", (1000, 2000, 3000), data);

    assert!(element_id_result.is_ok());

    let element_id = element_id_result.unwrap();
    assert!(scene.elements.contains_key(&element_id));

    let element = scene.elements.get(&element_id).unwrap();
    assert_eq!(element.element_type, "node");
    assert_eq!(element.position_x, 1000);
    assert_eq!(element.position_y, 2000);
    assert_eq!(element.position_z, 3000);
    assert_eq!(element.data.get("key1").unwrap(), "value1");
}

#[test]
fn default_settings_of_the_dashboard() {
    let config = DashboardConfig::default();
    assert_eq!(config.server_port, 8443);
    assert_eq!(config.server_address, "0.0.0.0");
    assert_eq!(config.refresh_interval_ms, 1000);
    assert_eq!(config.max_events, 1000);
    assert!(config.enable_3d_visualization);
    assert!(config.enable_realtime_notifications);
    assert_eq!(config.detail_level, 3);
    assert_eq!(config.theme, "dark");
    let copy = config.clone();
    assert_eq!(copy.server_address, config.server_address);
    assert_eq!(copy.theme, config.theme);
}

#[test]
fn the_address_of_the_dashboard() {
    let dashboard = Dashboard::new(DashboardConfig::default());
    assert_eq!(dashboard.get_dashboard_url(), "https://0.0.0.0:8443/dashboard");
    let mut config = DashboardConfig::default();
    config.server_address = "soc.example".to_string();
    config.server_port = 65535;
    assert_eq!(Dashboard::new(config).get_dashboard_url(), "https://soc.example:65535/dashboard");
    let mut config = DashboardConfig::default();
    config.server_port = 0;
    assert_eq!(Dashboard::new(config).get_dashboard_url(), "https://0.0.0.0:0/dashboard");
}

#[test]
fn scenes_and_elements_by_their_parts() {
    let mut scene = new_scene(VisualizationType::Timeline, "t", "d", "s1", 10);
    assert_eq!(scene.id, "scene-s1");
    assert_eq!(scene.created_at, 10);
    assert_eq!(scene.updated_at, 10);
    let id = place_element(&mut scene, "node", (-1, 0, 1), Metadata::new(), "e1", 11);
    assert_eq!(id, "element-e1");
    assert_eq!(scene.updated_at, 11);
    assert_eq!(scene.created_at, 10);
    let element = scene.elements.get("element-e1").unwrap();
    assert_eq!(element.id, "element-e1");
    assert_eq!(element.color, "#00AAFF");
    assert_eq!(element.size, 1_000_000);
    assert_eq!(element.opacity, 1_000_000);
    assert!(element.children.is_empty());
    assert_eq!((element.position_x, element.position_y, element.position_z), (-1, 0, 1));
    // An element that comes under an identifier already in use takes the place of the old one.
    place_element(&mut scene, "edge", (5, 5, 5), Metadata::new(), "e1", 12);
    assert_eq!(scene.elements.len(), 1);
    assert_eq!(scene.elements.get("element-e1").unwrap().element_type, "edge");
}

#[test]
fn a_random_scene_identifier_has_a_prefix_and_36_characters() {
    let dashboard = Dashboard::new(DashboardConfig::default());
    let mut scene =
        dashboard.create_visualization_scene(VisualizationType::GeoMap, "a", "b").unwrap();
    assert!(scene.id.starts_with("scene-"));
    assert_eq!(scene.id.chars().count(), 6 + 36);
    let id = dashboard.add_element_to_scene(&mut scene, "n", (0, 0, 0), Metadata::new()).unwrap();
    assert!(id.starts_with("element-"));
    assert_eq!(id.chars().count(), 8 + 36);
}

#[test]
fn the_scene_of_a_threat() {
    let mut dashboard = Dashboard::new(DashboardConfig::default());
    dashboard.start().unwrap();
    let scene = dashboard
        .visualize_threat("plan-1", "sql_injection", 5, "10.0.0.9", "10.0.0.1", ("s", "a", "b", "c"), 99)
        .unwrap();
    assert_eq!(scene.id, "scene-s");
    assert_eq!(scene.visualization_type, VisualizationType::Network3D);
    assert_eq!(scene.title, "Menace: plan-1");
    assert_eq!(scene.description, "Visualisation de la menace de type sql_injection");
    assert_eq!(scene.elements.len(), 3);
    let source = scene.elements.get("element-a").unwrap();
    assert_eq!(source.element_type, "node");
    assert_eq!((source.position_x, source.position_y, source.position_z), (-5000, 0, 0));
    assert_eq!(source.data.get("type").unwrap(), "source");
    assert_eq!(source.data.get("address").unwrap(), "10.0.0.9");
    let target = scene.elements.get("element-b").unwrap();
    assert_eq!((target.position_x, target.position_y, target.position_z), (5000, 0, 0));
    assert_eq!(target.data.get("type").unwrap(), "target");
    assert_eq!(target.data.get("address").unwrap(), "10.0.0.1");
    let threat = scene.elements.get("element-c").unwrap();
    assert_eq!(threat.element_type, "threat");
    assert_eq!((threat.position_x, threat.position_y, threat.position_z), (0, 0, 0));
    assert_eq!(threat.data.get("id").unwrap(), "plan-1");
    assert_eq!(threat.data.get("type").unwrap(), "sql_injection");
    assert_eq!(threat.data.get("severity").unwrap(), "5");
    assert_eq!(dashboard.get_stats().processed_events, 1);
    let random = dashboard
        .process_threat_for_visualization("plan-2", "xss", 255, "a", "b")
        .unwrap();
    assert_eq!(random.elements.len(), 3);
    assert_eq!(dashboard.get_stats().processed_events, 2);
    assert_eq!(dashboard.get_state(), DashboardState::Running);
}

#[test]
fn levels_of_access_are_ordered() {
    let ordered = [
        AccessLevel::ReadOnly,
        AccessLevel::Analyst,
        AccessLevel::Operator,
        AccessLevel::Administrator,
        AccessLevel::Commander,
    ];
    for (rank, level) in ordered.iter().enumerate() {
        assert_eq!(level.rank() as usize, rank);
    }
    assert!(AccessLevel::Analyst < AccessLevel::Operator);
    assert!(AccessLevel::Commander.allows(AccessLevel::Administrator));
    assert!(AccessLevel::Operator.allows(AccessLevel::Operator));
    assert!(!AccessLevel::ReadOnly.allows(AccessLevel::Analyst));
    let user = DashboardUser {
        id: "u1".to_string(),
        username: "ada".to_string(),
        access_level: AccessLevel::Analyst,
        last_login: None,
        preferences: Metadata::new(),
    };
    assert!(user.access_level.allows(AccessLevel::ReadOnly));
    let event = UiEvent {
        id: "e1".to_string(),
        event_type: "click".to_string(),
        data: Metadata::new(),
        timestamp: 5,
        user_id: Some(user.id.clone()),
    };
    assert_eq!(event.user_id.unwrap(), "u1");
}
