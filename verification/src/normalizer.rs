//! Turns what a detector saw into a threat in canonical form.

use vstd::prelude::*;
use crate::aegis::{ThreatEvent, ThreatEventView, ThreatSeverity, ThreatType};
use crate::fixed::{Ppm, ONE};
use crate::neurofirewall::{decision_rank, DetectionEvent, DetectionEventView, FirewallDecision};
use crate::table::{lemma_map_values_of, text_entries, text_of, Metadata};
use crate::text::join;

verus! {

/// The severity of a threat that was detected with the score given.
pub open spec fn severity_for(score: Ppm) -> ThreatSeverity {
    if score >= 950_000 {
        ThreatSeverity::Critical
    } else if score >= 900_000 {
        ThreatSeverity::High
    } else if score >= 800_000 {
        ThreatSeverity::Medium
    } else if score >= 500_000 {
        ThreatSeverity::Low
    } else {
        ThreatSeverity::Info
    }
}

/// The severity of a threat that was detected with the score given.
pub fn severity_of(score: Ppm) -> (r: ThreatSeverity)
    ensures
        r == severity_for(score),
{
    if score >= 950_000 {
        ThreatSeverity::Critical
    } else if score >= 900_000 {
        ThreatSeverity::High
    } else if score >= 800_000 {
        ThreatSeverity::Medium
    } else if score >= 500_000 {
        ThreatSeverity::Low
    } else {
        ThreatSeverity::Info
    }
}

/// The name of a decision.
pub open spec fn decision_name(decision: FirewallDecision) -> Seq<char> {
    match decision {
        FirewallDecision::Allow => "Allow"@,
        FirewallDecision::Block => "Block"@,
        FirewallDecision::Quarantine => "Quarantine"@,
        FirewallDecision::Redirect => "Redirect"@,
        FirewallDecision::RateLimit => "RateLimit"@,
        FirewallDecision::Alert => "Alert"@,
    }
}

/// Writes the name of a decision.
pub fn decision_text(decision: FirewallDecision) -> (r: String)
    ensures
        r@ == decision_name(decision),
{
    match decision {
        FirewallDecision::Allow => "Allow".to_owned(),
        FirewallDecision::Block => "Block".to_owned(),
        FirewallDecision::Quarantine => "Quarantine".to_owned(),
        FirewallDecision::Redirect => "Redirect".to_owned(),
        FirewallDecision::RateLimit => "RateLimit".to_owned(),
        FirewallDecision::Alert => "Alert".to_owned(),
    }
}

/// The threat that a detection stands for: its identifier is `threat-`
/// followed by that of the detection, its severity follows the score, its
/// confidence is the score, limited to the unit interval, and its metadata
/// name the detection and the decision that was taken.
pub open spec fn normalized(
    event: DetectionEventView,
    threat_type: ThreatType,
    source: Seq<char>,
    target: Seq<char>,
) -> ThreatEventView {
    ThreatEventView {
        id: "threat-"@ + event.id,
        threat_type,
        severity: severity_for(event.anomaly_score),
        confidence: if event.anomaly_score > ONE {
            ONE
        } else {
            event.anomaly_score
        },
        source,
        target,
        timestamp: event.timestamp,
        metadata: seq![
            ("detection_id"@, event.id),
            ("decision"@, decision_name(event.decision)),
        ],
    }
}

/// Turns a detection into a threat of the category given.
pub fn normalize(event: &DetectionEvent, threat_type: ThreatType, source: &str, target: &str) -> (r:
    ThreatEvent)
    ensures
        r@ == normalized(event@, threat_type, source@, target@),
{
    let mut metadata = Metadata::new();
    let ghost m0 = metadata@;
    let id_text = event.id.clone();
    metadata.insert("detection_id".to_owned(), id_text);
    let ghost m1 = metadata@;
    let decision = decision_text(event.decision);
    metadata.insert("decision".to_owned(), decision);
    proof {
        reveal_strlit("detection_id");
        reveal_strlit("decision");
        assert("detection_id"@ != "decision"@) by {
            assert("detection_id"@.len() != "decision"@.len());
        }
        lemma_map_values_of(m0, text_of(), "detection_id"@, id_text);
        lemma_map_values_of(m1, text_of(), "decision"@, decision);
        crate::table::lemma_index_of(text_entries(m0), "detection_id"@);
        crate::table::lemma_index_of(text_entries(m1), "decision"@);
        assert(text_entries(m0) =~= Seq::<(Seq<char>, Seq<char>)>::empty());
        assert(text_entries(m1) =~= seq![("detection_id"@, event.id@)]);
        if crate::table::has_key(text_entries(m1), "decision"@) {
            let k = choose|k: int|
                0 <= k < text_entries(m1).len() && (#[trigger] text_entries(m1)[k]).0
                    == "decision"@;
            assert(false);
        }
        assert(text_entries(metadata@) =~= seq![
            ("detection_id"@, event.id@),
            ("decision"@, decision_name(event.decision)),
        ]);
    }
    ThreatEvent {
        id: join("threat-", event.id.as_str()),
        threat_type,
        severity: severity_of(event.anomaly_score),
        confidence: if event.anomaly_score > ONE {
            ONE
        } else {
            event.anomaly_score
        },
        source: source.to_owned(),
        target: target.to_owned(),
        timestamp: event.timestamp,
        metadata,
    }
}

/// Whether the detection `a` weighs no more than the detection `b`: by the
/// score first, and between equal scores by the severity of the decision.
pub open spec fn weighs_no_more(a: DetectionEventView, b: DetectionEventView) -> bool {
    a.anomaly_score < b.anomaly_score || (a.anomaly_score == b.anomaly_score && decision_rank(
        a.decision,
    ) <= decision_rank(b.decision))
}

/// The position of the detection that weighs most among several: the one
/// with the highest score, between equal scores the one with the most
/// severe decision, and between equals the first.
pub fn strongest(events: &Vec<DetectionEvent>) -> (r: Option<usize>)
    ensures
        events@.len() == 0 ==> r is None,
        events@.len() > 0 ==> r is Some && r->Some_0 < events@.len(),
        r matches Some(best) ==> forall|j: int|
            0 <= j < events@.len() ==> weighs_no_more((#[trigger] events@[j])@, events@[best as int]@),
        r matches Some(best) ==> forall|j: int|
            0 <= j < best ==> !weighs_no_more(events@[best as int]@, (#[trigger] events@[j])@),
{
    if events.len() == 0 {
        return None;
    }
    let mut best: usize = 0;
    let mut i: usize = 1;
    while i < events.len()
        invariant
            1 <= i <= events.len(),
            best < i,
            forall|j: int|
                0 <= j < i ==> weighs_no_more((#[trigger] events@[j])@, events@[best as int]@),
            forall|j: int|
                0 <= j < best ==> !weighs_no_more(events@[best as int]@, (#[trigger] events@[j])@),
        decreases events.len() - i,
    {
        let candidate = &events[i];
        let held = &events[best];
        let heavier = candidate.anomaly_score > held.anomaly_score || (candidate.anomaly_score
            == held.anomaly_score && candidate.decision.severity_rank()
            > held.decision.severity_rank());
        if heavier {
            best = i;
        }
        i += 1;
    }
    Some(best)
}

/// Turns several detections of one threat into a single threat: the
/// detection that weighs most stands for all. Without detections there is no threat.
pub fn normalize_collective(
    events: &Vec<DetectionEvent>,
    threat_type: ThreatType,
    source: &str,
    target: &str,
) -> (r: Option<ThreatEvent>)
    ensures
        events@.len() == 0 ==> r is None,
        events@.len() > 0 ==> r is Some && exists|best: int|
            0 <= best < events@.len() && r->Some_0@ == #[trigger] normalized(
                events@[best]@,
                threat_type,
                source@,
                target@,
            ) && (forall|j: int|
                0 <= j < events@.len() ==> weighs_no_more(
                    (#[trigger] events@[j])@,
                    events@[best]@,
                )),
{
    match strongest(events) {
        Some(best) => {
            let threat = normalize(&events[best], threat_type, source, target);
            assert(threat@ == normalized(events@[best as int]@, threat_type, source@, target@));
            Some(threat)
        },
        None => None,
    }
}

} // verus!
