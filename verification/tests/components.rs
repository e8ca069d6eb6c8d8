//! Tests for the per-component decision functions: readiness evaluation,
//! drain and uncordon decisions, and selector composition.

use upgrade_job::drain::{decide_drain, drain_step, DrainDecision};
use upgrade_job::error::UpgradeError;
use upgrade_job::model::{labels_contain, DrainStatus, Instance, InstancePlacement, NodeObservation};
use upgrade_job::readiness::{all_instances_ready, control_plane_ready, data_plane_ready};
use upgrade_job::selector::{node_field_selector, version_selector};
use upgrade_job::uncordon::{decide_uncordon, uncordon_step, UncordonDecision};

fn inst(name: &str, node: &str, ready: bool) -> Instance {
    Instance {
        name: String::from(name),
        placement: InstancePlacement::OnNode { node: String::from(node) },
        ready,
    }
}

fn drain_label() -> String {
    String::from("drain-for-upgrade")
}

#[test]
fn selector_follows_the_label_convention() {
    let s = version_selector(
        &String::from("app=io-engine"),
        &String::from("chart-version"),
        &String::from("2.5.0"),
    );
    assert_eq!(s, "app=io-engine,chart-version=2.5.0");
}

#[test]
fn field_selector_restricts_by_node() {
    let s = node_field_selector(&String::from("worker-3"));
    assert_eq!(s, "spec.nodeName=worker-3");
}

#[test]
fn labels_contain_finds_exact_matches_only() {
    let labels = vec![String::from("other-actor"), String::from("drain-for-upgrade")];
    assert!(labels_contain(&labels, &drain_label()));
    assert!(!labels_contain(&labels, &String::from("drain")));
    assert!(!labels_contain(&Vec::new(), &drain_label()));
}

#[test]
fn empty_group_is_never_ready() {
    assert!(!all_instances_ready(&Vec::new()));
}

#[test]
fn group_ready_needs_every_instance_ready() {
    let all = vec![inst("a", "n1", true), inst("b", "n2", true)];
    let one_down = vec![inst("a", "n1", true), inst("b", "n2", false)];
    assert!(all_instances_ready(&all));
    assert!(!all_instances_ready(&one_down));
}

#[test]
fn control_plane_blocked_by_one_empty_group() {
    let ready = vec![inst("core", "n1", true)];
    let also_ready = vec![inst("gateway", "n1", true)];
    assert!(!control_plane_ready(&ready, &also_ready, &Vec::new()));
    assert!(!control_plane_ready(&Vec::new(), &ready, &also_ready));
    assert!(!control_plane_ready(&ready, &Vec::new(), &also_ready));
}

#[test]
fn control_plane_ready_when_all_three_groups_are() {
    let core = vec![inst("core", "n1", true)];
    let gateway = vec![inst("gateway", "n1", true)];
    let store = vec![inst("store-0", "n1", true), inst("store-1", "n2", true)];
    assert!(control_plane_ready(&core, &gateway, &store));
}

#[test]
fn data_plane_zero_matches_polls() {
    let r = data_plane_ready(&String::from("n1"), &Vec::new());
    assert!(matches!(r, Ok(false)));
}

#[test]
fn data_plane_one_match_answers_its_readiness() {
    let up = vec![inst("dp", "n1", true)];
    let down = vec![inst("dp", "n1", false)];
    assert!(matches!(data_plane_ready(&String::from("n1"), &up), Ok(true)));
    assert!(matches!(data_plane_ready(&String::from("n1"), &down), Ok(false)));
}

#[test]
fn data_plane_two_matches_is_fatal() {
    let two = vec![inst("dp-a", "n1", true), inst("dp-b", "n1", true)];
    let r = data_plane_ready(&String::from("n1"), &two);
    match r {
        Err(UpgradeError::MultipleMatchingInstances { node }) => assert_eq!(node, "n1"),
        _ => panic!("expected the multiple-instance violation"),
    }
}

#[test]
fn drain_waits_while_draining_under_our_label() {
    let status = DrainStatus::Draining { labels: vec![drain_label()] };
    assert!(matches!(decide_drain(&status, &drain_label()), DrainDecision::Wait));
}

#[test]
fn drain_finishes_when_drained_under_our_label() {
    let status = DrainStatus::Drained { labels: vec![String::from("x"), drain_label()] };
    assert!(matches!(decide_drain(&status, &drain_label()), DrainDecision::Finished));
}

#[test]
fn drain_requests_in_every_other_state() {
    let uncordoned = DrainStatus::Uncordoned;
    let foreign_draining = DrainStatus::Draining { labels: vec![String::from("other")] };
    let foreign_drained = DrainStatus::Drained { labels: vec![String::from("other")] };
    let unlabeled = DrainStatus::Drained { labels: Vec::new() };
    assert!(matches!(decide_drain(&uncordoned, &drain_label()), DrainDecision::Request));
    assert!(matches!(decide_drain(&foreign_draining, &drain_label()), DrainDecision::Request));
    assert!(matches!(decide_drain(&foreign_drained, &drain_label()), DrainDecision::Request));
    assert!(matches!(decide_drain(&unlabeled, &drain_label()), DrainDecision::Request));
}

#[test]
fn drain_step_rejects_a_node_without_spec() {
    let r = drain_step(&String::from("n1"), &NodeObservation::MissingSpec, &drain_label());
    match r {
        Err(UpgradeError::MissingNodeSpec { node_id }) => assert_eq!(node_id, "n1"),
        _ => panic!("expected the missing-node-spec error"),
    }
}

#[test]
fn uncordon_removes_label_only_when_drained_under_it() {
    let ours = DrainStatus::Drained { labels: vec![drain_label()] };
    let foreign = DrainStatus::Drained { labels: vec![String::from("other")] };
    let draining = DrainStatus::Draining { labels: vec![drain_label()] };
    let uncordoned = DrainStatus::Uncordoned;
    assert!(matches!(decide_uncordon(&ours, &drain_label()), UncordonDecision::RemoveLabel));
    assert!(matches!(decide_uncordon(&foreign, &drain_label()), UncordonDecision::Finished));
    assert!(matches!(decide_uncordon(&draining, &drain_label()), UncordonDecision::Finished));
    assert!(matches!(decide_uncordon(&uncordoned, &drain_label()), UncordonDecision::Finished));
}

#[test]
fn uncordon_step_rejects_a_node_without_spec() {
    let r = uncordon_step(&String::from("n2"), &NodeObservation::MissingSpec, &drain_label());
    match r {
        Err(UpgradeError::MissingNodeSpec { node_id }) => assert_eq!(node_id, "n2"),
        _ => panic!("expected the missing-node-spec error"),
    }
}
