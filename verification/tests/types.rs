use risky_proxmox_agent::status::VmStatus;
use risky_proxmox_agent::tags::parse_tags;

#[test]
fn parse_tags_splits_on_semicolons() {
    let tags = parse_tags(Some("alpha;beta; gamma "));
    assert_eq!(
        tags,
        vec![
            String::from("alpha"),
            String::from("beta"),
            String::from("gamma")
        ]
    );
}

#[test]
fn parse_tags_handles_empty() {
    let tags = parse_tags(Some("   "));
    assert!(tags.is_empty());
}

#[test]
fn normalize_status_handles_known_states() {
    assert_eq!(VmStatus::normalize(Some("running")), VmStatus::Running);
    assert_eq!(VmStatus::normalize(Some("stopped")), VmStatus::Stopped);
    assert_eq!(VmStatus::normalize(Some("paused")), VmStatus::Unknown);
    assert_eq!(VmStatus::normalize(None), VmStatus::Unknown);
}

#[test]
fn normalize_is_case_insensitive() {
    assert_eq!(VmStatus::normalize(Some("RUNNING")), VmStatus::Running);
    assert_eq!(VmStatus::normalize(Some("Stopped")), VmStatus::Stopped);
    assert_eq!(VmStatus::normalize(Some("RuNnInG")), VmStatus::Running);
    assert_eq!(VmStatus::normalize(Some("")), VmStatus::Unknown);
    assert_eq!(VmStatus::normalize(Some("runningx")), VmStatus::Unknown);
}

#[test]
fn status_wire_spelling() {
    assert_eq!(VmStatus::Running.as_str(), "running");
    assert_eq!(VmStatus::Stopped.as_str(), "stopped");
    assert_eq!(VmStatus::Unknown.as_str(), "unknown");
}

#[test]
fn parse_tags_splits_on_commas_and_mixed() {
    assert_eq!(parse_tags(Some("a,b;c")), vec!["a", "b", "c"]);
    assert_eq!(parse_tags(Some(",;,")), Vec::<String>::new());
    assert_eq!(parse_tags(Some(" one , two ")), vec!["one", "two"]);
}

#[test]
fn parse_tags_drops_blank_pieces_keeps_order() {
    assert_eq!(parse_tags(Some("z; ;a;;z")), vec!["z", "a", "z"]);
    assert_eq!(parse_tags(None), Vec::<String>::new());
    assert_eq!(parse_tags(Some("solo")), vec!["solo"]);
}
