use onedrive_api::ConflictBehavior;

#[test]
fn conflict_behavior_wire_values() {
    assert_eq!(ConflictBehavior::Fail.as_str(), "fail");
    assert_eq!(ConflictBehavior::Replace.as_str(), "replace");
    assert_eq!(ConflictBehavior::Rename.as_str(), "rename");
}

#[test]
fn conflict_behavior_is_written_as_its_wire_value() {
    for behavior in [
        ConflictBehavior::Fail,
        ConflictBehavior::Replace,
        ConflictBehavior::Rename,
    ] {
        let json = serde_json::to_string(behavior.as_str()).unwrap();
        assert_eq!(json, format!("\"{}\"", behavior.as_str()));
    }
}
