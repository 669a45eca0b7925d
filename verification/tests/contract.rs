use fiscal_core::contract::tool_count_in;

#[test]
fn counts_declared_tools() {
    assert_eq!(tool_count_in(r#"{"tools": [{"name": "a"}, {"name": "b"}, {"name": "c"}]}"#), 3);
    assert_eq!(tool_count_in(r#"{"tools": []}"#), 0);
}

#[test]
fn no_tools_when_unreadable() {
    assert_eq!(tool_count_in("not json"), 0);
    assert_eq!(tool_count_in(r#"{"tools": 3}"#), 0);
    assert_eq!(tool_count_in(r#"{"outils": [1]}"#), 0);
    assert_eq!(tool_count_in("[1, 2]"), 0);
}
