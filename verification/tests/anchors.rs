use markdown_test_report::processor::make_anchor;

#[test]
fn test_anchors() {
    assert_eq!(make_anchor(""), "");
    assert_eq!(
        make_anchor("✅ tests::registry::test_registry_create_and_delete"),
        "-testsregistrytest_registry_create_and_delete"
    );
    assert_eq!(make_anchor("foo  bar"), "foo-bar");
}

#[test]
fn anchor_keeps_underscores_and_case() {
    assert_eq!(make_anchor("Foo_Bar9"), "Foo_Bar9");
}

#[test]
fn anchor_collapses_mixed_space_dash_runs() {
    assert_eq!(make_anchor("a - -  b"), "a-b");
    assert_eq!(make_anchor(" leading"), "-leading");
    assert_eq!(make_anchor("trailing "), "trailing-");
}

#[test]
fn anchor_drops_other_characters_without_resetting_the_dash() {
    // The dropped colon between the dashes does not end the run.
    assert_eq!(make_anchor("a -:- b"), "a-b");
    assert_eq!(make_anchor("x!y"), "xy");
}
