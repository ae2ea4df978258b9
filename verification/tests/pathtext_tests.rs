use pyoxidizer::pathtext::parent_of_str;
use pyoxidizer::pathtext::replace_origin_str;

#[test]
fn replace_substitutes_each_token() {
    assert_eq!(replace_origin_str("$ORIGIN/lib", "/opt/app"), "/opt/app/lib");
    assert_eq!(replace_origin_str("$ORIGIN/../x", "/opt/app"), "/opt/app/../x");
    assert_eq!(replace_origin_str("$ORIGIN", "/o"), "/o");
    assert_eq!(replace_origin_str("a/$ORIGIN/b/$ORIGIN", "/o"), "a//o/b//o");
}

#[test]
fn replace_leaves_partial_tokens_alone() {
    assert_eq!(replace_origin_str("$ORIGI/lib", "/o"), "$ORIGI/lib");
    assert_eq!(replace_origin_str("$origin/lib", "/o"), "$origin/lib");
    assert_eq!(replace_origin_str("", "/o"), "");
    assert_eq!(replace_origin_str("no token", "/o"), "no token");
}

#[test]
fn replacement_text_is_not_rescanned_in_place() {
    // The scan moves on past each substituted occurrence.
    assert_eq!(replace_origin_str("$ORIGIN/x", "$ORIGIN"), "$ORIGIN/x");
}

#[test]
fn parent_is_the_text_before_the_last_component() {
    assert_eq!(parent_of_str("/opt/app/tool").as_deref(), Some("/opt/app"));
    assert_eq!(parent_of_str("a/b/c").as_deref(), Some("a/b"));
}

#[test]
fn trailing_and_redundant_separators_are_ignored() {
    assert_eq!(parent_of_str("a/b/").as_deref(), Some("a"));
    assert_eq!(parent_of_str("a/b//").as_deref(), Some("a"));
    assert_eq!(parent_of_str("a//b").as_deref(), Some("a"));
    assert_eq!(parent_of_str("/x/").as_deref(), Some("/"));
}

#[test]
fn root_level_components_have_the_root_as_parent() {
    assert_eq!(parent_of_str("/tool").as_deref(), Some("/"));
    assert_eq!(parent_of_str("//tool").as_deref(), Some("/"));
}

#[test]
fn a_lone_relative_component_has_the_empty_parent() {
    assert_eq!(parent_of_str("tool").as_deref(), Some(""));
}

#[test]
fn the_root_and_the_empty_path_have_no_parent() {
    assert_eq!(parent_of_str("/"), None);
    assert_eq!(parent_of_str("///"), None);
    assert_eq!(parent_of_str(""), None);
}
