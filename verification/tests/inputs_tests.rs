use cherry_bot::api::list_repos_for_user;
use cherry_bot::inputs::{get_input_required, get_multiline_input, ActionInputs, Config};
use cherry_bot::naming::{normalize, patch_filename, pick_title, qualify};
use cherry_bot::text::u64_to_string;

#[test]
fn required_input_passes_through_or_names_the_missing_one() {
    let ok = get_input_required("repo-token", Some("abc".to_string()));
    assert_eq!(ok.unwrap(), "abc");

    let err = get_input_required("repo-token", None).unwrap_err();
    assert_eq!(err.message(), "Input required and not supplied: repo-token");
}

#[test]
fn multiline_input_splits_lines() {
    assert_eq!(
        get_multiline_input(Some("a\nb\r\nc\n")),
        vec!["a", "b", "c"]
    );
    assert_eq!(get_multiline_input(Some("single")), vec!["single"]);
    assert_eq!(get_multiline_input(Some("")), Vec::<String>::new());
    assert_eq!(get_multiline_input(None), Vec::<String>::new());
}

#[test]
fn multiline_input_keeps_a_lone_trailing_carriage_return() {
    // a carriage return is consumed only as part of a CRLF line ending;
    // a final line without a newline keeps it
    assert_eq!(get_multiline_input(Some("a\r")), vec!["a\r"]);
    assert_eq!(get_multiline_input(Some("\r")), vec!["\r"]);
    assert_eq!(get_multiline_input(Some("a\r\nb\r")), vec!["a", "b\r"]);
    assert_eq!(get_multiline_input(Some("a\r\n")), vec!["a"]);
}

#[test]
fn config_parses_flags_and_defaults() {
    let c = Config::from_actions(ActionInputs {
        allow_all: Some("true".to_string()),
        create_issue_on_conflict: Some("yes".to_string()),
        label_prefix: None,
        picked_label_prefix: Some("picked/".to_string()),
        exclude_labels: Some("wip\nblocked".to_string()),
        copy_issue_numbers_from_squashed_commit: None,
    });
    assert!(c.allow_all);
    assert!(!c.create_issue_on_conflict);
    assert_eq!(c.label_prefix, "needs-cherry-pick/");
    assert_eq!(c.picked_label_prefix, "picked/");
    assert_eq!(c.exclude_labels, vec!["wip", "blocked"]);
    assert!(!c.copy_issue_numbers_from_squashed_commit);
}

#[test]
fn config_defaults_when_nothing_is_set() {
    let c = Config::from_actions(ActionInputs {
        allow_all: None,
        create_issue_on_conflict: None,
        label_prefix: None,
        picked_label_prefix: None,
        exclude_labels: None,
        copy_issue_numbers_from_squashed_commit: None,
    });
    assert!(!c.allow_all);
    assert!(!c.create_issue_on_conflict);
    assert_eq!(c.label_prefix, "needs-cherry-pick/");
    assert_eq!(c.picked_label_prefix, "cherry-picked/");
    assert!(c.exclude_labels.is_empty());
    assert!(!c.copy_issue_numbers_from_squashed_commit);
}

#[test]
fn normalize_replaces_path_separators() {
    assert_eq!(normalize("release/v0.5"), "release-v0.5");
    assert_eq!(normalize("main"), "main");
    assert_eq!(normalize("a/b/c"), "a-b-c");
    assert_eq!(normalize(""), "");
}

#[test]
fn derived_names_have_their_exact_shapes() {
    assert_eq!(qualify("acme", "widgets"), "acme/widgets");
    assert_eq!(
        patch_filename("acme", "widgets", 42, "rel/1.2"),
        "acme-widgets-42-rel-1.2"
    );
    assert_eq!(pick_title(42, "release-1.2"), "cherry-pick #42 to release-1.2");
}

#[test]
fn decimal_formatting_matches() {
    assert_eq!(u64_to_string(0), "0");
    assert_eq!(u64_to_string(10), "10");
    assert_eq!(u64_to_string(9007), "9007");
    assert_eq!(u64_to_string(18446744073709551615), "18446744073709551615");
}

#[test]
fn listing_request_builder_sets_each_field() {
    let b = list_repos_for_user("bob".to_string())
        .type_("owner".to_string())
        .sort("updated".to_string())
        .direction("desc".to_string())
        .per_page(100)
        .page(2);
    assert_eq!(b.username, "bob");
    assert_eq!(b.type_.as_deref(), Some("owner"));
    assert_eq!(b.sort.as_deref(), Some("updated"));
    assert_eq!(b.direction.as_deref(), Some("desc"));
    assert_eq!(b.per_page, Some(100));
    assert_eq!(b.page, Some(2));
}
