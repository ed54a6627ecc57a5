use cherry_bot::util::{is_cherry_pick_invite_command, is_picked, match_cherry_pick_command, match_label};

#[test]
fn test_match_cherry_pick_command() {
    let cases = vec![
        ("/cherrypick xx", vec!["xx"]),
        ("/cherry-pick xx", vec!["xx"]),
        ("/cherrypickxxx", vec![]),
        ("/cherry-pickxxx", vec![]),
        (
            r#"
/cherry-pick r
xxxx
/cherry-pick    releasev0.3
/cherrypick releasev0.3
/cherrypick release/v0.5
/cherrypick release/v0.5😊
        "#,
            vec!["r", "releasev0.3", "release/v0.5", "release/v0.5😊"],
        ),
    ];

    for (cmd, expected) in cases {
        assert_eq!(match_cherry_pick_command(cmd), expected, "cmd: {}", cmd);
    }
}

#[test]
fn test_match_label() {
    let cases = vec![
        (
            "needs-cherry-pick-",
            "needs-cherry-pick-lbwnb",
            Some("lbwnb"),
        ),
        ("lbw", "lbwnb", Some("nb")),
        ("lbwnb", "", None),
        ("", "lbwnb", None),
        ("", "needs-cherry-pick-lbw", None),
    ];

    for (label_prefix, label, expected) in cases {
        assert_eq!(
            match_label(label_prefix, label).as_deref(),
            expected,
            "label_prefix: {}, label: {}",
            label_prefix,
            label
        );
    }
}

#[test]
fn test_is_cherry_pick_invite_command() {
    let cases = vec![
        ("lbwnb", false),
        ("/cherrypick-", false),
        ("/cherry-pick", false),
        ("/cherrypick-invite", true),
        ("/cherry-pick-invite", true),
        ("/cherrypick-invitexx", false),
        ("/cherrypick-invite lbw", true),
        ("/cherrypick-invite_lbw", false),
    ];

    for (cmd, expected) in cases {
        assert_eq!(is_cherry_pick_invite_command(cmd), expected, "cmd: {}", cmd);
    }
}

#[test]
fn match_cherry_pick_trims_and_dedups() {
    let got = match_cherry_pick_command("/cherrypick   a  \n/cherry-pick a\n/cherrypick b");
    assert_eq!(got, vec!["a", "b"]);
}

#[test]
fn match_cherry_pick_whitespace_only_rest_is_empty_capture() {
    // a command word followed only by whitespace still matches, with an
    // empty captured value
    let got = match_cherry_pick_command("/cherrypick   ");
    assert_eq!(got, vec![""]);
}

#[test]
fn match_label_trims_the_remainder() {
    assert_eq!(
        match_label("pick/", "pick/ release-1.2 ").as_deref(),
        Some("release-1.2")
    );
}

#[test]
fn is_picked_matches_exact_label_only() {
    let labels = Some(vec![
        "cherry-picked/release-1.2".to_string(),
        "bug".to_string(),
    ]);
    assert!(is_picked(&labels, "cherry-picked/", "release-1.2"));
    assert!(!is_picked(&labels, "cherry-picked/", "release-1.3"));
    assert!(!is_picked(&labels, "picked/", "release-1.2"));
    assert!(!is_picked(&None, "cherry-picked/", "release-1.2"));
    assert!(!is_picked(&Some(vec![]), "cherry-picked/", "release-1.2"));
}
