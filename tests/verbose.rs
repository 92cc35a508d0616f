use wolves_cli_helper::verbose::{lead_text, rule_text};

#[test]
fn lead_brackets_the_stamp() {
    assert_eq!(lead_text("Mon, 1 Jan 2024 00:00:00 +0000"), "[ Mon, 1 Jan 2024 00:00:00 +0000 ] :: ");
    assert_eq!(lead_text(""), "[  ] :: ");
}

#[test]
fn rule_is_width_dashes() {
    assert_eq!(rule_text(0), "");
    assert_eq!(rule_text(1), "-");
    assert_eq!(rule_text(5), "-----");
    assert_eq!(rule_text(80).len(), 80);
}
