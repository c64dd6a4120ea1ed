use tgfolders::condition::{
    chat_title_match, eval_condition, is_placeholder, participant_matches, placeholder_value,
    Condition, InfoCell, IoAnswer, IoRequest, Outcome,
};
use tgfolders::dialog::{DialogKind, DialogSnapshot};
use tgfolders::numeral::i64_to_string;

fn group_dialog(title: &str) -> DialogSnapshot {
    DialogSnapshot {
        kind: DialogKind::Group,
        id: 100,
        title: title.to_string(),
        username: Some("grp".to_string()),
        info_available: true,
    }
}

fn user_dialog(title: &str, username: Option<&str>) -> DialogSnapshot {
    DialogSnapshot {
        kind: DialogKind::User,
        id: -42,
        title: title.to_string(),
        username: username.map(|s| s.to_string()),
        info_available: false,
    }
}

fn eval(c: &Condition, d: &DialogSnapshot, answers: Vec<IoAnswer>) -> Outcome {
    let mut cursor: usize = 0;
    let mut info = InfoCell::Unknown;
    eval_condition(c, d, false, &answers, &mut cursor, &mut info)
}

#[test]
fn title_regex_matches_substring() {
    let d = group_dialog("abc");
    assert_eq!(
        eval(&Condition::TitleRegex("b".to_string()), &d, vec![]),
        Outcome::Done(true)
    );
    assert_eq!(
        eval(&Condition::TitleRegex("^b".to_string()), &d, vec![]),
        Outcome::Done(false)
    );
    assert_eq!(
        eval(&Condition::TitleRegex("^a".to_string()), &d, vec![]),
        Outcome::Done(true)
    );
}

#[test]
fn title_regex_invalid_pattern_matches_nothing() {
    let d = group_dialog("abc");
    assert_eq!(
        eval(&Condition::TitleRegex("(".to_string()), &d, vec![]),
        Outcome::Done(false)
    );
}

#[test]
fn chat_title_match_uses_display_name() {
    let d = group_dialog("machine room");
    assert!(chat_title_match("mach", &d));
    assert!(!chat_title_match("^room", &d));
}

#[test]
fn not_negates_child() {
    let matching = Condition::TitleRegex("^a".to_string());
    let negated = Condition::Not(Box::new(Condition::TitleRegex("^a".to_string())));
    let d1 = group_dialog("abc");
    let d2 = group_dialog("zbc");
    assert_eq!(eval(&matching, &d1, vec![]), Outcome::Done(true));
    assert_eq!(eval(&negated, &d1, vec![]), Outcome::Done(false));
    assert_eq!(eval(&matching, &d2, vec![]), Outcome::Done(false));
    assert_eq!(eval(&negated, &d2, vec![]), Outcome::Done(true));
}

#[test]
fn and_of_nothing_is_true_or_of_nothing_is_false() {
    let d = group_dialog("abc");
    assert_eq!(eval(&Condition::And(vec![]), &d, vec![]), Outcome::Done(true));
    assert_eq!(eval(&Condition::Or(vec![]), &d, vec![]), Outcome::Done(false));
}

#[test]
fn and_stops_at_first_false_child() {
    // The second child would need outside work; a false first child decides
    // the conjunction before that work is ever requested.
    let d = user_dialog("abc", None);
    let c = Condition::And(vec![
        Condition::DialogType(DialogKind::Group),
        Condition::ContactPresent("bob".to_string()),
    ]);
    assert_eq!(eval(&c, &d, vec![]), Outcome::Done(false));
}

#[test]
fn and_blocks_when_all_earlier_children_true() {
    let d = group_dialog("abc");
    let c = Condition::And(vec![
        Condition::DialogType(DialogKind::Group),
        Condition::ContactPresent("bob".to_string()),
    ]);
    assert_eq!(
        eval(&c, &d, vec![]),
        Outcome::Need(IoRequest::ScanContact { login: "bob".to_string() })
    );
}

#[test]
fn or_stops_at_first_true_child() {
    let d = group_dialog("abc");
    let c = Condition::Or(vec![
        Condition::TitleRegex("a".to_string()),
        Condition::ContactPresent("bob".to_string()),
    ]);
    assert_eq!(eval(&c, &d, vec![]), Outcome::Done(true));
}

#[test]
fn dialog_type_compares_kinds() {
    let g = group_dialog("abc");
    let u = user_dialog("abc", None);
    let c = Condition::DialogType(DialogKind::Group);
    assert_eq!(eval(&c, &g, vec![]), Outcome::Done(true));
    assert_eq!(eval(&c, &u, vec![]), Outcome::Done(false));
}

#[test]
fn contact_present_uses_scan_answer() {
    let d = group_dialog("abc");
    let c = Condition::ContactPresent("bob".to_string());
    assert_eq!(
        eval(&c, &d, vec![]),
        Outcome::Need(IoRequest::ScanContact { login: "bob".to_string() })
    );
    assert_eq!(eval(&c, &d, vec![IoAnswer::Contact(true)]), Outcome::Done(true));
    assert_eq!(eval(&c, &d, vec![IoAnswer::Contact(false)]), Outcome::Done(false));
}

#[test]
fn info_regex_is_false_without_extended_info() {
    // A direct user conversation has no extended info; no fetch is requested.
    let d = user_dialog("abc", None);
    let c = Condition::InfoRegex("crypto".to_string());
    assert_eq!(eval(&c, &d, vec![]), Outcome::Done(false));
}

#[test]
fn info_regex_requests_fetch_then_matches_about_text() {
    let d = group_dialog("abc");
    let c = Condition::InfoRegex("crypto".to_string());
    assert_eq!(eval(&c, &d, vec![]), Outcome::Need(IoRequest::FetchInfo));
    assert_eq!(
        eval(&c, &d, vec![IoAnswer::Info(Some("a crypto chat".to_string()))]),
        Outcome::Done(true)
    );
    assert_eq!(
        eval(&c, &d, vec![IoAnswer::Info(Some("a metal chat".to_string()))]),
        Outcome::Done(false)
    );
}

#[test]
fn info_fetch_is_cached_within_one_evaluation() {
    // Two info leaves, one successful fetch: the second leaf reads the cache
    // and consumes no further answer.
    let d = group_dialog("abc");
    let c = Condition::And(vec![
        Condition::InfoRegex("crypto".to_string()),
        Condition::InfoRegex("metal".to_string()),
    ]);
    let answers = vec![IoAnswer::Info(Some("crypto and metal".to_string()))];
    let mut cursor: usize = 0;
    let mut info = InfoCell::Unknown;
    let r = eval_condition(&c, &d, false, &answers, &mut cursor, &mut info);
    assert_eq!(r, Outcome::Done(true));
    assert_eq!(cursor, 1);
    assert_eq!(info, InfoCell::Cached("crypto and metal".to_string()));
}

#[test]
fn failed_info_fetch_is_not_cached() {
    // The first leaf sees the failed fetch and is false; the second leaf asks
    // again and gets the successful fetch.
    let d = group_dialog("abc");
    let c = Condition::Or(vec![
        Condition::InfoRegex("crypto".to_string()),
        Condition::InfoRegex("crypto".to_string()),
    ]);
    let answers = vec![
        IoAnswer::Info(None),
        IoAnswer::Info(Some("a crypto chat".to_string())),
    ];
    let mut cursor: usize = 0;
    let mut info = InfoCell::Unknown;
    let r = eval_condition(&c, &d, false, &answers, &mut cursor, &mut info);
    assert_eq!(r, Outcome::Done(true));
    assert_eq!(cursor, 2);
}

#[test]
fn external_executable_resolves_placeholders_before_running() {
    let d = group_dialog("abc");
    let c = Condition::ExternalExecutable {
        path: "~/probe.sh".to_string(),
        params: vec!["@id@".to_string(), "plain".to_string()],
    };
    assert_eq!(
        eval(&c, &d, vec![]),
        Outcome::Need(IoRequest::RunExecutable {
            path: "~/probe.sh".to_string(),
            args: vec!["100".to_string(), "plain".to_string()],
        })
    );
}

#[test]
fn external_executable_exit_status_decides() {
    // A process that exits successfully makes the condition true; a nonzero
    // exit or a failed launch is answered false by the runner.
    let d = group_dialog("abc");
    let c = Condition::ExternalExecutable { path: "~/probe.sh".to_string(), params: vec![] };
    assert_eq!(eval(&c, &d, vec![IoAnswer::Exec(true)]), Outcome::Done(true));
    assert_eq!(eval(&c, &d, vec![IoAnswer::Exec(false)]), Outcome::Done(false));
}

#[test]
fn external_executable_unknown_placeholder_is_false_without_running() {
    let d = group_dialog("abc");
    let c = Condition::ExternalExecutable {
        path: "~/probe.sh".to_string(),
        params: vec!["@bogus@".to_string()],
    };
    assert_eq!(eval(&c, &d, vec![]), Outcome::Done(false));
}

#[test]
fn external_executable_unavailable_value_is_false_without_running() {
    let d = user_dialog("abc", None);
    let c = Condition::ExternalExecutable {
        path: "~/probe.sh".to_string(),
        params: vec!["@user_login@".to_string()],
    };
    assert_eq!(eval(&c, &d, vec![]), Outcome::Done(false));
}

#[test]
fn not_matched_reads_the_flag() {
    let d = group_dialog("abc");
    let answers: Vec<IoAnswer> = vec![];
    let mut cursor: usize = 0;
    let mut info = InfoCell::Unknown;
    let fresh = eval_condition(&Condition::NotMatched, &d, false, &answers, &mut cursor, &mut info);
    assert_eq!(fresh, Outcome::Done(true));
    let mut cursor2: usize = 0;
    let mut info2 = InfoCell::Unknown;
    let seen = eval_condition(&Condition::NotMatched, &d, true, &answers, &mut cursor2, &mut info2);
    assert_eq!(seen, Outcome::Done(false));
}

#[test]
fn placeholder_shape() {
    assert!(is_placeholder("@id@"));
    assert!(is_placeholder("@"));
    assert!(!is_placeholder("id"));
    assert!(!is_placeholder(""));
    assert!(!is_placeholder("@id"));
    assert!(!is_placeholder("id@"));
}

#[test]
fn placeholder_values_per_kind() {
    let g = group_dialog("machine room");
    let u = user_dialog("bob chat", Some("bob"));
    assert_eq!(placeholder_value("@id@", &g), Some("100".to_string()));
    assert_eq!(placeholder_value("@id@", &u), Some("-42".to_string()));
    assert_eq!(placeholder_value("@group_title@", &g), Some("machine room".to_string()));
    assert_eq!(placeholder_value("@group_title@", &u), None);
    assert_eq!(placeholder_value("@group_login@", &g), Some("grp".to_string()));
    assert_eq!(placeholder_value("@user_login@", &u), Some("bob".to_string()));
    assert_eq!(placeholder_value("@user_login@", &g), None);
    assert_eq!(placeholder_value("@channel_title@", &g), None);
    assert_eq!(placeholder_value("@bogus@", &g), None);
    assert_eq!(placeholder_value("@", &g), None);
}

#[test]
fn participant_scan_compares_handles_exactly() {
    assert!(participant_matches("bob", Some("bob")));
    assert!(!participant_matches("bob", Some("bobby")));
    assert!(!participant_matches("bob", None));
}

#[test]
fn decimal_rendering() {
    assert_eq!(i64_to_string(0), "0");
    assert_eq!(i64_to_string(7), "7");
    assert_eq!(i64_to_string(100), "100");
    assert_eq!(i64_to_string(-17), "-17");
    assert_eq!(i64_to_string(i64::MAX), "9223372036854775807");
    assert_eq!(i64_to_string(i64::MIN), "-9223372036854775808");
}
