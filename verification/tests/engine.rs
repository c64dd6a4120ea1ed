use tgfolders::condition::{Condition, IoAnswer, IoRequest};
use tgfolders::dialog::{DialogKind, DialogSnapshot};
use tgfolders::folder::Folder;
use tgfolders::peer::PeerRef;
use tgfolders::rules::{
    build_desired_folders, record_matches, DesiredAssignment, DialogPass, PassOutcome, Rule,
};

fn group_dialog(title: &str) -> DialogSnapshot {
    DialogSnapshot {
        kind: DialogKind::Group,
        id: 100,
        title: title.to_string(),
        username: Some("grp".to_string()),
        info_available: true,
    }
}

fn rule(name: &str, condition: Condition) -> Rule {
    Rule { name: name.to_string(), condition }
}

/// Runs one dialog's pass to completion, with every raised request answered
/// from the given queue, front first.
fn run_pass(rules: &Vec<Rule>, d: &DialogSnapshot, mut replies: Vec<IoAnswer>) -> Vec<usize> {
    let mut pass = DialogPass::new();
    loop {
        match pass.step(rules, d) {
            PassOutcome::Finished => {
                return pass.matched;
            }
            PassOutcome::RuleDone(_) => {}
            PassOutcome::Need(_) => {
                assert!(!replies.is_empty(), "pass asked for more work than provided");
                pass.supply(replies.remove(0));
            }
        }
    }
}

#[test]
fn catch_all_defers_to_earlier_match() {
    // A rule that always matches, then a catch-all: every dialog lands in the
    // first folder only, never the catch-all's.
    let rules = vec![
        rule("x", Condition::TitleRegex("".to_string())),
        rule("y", Condition::NotMatched),
    ];
    let d = group_dialog("anything");
    let matched = run_pass(&rules, &d, vec![]);
    assert_eq!(matched, vec![0]);
}

#[test]
fn catch_all_collects_what_no_rule_took() {
    let rules = vec![
        rule("x", Condition::TitleRegex("zzz".to_string())),
        rule("y", Condition::NotMatched),
    ];
    let d = group_dialog("abc");
    let matched = run_pass(&rules, &d, vec![]);
    assert_eq!(matched, vec![1]);
}

#[test]
fn catch_all_order_is_load_bearing() {
    // The same two rules the other way round: the catch-all comes first, sees
    // no prior match, and the dialog lands in both folders.
    let rules = vec![
        rule("y", Condition::NotMatched),
        rule("x", Condition::TitleRegex("".to_string())),
    ];
    let d = group_dialog("abc");
    let matched = run_pass(&rules, &d, vec![]);
    assert_eq!(matched, vec![0, 1]);
}

#[test]
fn dialog_can_match_several_rules() {
    let rules = vec![
        rule("first", Condition::TitleRegex("a".to_string())),
        rule("second", Condition::DialogType(DialogKind::Group)),
    ];
    let d = group_dialog("abc");
    let matched = run_pass(&rules, &d, vec![]);
    assert_eq!(matched, vec![0, 1]);

    let peer = PeerRef::Chat { chat_id: 7 };
    let mut assignment = DesiredAssignment::new();
    record_matches(&mut assignment, &rules, &matched, &peer);
    assert_eq!(assignment.folders.len(), 2);
    assert_eq!(assignment.folders[0].0, "first");
    assert_eq!(assignment.folders[0].1, vec![PeerRef::Chat { chat_id: 7 }]);
    assert_eq!(assignment.folders[1].0, "second");
    assert_eq!(assignment.folders[1].1, vec![PeerRef::Chat { chat_id: 7 }]);
}

#[test]
fn pass_blocks_and_resumes_on_answers() {
    let rules = vec![rule("r", Condition::ContactPresent("bob".to_string()))];
    let d = group_dialog("abc");
    let mut pass = DialogPass::new();
    let first = pass.step(&rules, &d);
    assert_eq!(
        first,
        PassOutcome::Need(IoRequest::ScanContact { login: "bob".to_string() })
    );
    pass.supply(IoAnswer::Contact(true));
    assert_eq!(pass.step(&rules, &d), PassOutcome::RuleDone(true));
    assert_eq!(pass.step(&rules, &d), PassOutcome::Finished);
    assert_eq!(pass.matched, vec![0]);
}

#[test]
fn info_cache_persists_across_rules() {
    // One fetch serves every later info rule of the same dialog.
    let rules = vec![
        rule("a", Condition::InfoRegex("alpha".to_string())),
        rule("b", Condition::InfoRegex("beta".to_string())),
    ];
    let d = group_dialog("abc");
    let mut pass = DialogPass::new();
    assert_eq!(pass.step(&rules, &d), PassOutcome::Need(IoRequest::FetchInfo));
    pass.supply(IoAnswer::Info(Some("alpha beta".to_string())));
    assert_eq!(pass.step(&rules, &d), PassOutcome::RuleDone(true));
    assert_eq!(pass.step(&rules, &d), PassOutcome::RuleDone(true));
    assert_eq!(pass.step(&rules, &d), PassOutcome::Finished);
    assert_eq!(pass.matched, vec![0, 1]);
}

#[test]
fn assignment_keeps_duplicates_in_order() {
    let p = PeerRef::User { user_id: 1, access_hash: 9 };
    let mut assignment = DesiredAssignment::new();
    assignment.add("f", p.clone());
    assignment.add("f", p.clone());
    assert_eq!(assignment.folders.len(), 1);
    assert_eq!(assignment.folders[0].1, vec![p.clone(), p]);
}

#[test]
fn assignment_orders_folders_by_first_use() {
    let p1 = PeerRef::Chat { chat_id: 1 };
    let p2 = PeerRef::Chat { chat_id: 2 };
    let p3 = PeerRef::Chat { chat_id: 3 };
    let mut assignment = DesiredAssignment::new();
    assignment.add("a", p1.clone());
    assignment.add("b", p2.clone());
    assignment.add("a", p3.clone());
    assert_eq!(assignment.folders.len(), 2);
    assert_eq!(assignment.folders[0].0, "a");
    assert_eq!(assignment.folders[0].1, vec![p1, p3]);
    assert_eq!(assignment.folders[1].0, "b");
    assert_eq!(assignment.folders[1].1, vec![p2]);
}

#[test]
fn desired_folders_carry_names_and_members() {
    let p1 = PeerRef::Chat { chat_id: 1 };
    let p2 = PeerRef::User { user_id: 2, access_hash: 5 };
    let mut assignment = DesiredAssignment::new();
    assignment.add("x", p1.clone());
    assignment.add("y", p2.clone());
    assignment.add("y", p1.clone());
    let folders = build_desired_folders(&assignment);
    assert_eq!(folders.len(), 2);
    match &folders[0] {
        Folder::Chatlist(c) => {
            assert_eq!(c.title, "x");
            assert_eq!(c.id, 0);
            assert!(!c.has_my_invites);
            assert_eq!(c.emoticon, None);
            assert_eq!(c.color, None);
            assert!(c.pinned_peers.is_empty());
            assert_eq!(c.include_peers, vec![p1.clone()]);
        }
        other => panic!("expected a chatlist folder, got {:?}", other),
    }
    match &folders[1] {
        Folder::Chatlist(c) => {
            assert_eq!(c.title, "y");
            assert_eq!(c.include_peers, vec![p2, p1]);
        }
        other => panic!("expected a chatlist folder, got {:?}", other),
    }
}
