use mac_cleaner::installers::AppEntry;
use mac_cleaner::menu::{
    all_groups, all_targets, scan_groups, cleanup_group, menu_choice, menu_items, menu_rights_line,
    nonempty_choices, picked_targets, MenuAction,
};
use mac_cleaner::session::{Action, CleanSession, Event, Outcome};
use mac_cleaner::targets::{CleanTarget, RiskLevel};

fn target(name: &str) -> CleanTarget {
    CleanTarget::new("C", name, format!("/{}", name), "d").with_explanation("why")
}

fn answer(s: &str) -> Event {
    Event::Answer(Some(s.to_string()))
}

#[test]
fn nothing_to_clean_asks_nothing() {
    let ts = vec![target("a"), target("b")];
    let (s, a) = CleanSession::start(&ts, &vec![0, 0], false);
    assert_eq!(a, Action::Finished(Outcome::NothingToClean));
    assert!(s.explained().is_empty());
}

#[test]
fn declined_or_unreadable_confirmation_cleans_nothing() {
    let ts = vec![target("a")];
    let (mut s, a) = CleanSession::start(&ts, &vec![5], true);
    assert_eq!(a, Action::Confirm);
    assert_eq!(s.step(answer("n\n")), Action::Finished(Outcome::Aborted));
    let (mut s, _) = CleanSession::start(&ts, &vec![5], true);
    assert_eq!(s.step(Event::Answer(None)), Action::Finished(Outcome::ReadFailed));
    let (mut s, _) = CleanSession::start(&ts, &vec![5], true);
    assert_eq!(s.step(answer("yes\n")), Action::Finished(Outcome::Aborted));
}

#[test]
fn confirmed_session_skips_blocked_and_empty_targets() {
    let ts = vec![
        target("a"),
        target("root-only").with_sudo(),
        target("empty-now"),
        target("d"),
    ];
    let (mut s, a) = CleanSession::start(&ts, &vec![10, 20, 30, 40], false);
    assert_eq!(a, Action::Confirm);
    assert_eq!(s.skipped(), &vec![1]);
    assert_eq!(s.explained(), &vec![0, 1, 2, 3]);
    assert!(!s.has_high_risk());
    assert_eq!(s.step(answer("Y\n")), Action::Measure(0));
    assert_eq!(s.step(Event::Measured(10)), Action::Clean(0));
    assert_eq!(s.step(Event::Cleaned(Some(8))), Action::Measure(2));
    assert_eq!(s.step(Event::Measured(0)), Action::Measure(3));
    assert_eq!(s.step(Event::Measured(40)), Action::Clean(3));
    assert_eq!(s.freed(), 8);
    assert_eq!(s.step(Event::Cleaned(Some(40))), Action::Finished(Outcome::Completed { freed: 48 }));
}

#[test]
fn root_cleans_targets_that_need_rights() {
    let ts = vec![target("root-only").with_sudo()];
    let (mut s, _) = CleanSession::start(&ts, &vec![7], true);
    assert!(s.skipped().is_empty());
    assert_eq!(s.step(answer("y")), Action::Measure(0));
}

#[test]
fn failed_cleaning_frees_nothing_and_moves_on() {
    let ts = vec![target("a"), target("b")];
    let (mut s, _) = CleanSession::start(&ts, &vec![1, 1], false);
    assert_eq!(s.step(answer("y\n")), Action::Measure(0));
    assert_eq!(s.step(Event::Measured(1)), Action::Clean(0));
    assert_eq!(s.step(Event::Cleaned(None)), Action::Measure(1));
    assert_eq!(s.step(Event::Measured(1)), Action::Clean(1));
    assert_eq!(s.step(Event::Cleaned(Some(1))), Action::Finished(Outcome::Completed { freed: 1 }));
}

#[test]
fn only_blocked_targets_complete_at_once() {
    let ts = vec![target("root-only").with_sudo()];
    let (mut s, _) = CleanSession::start(&ts, &vec![9], false);
    assert_eq!(s.step(answer("y\n")), Action::Finished(Outcome::Completed { freed: 0 }));
}

#[test]
fn high_risk_needs_delete() {
    let ts = vec![target("docker").with_risk(RiskLevel::High)];
    let (mut s, _) = CleanSession::start(&ts, &vec![100], false);
    assert!(s.has_high_risk());
    assert_eq!(s.step(answer("y\n")), Action::ConfirmHighRisk);
    assert_eq!(s.step(answer("delete\n")), Action::Finished(Outcome::HighRiskAborted));
    let (mut s, _) = CleanSession::start(&ts, &vec![100], false);
    assert_eq!(s.step(answer("y\n")), Action::ConfirmHighRisk);
    assert_eq!(s.step(Event::Answer(None)), Action::Finished(Outcome::HighRiskAborted));
    let (mut s, _) = CleanSession::start(&ts, &vec![100], false);
    assert_eq!(s.step(answer("y\n")), Action::ConfirmHighRisk);
    assert_eq!(s.step(answer("DELETE\n")), Action::Measure(0));
}

#[test]
fn empty_high_risk_target_needs_no_delete() {
    let ts = vec![target("docker").with_risk(RiskLevel::High), target("b")];
    let (mut s, _) = CleanSession::start(&ts, &vec![0, 3], false);
    assert!(!s.has_high_risk());
    assert_eq!(s.explained(), &vec![1]);
    assert_eq!(s.step(answer("y\n")), Action::Measure(0));
}

#[test]
fn events_that_answer_nothing_change_nothing() {
    let ts = vec![target("a")];
    let (mut s, _) = CleanSession::start(&ts, &vec![1], false);
    assert_eq!(s.step(Event::Measured(5)), Action::Confirm);
    assert_eq!(s.step(Event::Cleaned(Some(5))), Action::Confirm);
    assert_eq!(s.freed(), 0);
    assert_eq!(s.step(answer("n")), Action::Finished(Outcome::Aborted));
    assert_eq!(s.step(answer("y")), Action::Finished(Outcome::Aborted));
}

#[test]
fn menu_choices() {
    assert_eq!(menu_choice("1\n", false), MenuAction::InteractiveClean);
    assert_eq!(menu_choice(" 2 ", true), MenuAction::ScanAll);
    assert_eq!(menu_choice("3", false), MenuAction::CleanSystem);
    assert_eq!(menu_choice("4", false), MenuAction::CleanXcode);
    assert_eq!(menu_choice("5", false), MenuAction::CleanDev);
    assert_eq!(menu_choice("6", false), MenuAction::DeepCleanSystemData);
    assert_eq!(menu_choice("7", false), MenuAction::CleanDocker);
    assert_eq!(menu_choice("8\n", false), MenuAction::RestartWithSudo);
    assert_eq!(menu_choice("8\n", true), MenuAction::Exit);
    assert_eq!(menu_choice("9\n", false), MenuAction::Exit);
    assert_eq!(menu_choice("q\n", false), MenuAction::Exit);
    assert_eq!(menu_choice("Q", false), MenuAction::Exit);
    assert_eq!(menu_choice("9\n", true), MenuAction::Invalid);
    assert_eq!(menu_choice("q\n", true), MenuAction::Invalid);
    assert_eq!(menu_choice("10", false), MenuAction::Invalid);
    assert_eq!(menu_choice("", false), MenuAction::Invalid);
}

#[test]
fn menu_items_match_choices() {
    for root in [false, true] {
        let items = menu_items(root);
        assert_eq!(items.len(), if root { 8 } else { 9 });
        for it in &items {
            assert_eq!(menu_choice(&it.key, root), it.action);
        }
        assert_eq!(items.last().unwrap().label, "Exit");
    }
    assert_eq!(menu_items(false)[7].label, "Run as Administrator (sudo)");
    assert_eq!(menu_items(true)[2].label, "Quick Clean System");
    assert_eq!(menu_rights_line(true), "  [Running as Administrator]");
    assert_eq!(menu_rights_line(false), "  [Running as normal user — some items need sudo]");
}

#[test]
fn groups_and_cleanup_targets() {
    let apps = vec![AppEntry { name: "Install macOS Big Sur.app".to_string(), path: "/Applications/Install macOS Big Sur.app".to_string() }];
    let gs = all_groups("/h", &apps);
    let titles: Vec<&str> = gs.iter().map(|g| g.title.as_str()).collect();
    assert_eq!(titles, vec!["System (Caches, Logs, Trash)", "Xcode", "Developer Tools", "System Data", "Browsers", "Docker", "macOS"]);
    assert_eq!(gs[6].targets.len(), 1);
    assert_eq!(scan_groups("/h", &apps).len(), 7);
    let shown = scan_groups("/h", &Vec::new());
    assert_eq!(shown.len(), 6);
    assert_eq!(shown[5].title, "Docker");
    let all = all_targets("/h", &apps);
    assert_eq!(all.len(), 3 + 5 + 5 + 10 + 5 + 1 + 1);
    assert_eq!(all[0].name, "User Caches");
    assert_eq!(all[all.len() - 1].name, "Installer: Install macOS Big Sur");
    let deep = cleanup_group(MenuAction::DeepCleanSystemData, "/h", &apps).unwrap();
    assert_eq!(deep.title, "System Data + Browsers + macOS");
    assert_eq!(deep.targets.len(), 10 + 5 + 1);
    let sys = cleanup_group(MenuAction::CleanSystem, "/h", &apps).unwrap();
    assert_eq!(sys.title, "System (Caches, Logs, Trash)");
    assert_eq!(cleanup_group(MenuAction::CleanDocker, "/h", &apps).unwrap().targets.len(), 1);
    assert!(cleanup_group(MenuAction::ScanAll, "/h", &apps).is_none());
    assert!(cleanup_group(MenuAction::Exit, "/h", &apps).is_none());
}

#[test]
fn interactive_choices_and_picks() {
    let c = nonempty_choices(&vec![0, 5, 0, 7, 1]);
    assert_eq!(c, vec![1, 3, 4]);
    assert_eq!(picked_targets(&c, &vec![0, 2]), vec![1, 4]);
    assert!(picked_targets(&c, &vec![]).is_empty());
    assert!(nonempty_choices(&vec![0, 0]).is_empty());
}
