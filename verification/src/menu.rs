//! The main menu: the entries shown, how an answer selects one, and the
//! targets each cleaning entry works on.

use vstd::prelude::*;

use crate::catalogue::{
    browser_targets, dev_targets, docker_targets, general_targets, get_browser_targets,
    get_dev_targets, get_docker_targets, get_general_targets, get_system_data_targets,
    get_xcode_targets, system_data_targets, xcode_targets,
};
use crate::catalogue::{all_in_category, law_catalogue_categories};
use crate::installers::{get_macos_targets, installer_targets, is_installer_target, law_installer_targets, AppEntry};
use crate::targets::{views, CleanTarget, TargetView};
use crate::session::indices_where;
use crate::text::{same_text, trim, trim_str};

verus! {

/// What an entry of the main menu does.
#[derive(Debug, Clone, Copy, PartialEq, Eq, Structural)]
pub enum MenuAction {
    InteractiveClean,
    ScanAll,
    CleanSystem,
    CleanXcode,
    CleanDev,
    DeepCleanSystemData,
    CleanDocker,
    RestartWithSudo,
    Exit,
    Invalid,
}

/// The entry an answer selects, once trimmed. The entry after the seven
/// cleaning entries is the restart with administrator rights for a normal
/// user and the exit for root; a normal user exits with `9`, `q` or `Q`.
pub open spec fn choice(answer: Seq<char>, is_root: bool) -> MenuAction {
    let t = trim(answer);
    if t == "1"@ {
        MenuAction::InteractiveClean
    } else if t == "2"@ {
        MenuAction::ScanAll
    } else if t == "3"@ {
        MenuAction::CleanSystem
    } else if t == "4"@ {
        MenuAction::CleanXcode
    } else if t == "5"@ {
        MenuAction::CleanDev
    } else if t == "6"@ {
        MenuAction::DeepCleanSystemData
    } else if t == "7"@ {
        MenuAction::CleanDocker
    } else if t == "8"@ && !is_root {
        MenuAction::RestartWithSudo
    } else if t == "8"@ && is_root {
        MenuAction::Exit
    } else if (t == "9"@ || t == "q"@ || t == "Q"@) && !is_root {
        MenuAction::Exit
    } else {
        MenuAction::Invalid
    }
}

/// Selects the menu entry that `answer` names.
pub fn menu_choice(answer: &str, is_root: bool) -> (a: MenuAction)
    ensures
        a == choice(answer@, is_root),
{
    let t = trim_str(answer);
    if same_text(t, "1") {
        MenuAction::InteractiveClean
    } else if same_text(t, "2") {
        MenuAction::ScanAll
    } else if same_text(t, "3") {
        MenuAction::CleanSystem
    } else if same_text(t, "4") {
        MenuAction::CleanXcode
    } else if same_text(t, "5") {
        MenuAction::CleanDev
    } else if same_text(t, "6") {
        MenuAction::DeepCleanSystemData
    } else if same_text(t, "7") {
        MenuAction::CleanDocker
    } else if same_text(t, "8") && !is_root {
        MenuAction::RestartWithSudo
    } else if same_text(t, "8") && is_root {
        MenuAction::Exit
    } else if (same_text(t, "9") || same_text(t, "q") || same_text(t, "Q")) && !is_root {
        MenuAction::Exit
    } else {
        MenuAction::Invalid
    }
}

/// An entry of the main menu: the key to type, its label and what it does.
pub struct MenuItem {
    pub key: String,
    pub label: String,
    pub action: MenuAction,
}

/// The model of a menu entry.
pub open spec fn item_view(item: MenuItem) -> (Seq<char>, Seq<char>, MenuAction) {
    (item.key@, item.label@, item.action)
}

/// The entries of the main menu, in the order shown.
pub open spec fn menu_entries(is_root: bool) -> Seq<(Seq<char>, Seq<char>, MenuAction)> {
    seq![
        ("1"@, "Interactive Clean"@, MenuAction::InteractiveClean),
        ("2"@, "Scan All"@, MenuAction::ScanAll),
        ("3"@, "Quick Clean System"@, MenuAction::CleanSystem),
        ("4"@, "Clean Xcode"@, MenuAction::CleanXcode),
        ("5"@, "Clean Developer Tools"@, MenuAction::CleanDev),
        ("6"@, "Deep Clean System Data"@, MenuAction::DeepCleanSystemData),
        ("7"@, "Clean Docker"@, MenuAction::CleanDocker),
    ] + if is_root {
        seq![("8"@, "Exit"@, MenuAction::Exit)]
    } else {
        seq![
            ("8"@, "Run as Administrator (sudo)"@, MenuAction::RestartWithSudo),
            ("9"@, "Exit"@, MenuAction::Exit),
        ]
    }
}

/// A one-character key that is not whitespace trims to itself.
proof fn lemma_key_trims_to_itself(c: char)
    requires
        !crate::text::is_space(c),
    ensures
        trim(seq![c]) == seq![c],
{
    let s = seq![c];
    assert(crate::text::trim_start(s) == s);
    assert(crate::text::trim_end(s) == s);
}

/// Typing the key of any entry the menu shows selects that entry's action;
/// the menu always offers a way out, and it offers the restart with
/// administrator rights exactly when the process does not run as root.
pub proof fn law_menu_keys_select_their_entries(is_root: bool)
    ensures
        forall|i: int|
            0 <= i < menu_entries(is_root).len() ==> choice(
                #[trigger] menu_entries(is_root)[i].0,
                is_root,
            ) == menu_entries(is_root)[i].2,
        exists|i: int|
            0 <= i < menu_entries(is_root).len() && #[trigger] menu_entries(is_root)[i].2
                == MenuAction::Exit,
        (exists|i: int|
            0 <= i < menu_entries(is_root).len() && #[trigger] menu_entries(is_root)[i].2
                == MenuAction::RestartWithSudo) == !is_root,
{
    reveal_strlit("1");
    reveal_strlit("2");
    reveal_strlit("3");
    reveal_strlit("4");
    reveal_strlit("5");
    reveal_strlit("6");
    reveal_strlit("7");
    reveal_strlit("8");
    reveal_strlit("9");
    reveal_strlit("q");
    reveal_strlit("Q");
    assert("1"@ =~= seq!['1']);
    assert("2"@ =~= seq!['2']);
    assert("3"@ =~= seq!['3']);
    assert("4"@ =~= seq!['4']);
    assert("5"@ =~= seq!['5']);
    assert("6"@ =~= seq!['6']);
    assert("7"@ =~= seq!['7']);
    assert("8"@ =~= seq!['8']);
    assert("9"@ =~= seq!['9']);
    assert("q"@ =~= seq!['q']);
    assert("Q"@ =~= seq!['Q']);
    lemma_key_trims_to_itself('1');
    lemma_key_trims_to_itself('2');
    lemma_key_trims_to_itself('3');
    lemma_key_trims_to_itself('4');
    lemma_key_trims_to_itself('5');
    lemma_key_trims_to_itself('6');
    lemma_key_trims_to_itself('7');
    lemma_key_trims_to_itself('8');
    lemma_key_trims_to_itself('9');
    let m = menu_entries(is_root);
    if is_root {
        assert(m[7].2 == MenuAction::Exit);
        assert forall|i: int| 0 <= i < m.len() implies m[i].2 != MenuAction::RestartWithSudo by {}
    } else {
        assert(m[8].2 == MenuAction::Exit);
        assert(m[7].2 == MenuAction::RestartWithSudo);
    }
}

fn item(key: &str, label: &str, action: MenuAction) -> (i: MenuItem)
    ensures
        item_view(i) == (key@, label@, action),
{
    MenuItem { key: key.to_owned(), label: label.to_owned(), action }
}

/// The entries of the main menu for a process that runs as root or not.
pub fn menu_items(is_root: bool) -> (items: Vec<MenuItem>)
    ensures
        items@.map_values(|i: MenuItem| item_view(i)) == menu_entries(is_root),
{
    let mut items: Vec<MenuItem> = Vec::new();
    items.push(item("1", "Interactive Clean", MenuAction::InteractiveClean));
    items.push(item("2", "Scan All", MenuAction::ScanAll));
    items.push(item("3", "Quick Clean System", MenuAction::CleanSystem));
    items.push(item("4", "Clean Xcode", MenuAction::CleanXcode));
    items.push(item("5", "Clean Developer Tools", MenuAction::CleanDev));
    items.push(item("6", "Deep Clean System Data", MenuAction::DeepCleanSystemData));
    items.push(item("7", "Clean Docker", MenuAction::CleanDocker));
    if is_root {
        items.push(item("8", "Exit", MenuAction::Exit));
    } else {
        items.push(item("8", "Run as Administrator (sudo)", MenuAction::RestartWithSudo));
        items.push(item("9", "Exit", MenuAction::Exit));
    }
    assert(items@.map_values(|i: MenuItem| item_view(i)) =~= menu_entries(is_root));
    items
}

/// The line above the menu that says with which rights the process runs.
pub open spec fn rights_line(is_root: bool) -> Seq<char> {
    if is_root {
        "  [Running as Administrator]"@
    } else {
        "  [Running as normal user — some items need sudo]"@
    }
}

/// The line above the menu that says with which rights the process runs.
pub fn menu_rights_line(is_root: bool) -> (s: String)
    ensures
        s@ == rights_line(is_root),
{
    if is_root {
        "  [Running as Administrator]".to_owned()
    } else {
        "  [Running as normal user — some items need sudo]".to_owned()
    }
}

/// A category of targets with the title it is shown under.
pub struct TargetGroup {
    pub title: String,
    pub targets: Vec<CleanTarget>,
}

/// The model of a group: its title and its targets.
pub open spec fn group_view(g: TargetGroup) -> (Seq<char>, Seq<TargetView>) {
    (g.title@, views(g.targets@))
}

/// The groups models of a sequence of groups.
pub open spec fn group_views(gs: Seq<TargetGroup>) -> Seq<(Seq<char>, Seq<TargetView>)> {
    gs.map_values(|g: TargetGroup| group_view(g))
}

/// Every category, in the order in which they are scanned, for the home
/// directory `home` and the entries `apps` of the applications directory.
pub open spec fn all_groups_spec(home: Seq<char>, apps: Seq<AppEntry>) -> Seq<
    (Seq<char>, Seq<TargetView>),
> {
    seq![
        ("System (Caches, Logs, Trash)"@, general_targets(home)),
        ("Xcode"@, xcode_targets(home)),
        ("Developer Tools"@, dev_targets(home)),
        ("System Data"@, system_data_targets(home)),
        ("Browsers"@, browser_targets(home)),
        ("Docker"@, docker_targets(home)),
        ("macOS"@, installer_targets(apps)),
    ]
}

fn group(title: &str, targets: Vec<CleanTarget>) -> (g: TargetGroup)
    ensures
        group_view(g) == (title@, views(targets@)),
{
    TargetGroup { title: title.to_owned(), targets }
}

/// Every category with its title, in the order in which they are scanned.
pub fn all_groups(home: &str, apps: &Vec<AppEntry>) -> (groups: Vec<TargetGroup>)
    ensures
        group_views(groups@) == all_groups_spec(home@, apps@),
{
    let mut groups: Vec<TargetGroup> = Vec::new();
    groups.push(group("System (Caches, Logs, Trash)", get_general_targets(home)));
    groups.push(group("Xcode", get_xcode_targets(home)));
    groups.push(group("Developer Tools", get_dev_targets(home)));
    groups.push(group("System Data", get_system_data_targets(home)));
    groups.push(group("Browsers", get_browser_targets(home)));
    groups.push(group("Docker", get_docker_targets(home)));
    groups.push(group("macOS", get_macos_targets(apps)));
    assert(group_views(groups@) =~= all_groups_spec(home@, apps@));
    groups
}

/// The groups of `gs` that hold targets, in order.
pub open spec fn nonempty_groups(gs: Seq<(Seq<char>, Seq<TargetView>)>) -> Seq<
    (Seq<char>, Seq<TargetView>),
>
    decreases gs.len(),
{
    if gs.len() == 0 {
        Seq::empty()
    } else {
        nonempty_groups(gs.drop_last()) + if gs.last().1.len() > 0 {
            seq![gs.last()]
        } else {
            Seq::empty()
        }
    }
}

/// The categories that "Scan All" shows: every category that holds
/// targets, in order.
pub fn scan_groups(home: &str, apps: &Vec<AppEntry>) -> (groups: Vec<TargetGroup>)
    ensures
        group_views(groups@) == nonempty_groups(all_groups_spec(home@, apps@)),
{
    let mut rest = all_groups(home, apps);
    let ghost all = group_views(rest@);
    let mut groups: Vec<TargetGroup> = Vec::new();
    let ghost mut k: int = 0;
    while rest.len() > 0
        invariant
            0 <= k <= all.len(),
            group_views(rest@) == all.subrange(k, all.len() as int),
            group_views(groups@) == nonempty_groups(all.subrange(0, k)),
        decreases rest@.len(),
    {
        let ghost before = rest@;
        assert(group_views(before).len() == before.len());
        assert(group_views(before)[0] == all[k]);
        let g = rest.remove(0);
        proof {
            assert(g == before[0]);
            assert(group_view(g) == all[k]);
            assert(all.subrange(0, k + 1).drop_last() =~= all.subrange(0, k));
            assert(rest@ =~= before.subrange(1, before.len() as int));
            assert forall|j: int| 0 <= j < rest@.len() implies group_views(rest@)[j]
                == all.subrange(k + 1, all.len() as int)[j] by {
                assert(rest@[j] == before[j + 1]);
                assert(group_views(before)[j + 1] == all[k + 1 + j]);
            }
            assert(group_views(rest@) =~= all.subrange(k + 1, all.len() as int));
        }
        if g.targets.len() > 0 {
            groups.push(g);
        }
        proof {
            assert(group_views(groups@) =~= nonempty_groups(all.subrange(0, k + 1)));
            k = k + 1;
        }
    }
    assert(all.subrange(0, k) =~= all);
    groups
}

/// Every target of every category, in the order in which they are scanned.
pub open spec fn all_targets_spec(home: Seq<char>, apps: Seq<AppEntry>) -> Seq<TargetView> {
    general_targets(home) + xcode_targets(home) + dev_targets(home) + system_data_targets(home)
        + browser_targets(home) + docker_targets(home) + installer_targets(apps)
}

/// `b` appended to `a`.
fn concat(a: Vec<CleanTarget>, b: Vec<CleanTarget>) -> (c: Vec<CleanTarget>)
    ensures
        views(c@) == views(a@) + views(b@),
{
    let ghost va = a@;
    let ghost vb = b@;
    let mut a = a;
    let mut b = b;
    a.append(&mut b);
    assert(a@ == va + vb);
    assert(views(a@) =~= views(va) + views(vb));
    a
}

/// Every target of every category, as the interactive cleanup offers them.
pub fn all_targets(home: &str, apps: &Vec<AppEntry>) -> (targets: Vec<CleanTarget>)
    ensures
        views(targets@) == all_targets_spec(home@, apps@),
{
    let mut t = get_general_targets(home);
    t = concat(t, get_xcode_targets(home));
    t = concat(t, get_dev_targets(home));
    t = concat(t, get_system_data_targets(home));
    t = concat(t, get_browser_targets(home));
    t = concat(t, get_docker_targets(home));
    t = concat(t, get_macos_targets(apps));
    t
}

/// The category that a cleaning entry of the menu cleans, with the title it
/// is cleaned under; `None` for the other entries.
pub open spec fn cleanup_spec(action: MenuAction, home: Seq<char>, apps: Seq<AppEntry>) -> Option<
    (Seq<char>, Seq<TargetView>),
> {
    match action {
        MenuAction::CleanSystem => Some(("System (Caches, Logs, Trash)"@, general_targets(home))),
        MenuAction::CleanXcode => Some(("Xcode"@, xcode_targets(home))),
        MenuAction::CleanDev => Some(("Developer Tools"@, dev_targets(home))),
        MenuAction::DeepCleanSystemData => Some(
            (
                "System Data + Browsers + macOS"@,
                system_data_targets(home) + browser_targets(home) + installer_targets(apps),
            ),
        ),
        MenuAction::CleanDocker => Some(("Docker"@, docker_targets(home))),
        _ => None,
    }
}

/// The category that a cleaning entry of the menu cleans.
pub fn cleanup_group(action: MenuAction, home: &str, apps: &Vec<AppEntry>) -> (g: Option<
    TargetGroup,
>)
    ensures
        match g {
            Some(g) => cleanup_spec(action, home@, apps@) == Some(group_view(g)),
            None => cleanup_spec(action, home@, apps@) is None,
        },
{
    match action {
        MenuAction::CleanSystem => Some(
            group("System (Caches, Logs, Trash)", get_general_targets(home)),
        ),
        MenuAction::CleanXcode => Some(group("Xcode", get_xcode_targets(home))),
        MenuAction::CleanDev => Some(group("Developer Tools", get_dev_targets(home))),
        MenuAction::DeepCleanSystemData => {
            let mut t = get_system_data_targets(home);
            t = concat(t, get_browser_targets(home));
            t = concat(t, get_macos_targets(apps));
            Some(group("System Data + Browsers + macOS", t))
        },
        MenuAction::CleanDocker => Some(group("Docker", get_docker_targets(home))),
        _ => None,
    }
}

/// The targets offered by the interactive cleanup: those that hold data,
/// in order.
pub fn nonempty_choices(sizes: &Vec<u64>) -> (c: Vec<usize>)
    ensures
        c@ == indices_where(|i: int| sizes@[i] > 0, sizes@.len() as int),
{
    let mut c: Vec<usize> = Vec::new();
    let mut i: usize = 0;
    while i < sizes.len()
        invariant
            i <= sizes@.len(),
            c@ == indices_where(|j: int| sizes@[j] > 0, i as int),
        decreases sizes@.len() - i,
    {
        if sizes[i] > 0 {
            c.push(i);
        }
        i = i + 1;
    }
    c
}

/// The targets picked: `selection` holds positions among `choices`.
pub fn picked_targets(choices: &Vec<usize>, selection: &Vec<usize>) -> (p: Vec<usize>)
    requires
        forall|k: int| 0 <= k < selection@.len() ==> #[trigger] selection@[k] < choices@.len(),
    ensures
        p@ == selection@.map_values(|k: usize| choices@[k as int]),
{
    let mut p: Vec<usize> = Vec::new();
    let mut i: usize = 0;
    while i < selection.len()
        invariant
            i <= selection@.len(),
            forall|k: int| 0 <= k < selection@.len() ==> #[trigger] selection@[k] < choices@.len(),
            p@ =~= selection@.subrange(0, i as int).map_values(|k: usize| choices@[k as int]),
        decreases selection@.len() - i,
    {
        p.push(choices[selection[i]]);
        i = i + 1;
    }
    assert(selection@.subrange(0, selection@.len() as int) =~= selection@);
    p
}

/// The label under which the menu shows an action.
pub open spec fn action_label(a: MenuAction) -> Seq<char> {
    match a {
        MenuAction::InteractiveClean => "Interactive Clean"@,
        MenuAction::ScanAll => "Scan All"@,
        MenuAction::CleanSystem => "Quick Clean System"@,
        MenuAction::CleanXcode => "Clean Xcode"@,
        MenuAction::CleanDev => "Clean Developer Tools"@,
        MenuAction::DeepCleanSystemData => "Deep Clean System Data"@,
        MenuAction::CleanDocker => "Clean Docker"@,
        MenuAction::RestartWithSudo => "Run as Administrator (sudo)"@,
        MenuAction::Exit => "Exit"@,
        MenuAction::Invalid => Seq::empty(),
    }
}

/// Every entry of the menu carries the label of the action it selects, and
/// no action is offered twice: what the user reads is what the key does.
pub proof fn law_menu_labels_name_their_actions(is_root: bool)
    ensures
        forall|i: int|
            0 <= i < menu_entries(is_root).len() ==> #[trigger] menu_entries(is_root)[i].1
                == action_label(menu_entries(is_root)[i].2),
        forall|i: int, j: int|
            0 <= i < j < menu_entries(is_root).len() ==> #[trigger] menu_entries(is_root)[i].2
                != #[trigger] menu_entries(is_root)[j].2,
{
    let m = menu_entries(is_root);
    assert forall|i: int| 0 <= i < m.len() implies #[trigger] m[i].1 == action_label(m[i].2) by {
        assert(i == 0 || i == 1 || i == 2 || i == 3 || i == 4 || i == 5 || i == 6 || i == 7 || i
            == 8);
    }
    assert forall|i: int, j: int| 0 <= i < j < m.len() implies #[trigger] m[i].2
        != #[trigger] m[j].2 by {
        assert(i == 0 || i == 1 || i == 2 || i == 3 || i == 4 || i == 5 || i == 6 || i == 7);
        assert(j == 1 || j == 2 || j == 3 || j == 4 || j == 5 || j == 6 || j == 7 || j == 8);
    }
}

/// Each cleaning entry of the menu cleans the targets of the category it
/// names, under its title: Quick Clean the System targets, Clean Xcode the
/// Xcode targets, Clean Developer Tools the developer tool caches, Clean
/// Docker the Docker data, and the deep clean the system data, then the
/// browser caches, then the macOS installers. The other entries clean
/// nothing.
pub proof fn law_cleanup_groups_hold_their_category(home: Seq<char>, apps: Seq<AppEntry>)
    ensures
        cleanup_spec(MenuAction::CleanSystem, home, apps) matches Some(g) && g.0
            == "System (Caches, Logs, Trash)"@ && g.1.len() == 3 && all_in_category(
            g.1,
            "System"@,
        ),
        cleanup_spec(MenuAction::CleanXcode, home, apps) matches Some(g) && g.0 == "Xcode"@
            && g.1.len() == 5 && all_in_category(g.1, "Xcode"@),
        cleanup_spec(MenuAction::CleanDev, home, apps) matches Some(g) && g.0
            == "Developer Tools"@ && g.1.len() == 5 && all_in_category(g.1, "Developer Tools"@),
        cleanup_spec(MenuAction::CleanDocker, home, apps) matches Some(g) && g.0 == "Docker"@
            && g.1.len() == 1 && all_in_category(g.1, "Docker"@),
        cleanup_spec(MenuAction::DeepCleanSystemData, home, apps) matches Some(g) && g.0
            == "System Data + Browsers + macOS"@ && g.1.len() >= 15 && all_in_category(
            g.1.subrange(0, 10),
            "System Data"@,
        ) && all_in_category(g.1.subrange(10, 15), "Browsers"@) && forall|i: int|
            15 <= i < g.1.len() ==> is_installer_target(#[trigger] g.1[i]),
        cleanup_spec(MenuAction::InteractiveClean, home, apps) is None,
        cleanup_spec(MenuAction::ScanAll, home, apps) is None,
        cleanup_spec(MenuAction::RestartWithSudo, home, apps) is None,
        cleanup_spec(MenuAction::Exit, home, apps) is None,
        cleanup_spec(MenuAction::Invalid, home, apps) is None,
{
    law_catalogue_categories(home);
    law_installer_targets(apps);
    let sd = system_data_targets(home);
    let br = browser_targets(home);
    let it = installer_targets(apps);
    let g = sd + br + it;
    assert(g.subrange(0, 10) =~= sd);
    assert(g.subrange(10, 15) =~= br);
    assert forall|i: int| 15 <= i < g.len() implies is_installer_target(#[trigger] g[i]) by {
        assert(g[i] == it[i - 15]);
    }
}

/// "Scan All" goes through the categories in a fixed order, each shown
/// under its title and holding only targets of that category: the System
/// targets, then Xcode, Developer Tools, System Data, Browsers, Docker and
/// the macOS installers.
pub proof fn law_scan_groups_hold_their_category(home: Seq<char>, apps: Seq<AppEntry>)
    ensures
        all_groups_spec(home, apps).len() == 7,
        all_groups_spec(home, apps)[0].0 == "System (Caches, Logs, Trash)"@,
        all_in_category(all_groups_spec(home, apps)[0].1, "System"@),
        all_groups_spec(home, apps)[1].0 == "Xcode"@,
        all_in_category(all_groups_spec(home, apps)[1].1, "Xcode"@),
        all_groups_spec(home, apps)[2].0 == "Developer Tools"@,
        all_in_category(all_groups_spec(home, apps)[2].1, "Developer Tools"@),
        all_groups_spec(home, apps)[3].0 == "System Data"@,
        all_in_category(all_groups_spec(home, apps)[3].1, "System Data"@),
        all_groups_spec(home, apps)[4].0 == "Browsers"@,
        all_in_category(all_groups_spec(home, apps)[4].1, "Browsers"@),
        all_groups_spec(home, apps)[5].0 == "Docker"@,
        all_in_category(all_groups_spec(home, apps)[5].1, "Docker"@),
        all_groups_spec(home, apps)[6].0 == "macOS"@,
        all_in_category(all_groups_spec(home, apps)[6].1, "macOS"@),
        forall|k: int| 0 <= k < 6 ==> #[trigger] all_groups_spec(home, apps)[k].1.len() > 0,
{
    law_catalogue_categories(home);
    law_installer_targets(apps);
    let it = installer_targets(apps);
    assert forall|i: int| 0 <= i < it.len() implies #[trigger] it[i].category == "macOS"@ by {
        assert(is_installer_target(it[i]));
    }
    assert forall|k: int| 0 <= k < 6 implies #[trigger] all_groups_spec(home, apps)[k].1.len() > 0 by {
        assert(k == 0 || k == 1 || k == 2 || k == 3 || k == 4 || k == 5);
    }
}

/// The targets of a sequence of groups, group after group.
pub open spec fn group_targets(gs: Seq<(Seq<char>, Seq<TargetView>)>) -> Seq<TargetView>
    decreases gs.len(),
{
    if gs.len() == 0 {
        Seq::empty()
    } else {
        group_targets(gs.drop_last()) + gs.last().1
    }
}

/// The interactive cleanup offers the targets of the categories that "Scan
/// All" shows, category after category in the same order; leaving out the
/// categories that hold nothing changes nothing.
pub proof fn law_interactive_offers_the_scanned_categories(home: Seq<char>, apps: Seq<AppEntry>)
    ensures
        all_targets_spec(home, apps) == group_targets(all_groups_spec(home, apps)),
        all_targets_spec(home, apps) == group_targets(nonempty_groups(all_groups_spec(home, apps))),
{
    let gs = all_groups_spec(home, apps);
    lemma_group_targets_skip_empty(gs, gs.len() as int);
    reveal_with_fuel(group_targets, 8);
    assert(gs.subrange(0, gs.len() as int) =~= gs);
    assert(all_targets_spec(home, apps) =~= group_targets(gs));
}

/// Dropping the groups that hold no targets leaves the targets unchanged.
proof fn lemma_group_targets_skip_empty(gs: Seq<(Seq<char>, Seq<TargetView>)>, k: int)
    requires
        0 <= k <= gs.len(),
    ensures
        group_targets(nonempty_groups(gs.subrange(0, k))) == group_targets(gs.subrange(0, k)),
    decreases k,
{
    if k > 0 {
        lemma_group_targets_skip_empty(gs, k - 1);
        let p = gs.subrange(0, k);
        assert(p.drop_last() =~= gs.subrange(0, k - 1));
        let ne = nonempty_groups(p.drop_last());
        if p.last().1.len() > 0 {
            assert(nonempty_groups(p) =~= ne.push(p.last()));
            assert(ne.push(p.last()).drop_last() =~= ne);
        } else {
            assert(nonempty_groups(p) =~= ne);
            assert(group_targets(p) =~= group_targets(p.drop_last()));
        }
    }
}

} // verus!
