//! The `macOS` category: old macOS installers found among the applications.

use vstd::prelude::*;

use crate::targets::{fresh_target, views, CleanTarget, RiskLevel, TargetKind, TargetView};
use crate::text::{ends_with, has_prefix, has_suffix, starts_with, strip_suffixes, strip_suffixes_str};

verus! {

/// An entry of the applications directory: its file name and its path.
pub struct AppEntry {
    pub name: String,
    pub path: String,
}

/// The file names of macOS installers: `Install macOS … .app`.
pub open spec fn is_installer_name(name: Seq<char>) -> bool {
    has_prefix(name, "Install macOS"@) && has_suffix(name, ".app"@)
}

/// The text that explains an installer target, for the installer `name`.
pub open spec fn installer_explanation(name: Seq<char>) -> Seq<char> {
    "Установщик: "@ + name
        + ". Занимает 12-15 GB.\nМожно удалить если не планируете переустановку.\nСкачивается заново через App Store."@
}

/// The target that removes the installer `name` at `path`.
pub open spec fn installer_target(name: Seq<char>, path: Seq<char>) -> TargetView {
    TargetView {
        explanation: installer_explanation(name),
        risk_level: RiskLevel::Medium,
        kind: TargetKind::DirectoryFull,
        ..fresh_target(
            "macOS"@,
            "Installer: "@ + strip_suffixes(name, ".app"@),
            path,
            "Old macOS installer (12-15 GB)"@,
        )
    }
}

/// One target per installer among `entries`, in the order of `entries`.
pub open spec fn installer_targets(entries: Seq<AppEntry>) -> Seq<TargetView>
    decreases entries.len(),
{
    if entries.len() == 0 {
        Seq::empty()
    } else {
        let e = entries.last();
        installer_targets(entries.drop_last()) + if is_installer_name(e.name@) {
            seq![installer_target(e.name@, e.path@)]
        } else {
            Seq::empty()
        }
    }
}

/// A target of the `macOS` category, removed as a whole at medium risk.
pub open spec fn is_installer_target(t: TargetView) -> bool {
    &&& t.category == "macOS"@
    &&& t.kind == TargetKind::DirectoryFull
    &&& t.risk_level == RiskLevel::Medium
}

/// Every installer target belongs to the `macOS` category and is removed as
/// a whole at medium risk; there is at most one per entry.
pub proof fn law_installer_targets(entries: Seq<AppEntry>)
    ensures
        forall|i: int|
            0 <= i < installer_targets(entries).len() ==> is_installer_target(
                #[trigger] installer_targets(entries)[i],
            ),
        installer_targets(entries).len() <= entries.len(),
    decreases entries.len(),
{
    if entries.len() > 0 {
        let prev = installer_targets(entries.drop_last());
        law_installer_targets(entries.drop_last());
        let all = installer_targets(entries);
        let e = entries.last();
        assert(all == prev + if is_installer_name(e.name@) {
            seq![installer_target(e.name@, e.path@)]
        } else {
            Seq::empty()
        });
        assert forall|i: int| 0 <= i < all.len() implies is_installer_target(#[trigger] all[i]) by {
            if i < prev.len() {
                assert(all[i] == prev[i]);
            } else {
                assert(all[i] == installer_target(e.name@, e.path@));
            }
        }
        assert(all.len() <= prev.len() + 1);
    } else {
        assert(installer_targets(entries).len() == 0);
    }
}

/// The targets of the `macOS` category: every old macOS installer among
/// the entries of the applications directory, removed as a whole.
pub fn get_macos_targets(entries: &Vec<AppEntry>) -> (targets: Vec<CleanTarget>)
    ensures
        views(targets@) == installer_targets(entries@),
{
    let mut targets: Vec<CleanTarget> = Vec::new();
    let mut i: usize = 0;
    while i < entries.len()
        invariant
            i <= entries@.len(),
            views(targets@) == installer_targets(entries@.subrange(0, i as int)),
        decreases entries@.len() - i,
    {
        let e = &entries[i];
        let name = e.name.as_str();
        proof {
            assert(entries@.subrange(0, i + 1).drop_last() =~= entries@.subrange(0, i as int));
            assert(entries@.subrange(0, i + 1).last() == entries@[i as int]);
        }
        if starts_with(name, "Install macOS") && ends_with(name, ".app") {
            let mut title = "Installer: ".to_owned();
            title.append(strip_suffixes_str(name, ".app"));
            let mut note = "Установщик: ".to_owned();
            note.append(name);
            note.append(
                ". Занимает 12-15 GB.\nМожно удалить если не планируете переустановку.\nСкачивается заново через App Store.",
            );
            let t = CleanTarget::new(
                "macOS",
                title.as_str(),
                e.path.clone(),
                "Old macOS installer (12-15 GB)",
            ).full_delete().with_risk(RiskLevel::Medium).with_explanation(note.as_str());
            assert(t@ =~= installer_target(e.name@, e.path@));
            targets.push(t);
            assert(views(targets@) =~= installer_targets(entries@.subrange(0, i + 1)));
        } else {
            assert(views(targets@) =~= installer_targets(entries@.subrange(0, i + 1)));
        }
        i = i + 1;
    }
    assert(entries@.subrange(0, entries@.len() as int) =~= entries@);
    targets
}

} // verus!
