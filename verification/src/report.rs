//! What is shown of targets and sizes: human-readable byte sizes and the
//! rows of the scan table and of the picker.

use vstd::prelude::*;

use crate::targets::{CleanTarget, RiskLevel};

verus! {

/// The text of a decimal digit.
pub open spec fn digit(d: nat) -> char {
    if d == 0 { '0' }
    else if d == 1 { '1' }
    else if d == 2 { '2' }
    else if d == 3 { '3' }
    else if d == 4 { '4' }
    else if d == 5 { '5' }
    else if d == 6 { '6' }
    else if d == 7 { '7' }
    else if d == 8 { '8' }
    else { '9' }
}

/// The decimal text of `n`, without leading zeros.
pub open spec fn decimal(n: nat) -> Seq<char>
    decreases n,
{
    if n < 10 {
        seq![digit(n)]
    } else {
        decimal(n / 10) + seq![digit(n % 10)]
    }
}

/// The text that `bytesize` renders for `bytes`: IEC units with one
/// decimal, such as `1.5 KiB`.
pub uninterp spec fn byte_size_text(bytes: u64) -> Seq<char>;

/// Renders `bytes` as `bytesize::ByteSize` displays it. Below 1024 bytes the
/// text is the plain count followed by ` B`; above, the crate divides as a
/// float and prints one decimal with an IEC unit, which is only named here.
#[verifier::external_body]
fn render_byte_size(bytes: u64) -> (s: String)
    ensures
        s@ == byte_size_text(bytes),
        bytes < 1024 ==> s@ == decimal(bytes as nat) + " B"@,
{
    bytesize::ByteSize(bytes).to_string()
}

/// The human-readable text of a byte count.
pub fn size_text(bytes: u64) -> (s: String)
    ensures
        s@ == byte_size_text(bytes),
        bytes < 1024 ==> s@ == decimal(bytes as nat) + " B"@,
{
    render_byte_size(bytes)
}

/// Where a row is shown: in the scan table or in the picker.
#[derive(Debug, Clone, Copy, PartialEq, Eq, Structural)]
pub enum RowStyle {
    Table,
    Picker,
}

/// The badge that marks a risky target.
pub open spec fn risk_badge(style: RowStyle, level: RiskLevel) -> Seq<char> {
    match (style, level) {
        (_, RiskLevel::Low) => Seq::empty(),
        (RowStyle::Table, RiskLevel::Medium) => " [MED]"@,
        (RowStyle::Table, RiskLevel::High) => " [HIGH]"@,
        (RowStyle::Picker, RiskLevel::Medium) => " ⚠MED"@,
        (RowStyle::Picker, RiskLevel::High) => " 🚨HIGH"@,
    }
}

/// A target needs rights the process lacks: it requires administrator
/// rights and the process does not run as root.
pub open spec fn lacks_rights(requires_sudo: bool, is_root: bool) -> bool {
    requires_sudo && !is_root
}

/// The badge that marks a target the process lacks the rights to clean.
pub open spec fn sudo_badge(requires_sudo: bool, is_root: bool) -> Seq<char> {
    if lacks_rights(requires_sudo, is_root) {
        " [SUDO]"@
    } else {
        Seq::empty()
    }
}

/// The sudo badge marks only targets that need administrator rights, and
/// never while the process runs as root.
pub proof fn law_sudo_badge_only_for_missing_rights(requires_sudo: bool, is_root: bool)
    ensures
        sudo_badge(requires_sudo, is_root).len() > 0 ==> requires_sudo,
        is_root ==> sudo_badge(requires_sudo, is_root).len() == 0,
        requires_sudo && !is_root ==> sudo_badge(requires_sudo, is_root).len() > 0,
{
    reveal_strlit(" [SUDO]");
}

/// What one row shows of a target.
pub struct TargetRow {
    pub category: String,
    pub name: String,
    pub size_text: String,
    pub description: String,
    pub path: String,
    pub risk_badge: String,
    pub sudo_badge: String,
}

/// The row that shows `target`, of `size` bytes, in the given style.
pub fn target_row(target: &CleanTarget, size: u64, is_root: bool, style: RowStyle) -> (row:
    TargetRow)
    ensures
        row.category@ == target.category@,
        row.name@ == target.name@,
        row.size_text@ == byte_size_text(size),
        row.description@ == target.description@,
        row.path@ == target.path@,
        row.risk_badge@ == risk_badge(style, target.risk_level),
        row.sudo_badge@ == sudo_badge(target.requires_sudo, is_root),
{
    let risk = match (style, target.risk_level) {
        (_, RiskLevel::Low) => String::new(),
        (RowStyle::Table, RiskLevel::Medium) => " [MED]".to_owned(),
        (RowStyle::Table, RiskLevel::High) => " [HIGH]".to_owned(),
        (RowStyle::Picker, RiskLevel::Medium) => " ⚠MED".to_owned(),
        (RowStyle::Picker, RiskLevel::High) => " 🚨HIGH".to_owned(),
    };
    let sudo = if target.requires_sudo && !is_root {
        " [SUDO]".to_owned()
    } else {
        String::new()
    };
    TargetRow {
        category: target.category.clone(),
        name: target.name.clone(),
        size_text: size_text(size),
        description: target.description.clone(),
        path: target.path.clone(),
        risk_badge: risk,
        sudo_badge: sudo,
    }
}

} // verus!
