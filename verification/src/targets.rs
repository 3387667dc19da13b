//! Cleanup targets: what a target is, how one is built, and the catalogue
//! of targets by category.

use vstd::prelude::*;

verus! {

/// How risky it is to clean a target.
#[derive(Debug, Clone, Copy, PartialEq, Eq, Structural)]
pub enum RiskLevel {
    Low,
    Medium,
    High,
}

/// The label shown for a risk level.
pub open spec fn risk_label(level: RiskLevel) -> Seq<char> {
    match level {
        RiskLevel::Low => "LOW"@,
        RiskLevel::Medium => "MEDIUM"@,
        RiskLevel::High => "HIGH"@,
    }
}

impl RiskLevel {
    /// The label of this risk level: `LOW`, `MEDIUM` or `HIGH`.
    pub fn to_string(&self) -> (s: String)
        ensures
            s@ == risk_label(*self),
    {
        match self {
            RiskLevel::Low => "LOW".to_owned(),
            RiskLevel::Medium => "MEDIUM".to_owned(),
            RiskLevel::High => "HIGH".to_owned(),
        }
    }
}

/// How a target is cleaned.
#[derive(Debug, Clone)]
pub enum TargetType {
    /// The entries inside the directory are removed; the directory stays.
    Directory,
    /// The directory or file is removed as a whole.
    DirectoryFull,
    /// An outside program does the cleaning.
    Command { program: String, args: Vec<String> },
}

/// The mathematical model of a [`TargetType`].
#[verifier::ext_equal]
pub enum TargetKind {
    Directory,
    DirectoryFull,
    Command { program: Seq<char>, args: Seq<Seq<char>> },
}

impl View for TargetType {
    type V = TargetKind;

    open spec fn view(&self) -> TargetKind {
        match self {
            TargetType::Directory => TargetKind::Directory,
            TargetType::DirectoryFull => TargetKind::DirectoryFull,
            TargetType::Command { program, args } => TargetKind::Command {
                program: program@,
                args: args@.map_values(|a: String| a@),
            },
        }
    }
}

/// A directory, file or command that frees disk space.
#[derive(Debug, Clone)]
pub struct CleanTarget {
    pub category: String,
    pub name: String,
    pub path: String,
    pub description: String,
    pub explanation: String,
    pub requires_sudo: bool,
    pub risk_level: RiskLevel,
    pub target_type: TargetType,
}

/// The mathematical model of a [`CleanTarget`].
#[verifier::ext_equal]
pub struct TargetView {
    pub category: Seq<char>,
    pub name: Seq<char>,
    pub path: Seq<char>,
    pub description: Seq<char>,
    pub explanation: Seq<char>,
    pub requires_sudo: bool,
    pub risk_level: RiskLevel,
    pub kind: TargetKind,
}

impl View for CleanTarget {
    type V = TargetView;

    open spec fn view(&self) -> TargetView {
        TargetView {
            category: self.category@,
            name: self.name@,
            path: self.path@,
            description: self.description@,
            explanation: self.explanation@,
            requires_sudo: self.requires_sudo,
            risk_level: self.risk_level,
            kind: self.target_type@,
        }
    }
}

/// A fresh target: no explanation, no administrator rights needed, low
/// risk, cleaned by emptying its directory.
pub open spec fn fresh_target(
    category: Seq<char>,
    name: Seq<char>,
    path: Seq<char>,
    description: Seq<char>,
) -> TargetView {
    TargetView {
        category,
        name,
        path,
        description,
        explanation: Seq::empty(),
        requires_sudo: false,
        risk_level: RiskLevel::Low,
        kind: TargetKind::Directory,
    }
}

/// The models of a sequence of targets.
pub open spec fn views(targets: Seq<CleanTarget>) -> Seq<TargetView> {
    targets.map_values(|t: CleanTarget| t@)
}

impl CleanTarget {
    /// A target with the given category, name, path and description, with
    /// no explanation, low risk, no administrator rights needed, cleaned by
    /// emptying its directory.
    pub fn new(category: &str, name: &str, path: String, description: &str) -> (t: Self)
        ensures
            t@ == fresh_target(category@, name@, path@, description@),
    {
        CleanTarget {
            category: category.to_owned(),
            name: name.to_owned(),
            path,
            description: description.to_owned(),
            explanation: String::new(),
            requires_sudo: false,
            risk_level: RiskLevel::Low,
            target_type: TargetType::Directory,
        }
    }

    /// The same target with the given explanation.
    pub fn with_explanation(self, text: &str) -> (t: Self)
        ensures
            t@ == (TargetView { explanation: text@, ..self@ }),
    {
        let mut t = self;
        t.explanation = text.to_owned();
        t
    }

    /// The same target, marked as needing administrator rights.
    pub fn with_sudo(self) -> (t: Self)
        ensures
            t@ == (TargetView { requires_sudo: true, ..self@ }),
    {
        let mut t = self;
        t.requires_sudo = true;
        t
    }

    /// The same target with the given risk level.
    pub fn with_risk(self, level: RiskLevel) -> (t: Self)
        ensures
            t@ == (TargetView { risk_level: level, ..self@ }),
    {
        let mut t = self;
        t.risk_level = level;
        t
    }

    /// The same target, cleaned by running `program` with `args`.
    pub fn with_command(self, program: &str, args: &[&str]) -> (t: Self)
        ensures
            t@ == (TargetView {
                kind: TargetKind::Command {
                    program: program@,
                    args: args@.map_values(|a: &str| a@),
                },
                ..self@
            }),
    {
        let mut owned: Vec<String> = Vec::new();
        let mut i: usize = 0;
        while i < args.len()
            invariant
                i <= args@.len(),
                owned@.len() == i,
                forall|k: int| 0 <= k < i ==> #[trigger] owned@[k]@ == args@[k]@,
            decreases args@.len() - i,
        {
            let a = args[i].to_owned();
            owned.push(a);
            i = i + 1;
        }
        assert(owned@.map_values(|a: String| a@) =~= args@.map_values(|a: &str| a@));
        let mut t = self;
        t.target_type = TargetType::Command { program: program.to_owned(), args: owned };
        t
    }

    /// The same target, removed as a whole when cleaned.
    pub fn full_delete(self) -> (t: Self)
        ensures
            t@ == (TargetView { kind: TargetKind::DirectoryFull, ..self@ }),
    {
        let mut t = self;
        t.target_type = TargetType::DirectoryFull;
        t
    }
}

} // verus!
