//! A cleanup session: the decisions taken between measuring the targets of a
//! category and reporting the space freed. The caller performs each action
//! (asking the user, measuring, cleaning) and hands back what happened.

use vstd::prelude::*;

use crate::report::lacks_rights;
use crate::sizes::total;
use crate::targets::{CleanTarget, RiskLevel};
use crate::text::{accepts_delete, accepts_yes, is_delete_confirmation, is_yes};

verus! {

/// How a session ended.
#[derive(Debug, Clone, Copy, PartialEq, Eq, Structural)]
pub enum Outcome {
    /// The targets held nothing to clean; nothing was asked.
    NothingToClean,
    /// The answer to the confirmation could not be read.
    ReadFailed,
    /// The user did not confirm.
    Aborted,
    /// The user did not type `DELETE` for a high-risk cleanup.
    HighRiskAborted,
    /// Every eligible target was dealt with; `freed` bytes were freed.
    Completed { freed: u64 },
}

/// Where a session stands.
#[derive(Debug, Clone, Copy, PartialEq, Eq, Structural)]
pub enum Phase {
    /// Waiting for the answer to "proceed? (y/N)".
    Confirming,
    /// Waiting for `DELETE`.
    ConfirmingHighRisk,
    /// Waiting for the current size of target `i`.
    Measuring(usize),
    /// Waiting for the result of cleaning target `i`.
    Cleaning(usize),
    /// Over.
    Done(Outcome),
}

/// What the caller is to do next.
#[derive(Debug, Clone, Copy, PartialEq, Eq, Structural)]
pub enum Action {
    /// Show the report and ask whether to proceed; answer with `Answer`.
    Confirm,
    /// Ask for `DELETE`; answer with `Answer`.
    ConfirmHighRisk,
    /// Measure target `i`; answer with `Measured`.
    Measure(usize),
    /// Clean target `i`; answer with `Cleaned`.
    Clean(usize),
    /// Report the outcome; the session is over.
    Finished(Outcome),
}

/// What happened when the caller performed an action.
pub enum Event {
    /// A line read from the user, or `None` where reading failed.
    Answer(Option<String>),
    /// The current size of the target being measured.
    Measured(u64),
    /// The bytes freed by cleaning the target, or `None` where it failed.
    Cleaned(Option<u64>),
}

/// The mathematical model of an [`Event`].
pub enum EventView {
    Answer(Option<Seq<char>>),
    Measured(u64),
    Cleaned(Option<u64>),
}

impl View for Event {
    type V = EventView;

    open spec fn view(&self) -> EventView {
        match self {
            Event::Answer(a) => EventView::Answer(
                match a {
                    Some(s) => Some(s@),
                    None => None,
                },
            ),
            Event::Measured(s) => EventView::Measured(*s),
            Event::Cleaned(r) => EventView::Cleaned(*r),
        }
    }
}

/// The mathematical model of a session.
#[verifier::ext_equal]
pub struct SessionView {
    /// Per target: the process lacks the rights to clean it.
    pub blocked: Seq<bool>,
    /// Some high-risk target holds data.
    pub high_risk: bool,
    /// The targets whose explanation is shown: those with an explanation
    /// that hold data.
    pub explained: Seq<usize>,
    /// The targets skipped for lack of rights.
    pub skipped: Seq<usize>,
    pub phase: Phase,
    /// The bytes freed so far.
    pub freed: nat,
    /// The user confirmed the cleanup, with `DELETE` where it was high-risk.
    pub confirmed: bool,
    /// Each measurement taken, with its target, in order.
    pub measured: Seq<(usize, u64)>,
    /// Each cleaning done, with its target and result, in order.
    pub results: Seq<(usize, Option<u64>)>,
}

/// The indices below `k` that satisfy `p`, in increasing order.
pub open spec fn indices_where(p: spec_fn(int) -> bool, k: int) -> Seq<usize>
    decreases k,
{
    if k <= 0 {
        Seq::empty()
    } else {
        indices_where(p, k - 1) + if p(k - 1) {
            seq![(k - 1) as usize]
        } else {
            Seq::empty()
        }
    }
}

/// The targets below `k` that the process has the rights to clean.
pub open spec fn eligible_below(blocked: Seq<bool>, k: int) -> Seq<usize> {
    indices_where(|j: int| !blocked[j], k)
}

/// The first target from `k` on that the process may clean, or the number
/// of targets where there is none.
pub open spec fn next_eligible(blocked: Seq<bool>, k: int) -> int
    decreases blocked.len() - k,
{
    if k >= blocked.len() {
        blocked.len() as int
    } else if !blocked[k] {
        k
    } else {
        next_eligible(blocked, k + 1)
    }
}

/// The targets of a measurement log, in order.
pub open spec fn measured_targets(m: Seq<(usize, u64)>) -> Seq<usize> {
    m.map_values(|p: (usize, u64)| p.0)
}

/// The targets of a cleaning log, in order.
pub open spec fn cleaned_targets(r: Seq<(usize, Option<u64>)>) -> Seq<usize> {
    r.map_values(|p: (usize, Option<u64>)| p.0)
}

/// The targets measured with a non-zero size, in order.
pub open spec fn nonempty_targets(m: Seq<(usize, u64)>) -> Seq<usize>
    decreases m.len(),
{
    if m.len() == 0 {
        Seq::empty()
    } else {
        nonempty_targets(m.drop_last()) + if m.last().1 > 0 {
            seq![m.last().0]
        } else {
            Seq::empty()
        }
    }
}

/// The bytes freed by a result.
pub open spec fn freed_by(r: Option<u64>) -> nat {
    match r {
        Some(f) => f as nat,
        None => 0,
    }
}

/// The bytes freed by all the cleanings of a log.
pub open spec fn freed_total(r: Seq<(usize, Option<u64>)>) -> nat
    decreases r.len(),
{
    if r.len() == 0 {
        0
    } else {
        freed_total(r.drop_last()) + freed_by(r.last().1)
    }
}

/// The session moved on to the first eligible target from `k` on, or ended
/// as completed where none is left.
pub open spec fn advance(v: SessionView, k: int) -> SessionView {
    let j = next_eligible(v.blocked, k);
    if j < v.blocked.len() {
        SessionView { phase: Phase::Measuring(j as usize), ..v }
    } else {
        SessionView { phase: Phase::Done(Outcome::Completed { freed: v.freed as u64 }), ..v }
    }
}

/// The session ended with `o`.
pub open spec fn ended(v: SessionView, o: Outcome) -> SessionView {
    SessionView { phase: Phase::Done(o), ..v }
}

/// The session after `e`. An event that does not answer the pending action
/// changes nothing.
pub open spec fn next(v: SessionView, e: EventView) -> SessionView {
    match (v.phase, e) {
        (Phase::Confirming, EventView::Answer(None)) => ended(v, Outcome::ReadFailed),
        (Phase::Confirming, EventView::Answer(Some(s))) => {
            if !accepts_yes(s) {
                ended(v, Outcome::Aborted)
            } else if v.high_risk {
                SessionView { phase: Phase::ConfirmingHighRisk, ..v }
            } else {
                advance(SessionView { confirmed: true, ..v }, 0)
            }
        },
        (Phase::ConfirmingHighRisk, EventView::Answer(a)) => {
            if a matches Some(s) && accepts_delete(s) {
                advance(SessionView { confirmed: true, ..v }, 0)
            } else {
                ended(v, Outcome::HighRiskAborted)
            }
        },
        (Phase::Measuring(i), EventView::Measured(size)) => {
            let w = SessionView { measured: v.measured.push((i, size)), ..v };
            if size == 0 {
                advance(w, i + 1)
            } else {
                SessionView { phase: Phase::Cleaning(i), ..w }
            }
        },
        (Phase::Cleaning(i), EventView::Cleaned(r)) => {
            let w = SessionView {
                results: v.results.push((i, r)),
                freed: v.freed + freed_by(r),
                ..v
            };
            advance(w, i + 1)
        },
        _ => v,
    }
}

/// The action that a session in phase `p` waits on.
pub open spec fn pending(p: Phase) -> Action {
    match p {
        Phase::Confirming => Action::Confirm,
        Phase::ConfirmingHighRisk => Action::ConfirmHighRisk,
        Phase::Measuring(i) => Action::Measure(i),
        Phase::Cleaning(i) => Action::Clean(i),
        Phase::Done(o) => Action::Finished(o),
    }
}

/// `e` frees bytes beyond what 64 bits can count.
pub open spec fn overflows(v: SessionView, e: EventView) -> bool {
    &&& v.phase is Cleaning
    &&& e matches EventView::Cleaned(Some(f))
    &&& v.freed + f > u64::MAX
}

/// The invariant of a session.
pub open spec fn session_wf(v: SessionView) -> bool {
    let n = v.blocked.len();
    &&& n <= usize::MAX
    &&& v.skipped == indices_where(|j: int| v.blocked[j], n as int)
    &&& v.freed == freed_total(v.results)
    &&& v.freed <= u64::MAX
    &&& (v.phase is ConfirmingHighRisk ==> v.high_risk)
    &&& match v.phase {
        Phase::Confirming | Phase::ConfirmingHighRisk => {
            &&& v.measured.len() == 0
            &&& v.results.len() == 0
            &&& !v.confirmed
        },
        Phase::Measuring(i) => {
            &&& i < n
            &&& !v.blocked[i as int]
            &&& v.confirmed
            &&& measured_targets(v.measured) == eligible_below(v.blocked, i as int)
            &&& cleaned_targets(v.results) == nonempty_targets(v.measured)
        },
        Phase::Cleaning(i) => {
            &&& i < n
            &&& !v.blocked[i as int]
            &&& v.confirmed
            &&& v.measured.len() > 0
            &&& v.measured.last().0 == i
            &&& v.measured.last().1 > 0
            &&& measured_targets(v.measured) == eligible_below(v.blocked, i + 1)
            &&& cleaned_targets(v.results) == nonempty_targets(v.measured.drop_last())
        },
        Phase::Done(Outcome::Completed { freed }) => {
            &&& v.confirmed
            &&& freed == v.freed
            &&& measured_targets(v.measured) == eligible_below(v.blocked, n as int)
            &&& cleaned_targets(v.results) == nonempty_targets(v.measured)
        },
        Phase::Done(_) => {
            &&& v.measured.len() == 0
            &&& v.results.len() == 0
        },
    }
}

/// The state of a session.
struct SessionState {
    blocked: Vec<bool>,
    high_risk: bool,
    explained: Vec<usize>,
    skipped: Vec<usize>,
    phase: Phase,
    freed: u64,
    confirmed: Ghost<bool>,
    measured: Ghost<Seq<(usize, u64)>>,
    results: Ghost<Seq<(usize, Option<u64>)>>,
}

impl View for SessionState {
    type V = SessionView;

    closed spec fn view(&self) -> SessionView {
        SessionView {
            blocked: self.blocked@,
            high_risk: self.high_risk,
            explained: self.explained@,
            skipped: self.skipped@,
            phase: self.phase,
            freed: self.freed as nat,
            confirmed: self.confirmed@,
            measured: self.measured@,
            results: self.results@,
        }
    }
}

/// A target that shows its explanation: it has one and holds data.
pub open spec fn shows_explanation(t: CleanTarget, size: u64) -> bool {
    t.explanation@.len() > 0 && size > 0
}

/// A high-risk target that holds data.
pub open spec fn risky(t: CleanTarget, size: u64) -> bool {
    t.risk_level == RiskLevel::High && size > 0
}

impl SessionState {
    /// Starts the session of cleaning `targets`, whose sizes are `sizes`,
    /// for a process that runs as root or not. Where the targets hold
    /// nothing the session is over at once; otherwise it asks to confirm.
    fn start(targets: &Vec<CleanTarget>, sizes: &Vec<u64>, is_root: bool) -> (r: (
        SessionState,
        Action,
    ))
        requires
            sizes@.len() == targets@.len(),
            total(sizes@) <= u64::MAX,
        ensures
            session_wf(r.0@),
            r.1 == pending(r.0@.phase),
            r.0@.blocked == Seq::new(
                targets@.len(),
                |i: int| lacks_rights(targets@[i].requires_sudo, is_root),
            ),
            r.0@.high_risk == exists|i: int|
                0 <= i < targets@.len() && #[trigger] risky(targets@[i], sizes@[i]),
            r.0@.explained == indices_where(
                |i: int| shows_explanation(targets@[i], sizes@[i]),
                targets@.len() as int,
            ),
            r.0@.skipped == indices_where(|i: int| r.0@.blocked[i], targets@.len() as int),
            r.0@.phase == if total(sizes@) == 0 {
                Phase::Done(Outcome::NothingToClean)
            } else {
                Phase::Confirming
            },
            r.0@.freed == 0,
            !r.0@.confirmed,
            r.0@.measured.len() == 0,
            r.0@.results.len() == 0,
    {
        let n = targets.len();
        let mut blocked: Vec<bool> = Vec::new();
        let mut explained: Vec<usize> = Vec::new();
        let mut skipped: Vec<usize> = Vec::new();
        let mut high_risk = false;
        let mut any_data = false;
        let ghost ts = targets@;
        let ghost ss = sizes@;
        let mut i: usize = 0;
        while i < n
            invariant
                n == ts.len(),
                ts == targets@,
                ss == sizes@,
                ss.len() == n,
                i <= n,
                blocked@.len() == i,
                forall|j: int| 0 <= j < i ==> #[trigger] blocked@[j] == lacks_rights(ts[j].requires_sudo, is_root),
                explained@ == indices_where(|j: int| shows_explanation(ts[j], ss[j]), i as int),
                skipped@ == indices_where(|j: int| lacks_rights(ts[j].requires_sudo, is_root), i as int),
                high_risk == exists|j: int| 0 <= j < i && #[trigger] risky(ts[j], ss[j]),
                any_data == exists|j: int| 0 <= j < i && #[trigger] ss[j] > 0,
            decreases n - i,
        {
            let t = &targets[i];
            let size = sizes[i];
            let lacks = t.requires_sudo && !is_root;
            blocked.push(lacks);
            if lacks {
                skipped.push(i);
            }
            if !t.explanation.as_str().is_empty() && size > 0 {
                explained.push(i);
            }
            if t.risk_level == RiskLevel::High && size > 0 {
                high_risk = true;
            }
            if size > 0 {
                any_data = true;
            }
            assert(risky(ts[i as int], ss[i as int]) == (t.risk_level == RiskLevel::High && size > 0));
            assert((ss[i as int] > 0) == (size > 0));
            i = i + 1;
        }
        proof {
            assert(blocked@ =~= Seq::new(
                targets@.len(),
                |i: int| lacks_rights(targets@[i].requires_sudo, is_root),
            ));
            lemma_indices_where_same(
                |j: int| lacks_rights(ts[j].requires_sudo, is_root),
                |j: int| blocked@[j],
                n as int,
            );
            lemma_total_zero(ss);
        }
        let phase = if any_data {
            Phase::Confirming
        } else {
            Phase::Done(Outcome::NothingToClean)
        };
        let s = SessionState {
            blocked,
            high_risk,
            explained,
            skipped,
            phase,
            freed: 0,
            confirmed: Ghost(false),
            measured: Ghost(Seq::empty()),
            results: Ghost(Seq::empty()),
        };
        let a = s.action();
        (s, a)
    }

    /// A session over before it began, holding no targets.
    fn over() -> (s: SessionState)
        ensures
            session_wf(s@),
    {
        let s = SessionState {
            blocked: Vec::new(),
            high_risk: false,
            explained: Vec::new(),
            skipped: Vec::new(),
            phase: Phase::Done(Outcome::NothingToClean),
            freed: 0,
            confirmed: Ghost(false),
            measured: Ghost(Seq::empty()),
            results: Ghost(Seq::empty()),
        };
        assert(s@.skipped =~= indices_where(|j: int| s@.blocked[j], 0));
        s
    }

    /// The action the session waits on.
    fn action(&self) -> (a: Action)
        ensures
            a == pending(self@.phase),
    {
        match self.phase {
            Phase::Confirming => Action::Confirm,
            Phase::ConfirmingHighRisk => Action::ConfirmHighRisk,
            Phase::Measuring(i) => Action::Measure(i),
            Phase::Cleaning(i) => Action::Clean(i),
            Phase::Done(o) => Action::Finished(o),
        }
    }

    /// Moves on to the first eligible target from `k` on.
    fn advance_from(&mut self, k: usize)
        requires
            k <= old(self)@.blocked.len(),
        ensures
            final(self)@ == advance(old(self)@, k as int),
    {
        let n = self.blocked.len();
        let mut j = k;
        while j < n && self.blocked[j]
            invariant
                k <= j <= n,
                n == self.blocked@.len(),
                next_eligible(self.blocked@, j as int) == next_eligible(self.blocked@, k as int),
            decreases n - j,
        {
            j = j + 1;
        }
        if j < n {
            self.phase = Phase::Measuring(j);
        } else {
            self.phase = Phase::Done(Outcome::Completed { freed: self.freed });
        }
    }

    /// Takes in what happened when the pending action was performed and
    /// returns the next action. An event that does not answer the pending
    /// action changes nothing.
    fn step(&mut self, event: Event) -> (a: Action)
        requires
            session_wf(old(self)@),
            !overflows(old(self)@, event@),
        ensures
            final(self)@ == next(old(self)@, event@),
            session_wf(final(self)@),
            a == pending(final(self)@.phase),
    {
        let ghost v = self@;
        let ghost e = event@;
        let n = self.blocked.len();
        match self.phase {
            Phase::Confirming => match event {
                Event::Answer(None) => {
                    self.phase = Phase::Done(Outcome::ReadFailed);
                },
                Event::Answer(Some(s)) => {
                    if !is_yes(s.as_str()) {
                        self.phase = Phase::Done(Outcome::Aborted);
                    } else if self.high_risk {
                        self.phase = Phase::ConfirmingHighRisk;
                    } else {
                        self.confirmed = Ghost(true);
                        self.advance_from(0);
                    }
                },
                _ => {},
            },
            Phase::ConfirmingHighRisk => match event {
                Event::Answer(a) => {
                    let ok = match &a {
                        Some(s) => is_delete_confirmation(s.as_str()),
                        None => false,
                    };
                    if ok {
                        self.confirmed = Ghost(true);
                        self.advance_from(0);
                    } else {
                        self.phase = Phase::Done(Outcome::HighRiskAborted);
                    }
                },
                _ => {},
            },
            Phase::Measuring(i) => match event {
                Event::Measured(size) => {
                    assert(i < n);
                    self.measured = Ghost(self.measured@.push((i, size)));
                    if size == 0 {
                        self.advance_from(i + 1);
                    } else {
                        self.phase = Phase::Cleaning(i);
                    }
                },
                _ => {},
            },
            Phase::Cleaning(i) => match event {
                Event::Cleaned(r) => {
                    assert(i < n);
                    self.results = Ghost(self.results@.push((i, r)));
                    if let Some(f) = r {
                        self.freed = self.freed + f;
                    }
                    self.advance_from(i + 1);
                },
                _ => {},
            },
            Phase::Done(_) => {},
        }
        proof {
            lemma_next_wf(v, e);
        }
        self.action()
    }

    /// The bytes freed so far.
    fn freed(&self) -> (f: u64)
        ensures
            f == self@.freed,
    {
        self.freed
    }

    /// Whether some high-risk target holds data.
    fn has_high_risk(&self) -> (b: bool)
        ensures
            b == self@.high_risk,
    {
        self.high_risk
    }

    /// The targets whose explanation is shown, in order.
    fn explained(&self) -> (e: &Vec<usize>)
        ensures
            e@ == self@.explained,
    {
        &self.explained
    }

    /// The targets skipped for lack of rights, in order.
    fn skipped(&self) -> (s: &Vec<usize>)
        ensures
            s@ == self@.skipped,
    {
        &self.skipped
    }
}


/// The session of a cleanup, from confirmation to the last cleaned target.
pub struct CleanSession {
    state: SessionState,
}

impl View for CleanSession {
    type V = SessionView;

    closed spec fn view(&self) -> SessionView {
        self.state@
    }
}

impl CleanSession {
    /// A session is always well formed.
    #[verifier::type_invariant]
    spec fn well_formed(self) -> bool {
        session_wf(self.state@)
    }

    /// Starts the session of cleaning `targets`, whose sizes are `sizes`,
    /// for a process that runs as root or not. Where the targets hold
    /// nothing the session is over at once; otherwise it asks to confirm.
    pub fn start(targets: &Vec<CleanTarget>, sizes: &Vec<u64>, is_root: bool) -> (r: (
        CleanSession,
        Action,
    ))
        requires
            sizes@.len() == targets@.len(),
            total(sizes@) <= u64::MAX,
        ensures
            session_wf(r.0@),
            r.1 == pending(r.0@.phase),
            r.0@.blocked == Seq::new(
                targets@.len(),
                |i: int| lacks_rights(targets@[i].requires_sudo, is_root),
            ),
            r.0@.high_risk == exists|i: int|
                0 <= i < targets@.len() && #[trigger] risky(targets@[i], sizes@[i]),
            r.0@.explained == indices_where(
                |i: int| shows_explanation(targets@[i], sizes@[i]),
                targets@.len() as int,
            ),
            r.0@.skipped == indices_where(|i: int| r.0@.blocked[i], targets@.len() as int),
            r.0@.phase == if total(sizes@) == 0 {
                Phase::Done(Outcome::NothingToClean)
            } else {
                Phase::Confirming
            },
            r.0@.freed == 0,
            !r.0@.confirmed,
            r.0@.measured.len() == 0,
            r.0@.results.len() == 0,
            is_root ==> r.0@.skipped.len() == 0,
            is_root ==> forall|i: int| 0 <= i < targets@.len() ==> !#[trigger] r.0@.blocked[i],
            forall|i: int|
                0 <= i < targets@.len() && #[trigger] r.0@.blocked[i] ==> targets@[i].requires_sudo,
    {
        let (state, a) = SessionState::start(targets, sizes, is_root);
        proof {
            law_only_missing_rights_block(targets@, is_root);
            if is_root {
                assert forall|i: int| 0 <= i < targets@.len() implies !state@.blocked[i] by {
                    assert(!lacks_rights(targets@[i].requires_sudo, is_root));
                }
                lemma_indices_where_none(|i: int| state@.blocked[i], targets@.len() as int);
            }
        }
        (CleanSession { state }, a)
    }

    /// Takes in what happened when the pending action was performed and
    /// returns the next action. An event that does not answer the pending
    /// action changes nothing.
    pub fn step(&mut self, event: Event) -> (a: Action)
        requires
            !overflows(old(self)@, event@),
        ensures
            final(self)@ == next(old(self)@, event@),
            session_wf(final(self)@),
            a == pending(final(self)@.phase),
    {
        proof {
            use_type_invariant(&*self);
        }
        let mut state = SessionState::over();
        std::mem::swap(&mut self.state, &mut state);
        let a = state.step(event);
        self.state = state;
        a
    }

    /// The action the session waits on.
    pub fn action(&self) -> (a: Action)
        ensures
            a == pending(self@.phase),
    {
        self.state.action()
    }

    /// The bytes freed so far.
    pub fn freed(&self) -> (f: u64)
        ensures
            f == self@.freed,
    {
        self.state.freed()
    }

    /// Whether some high-risk target holds data.
    pub fn has_high_risk(&self) -> (b: bool)
        ensures
            b == self@.high_risk,
    {
        self.state.has_high_risk()
    }

    /// The targets whose explanation is shown, in order.
    pub fn explained(&self) -> (e: &Vec<usize>)
        ensures
            e@ == self@.explained,
    {
        self.state.explained()
    }

    /// The targets skipped for lack of rights, in order.
    pub fn skipped(&self) -> (s: &Vec<usize>)
        ensures
            s@ == self@.skipped,
    {
        self.state.skipped()
    }
}

/// The first eligible target from `k` on lies between `k` and the number of
/// targets, is eligible, and no target before it from `k` on is.
pub proof fn lemma_next_eligible(blocked: Seq<bool>, k: int)
    requires
        0 <= k <= blocked.len(),
    ensures
        k <= next_eligible(blocked, k) <= blocked.len(),
        next_eligible(blocked, k) < blocked.len() ==> !blocked[next_eligible(blocked, k)],
        eligible_below(blocked, next_eligible(blocked, k)) == eligible_below(blocked, k),
    decreases blocked.len() - k,
{
    if k < blocked.len() && blocked[k] {
        lemma_next_eligible(blocked, k + 1);
        assert(eligible_below(blocked, k + 1) =~= eligible_below(blocked, k));
    }
}

/// Moving on keeps the invariant where the measurements so far cover the
/// eligible targets below `k`.
proof fn lemma_advance_wf(v: SessionView, k: int)
    requires
        0 <= k <= v.blocked.len(),
        v.blocked.len() <= usize::MAX,
        v.skipped == indices_where(|j: int| v.blocked[j], v.blocked.len() as int),
        v.freed == freed_total(v.results),
        v.freed <= u64::MAX,
        v.confirmed,
        measured_targets(v.measured) == eligible_below(v.blocked, k),
        cleaned_targets(v.results) == nonempty_targets(v.measured),
    ensures
        session_wf(advance(v, k)),
{
    lemma_next_eligible(v.blocked, k);
    let j = next_eligible(v.blocked, k);
    let w = advance(v, k);
    if j < v.blocked.len() {
        assert(w.phase == Phase::Measuring(j as usize));
        assert(session_wf(w));
    } else {
        assert(w.phase == Phase::Done(Outcome::Completed { freed: v.freed as u64 }));
        assert(j == v.blocked.len());
        assert(session_wf(w));
    }
}

/// Every step keeps the invariant of a session.
pub proof fn lemma_next_wf(v: SessionView, e: EventView)
    requires
        session_wf(v),
        !overflows(v, e),
    ensures
        session_wf(next(v, e)),
{
    let n = v.blocked.len();
    match (v.phase, e) {
        (Phase::Confirming, EventView::Answer(Some(s))) => {
            if accepts_yes(s) && !v.high_risk {
                assert(measured_targets(v.measured) =~= eligible_below(v.blocked, 0));
                assert(cleaned_targets(v.results) =~= nonempty_targets(v.measured));
                lemma_advance_wf(SessionView { confirmed: true, ..v }, 0);
            }
        },
        (Phase::ConfirmingHighRisk, EventView::Answer(a)) => {
            if a matches Some(s) && accepts_delete(s) {
                assert(measured_targets(v.measured) =~= eligible_below(v.blocked, 0));
                assert(cleaned_targets(v.results) =~= nonempty_targets(v.measured));
                lemma_advance_wf(SessionView { confirmed: true, ..v }, 0);
            }
        },
        (Phase::Measuring(i), EventView::Measured(size)) => {
            let m = v.measured.push((i, size));
            let w = SessionView { measured: m, ..v };
            assert(m.drop_last() =~= v.measured);
            assert(measured_targets(m) =~= measured_targets(v.measured).push(i));
            assert(eligible_below(v.blocked, i + 1) =~= eligible_below(v.blocked, i as int).push(i));
            if size == 0 {
                assert(nonempty_targets(m) =~= nonempty_targets(v.measured));
                lemma_advance_wf(w, i + 1);
            }
        },
        (Phase::Cleaning(i), EventView::Cleaned(r)) => {
            let rs = v.results.push((i, r));
            let w = SessionView { results: rs, freed: v.freed + freed_by(r), ..v };
            assert(rs.drop_last() =~= v.results);
            assert(cleaned_targets(rs) =~= cleaned_targets(v.results).push(i));
            assert(v.measured =~= v.measured.drop_last().push(v.measured.last()));
            assert(nonempty_targets(v.measured) =~= nonempty_targets(v.measured.drop_last()).push(i));
            lemma_advance_wf(w, i + 1);
        },
        _ => {},
    }
}

/// `e` answers the action that a session in phase `p` waits on.
pub open spec fn answers(p: Phase, e: EventView) -> bool {
    match (p, e) {
        (Phase::Confirming, EventView::Answer(_)) => true,
        (Phase::ConfirmingHighRisk, EventView::Answer(_)) => true,
        (Phase::Measuring(_), EventView::Measured(_)) => true,
        (Phase::Cleaning(_), EventView::Cleaned(_)) => true,
        _ => false,
    }
}

/// How far a session is from its end: it decreases with every answered
/// action and is zero once the session is over.
pub open spec fn remaining(v: SessionView) -> nat {
    let n = v.blocked.len();
    match v.phase {
        Phase::Confirming => 2 * n + 3,
        Phase::ConfirmingHighRisk => 2 * n + 2,
        Phase::Measuring(i) => (2 * (n - i) + 1) as nat,
        Phase::Cleaning(i) => (2 * (n - i)) as nat,
        Phase::Done(_) => 0,
    }
}

/// A target is cleaned only with the user's consent, only when the process
/// has the rights to clean it, and only right after it was measured as
/// holding data: a session that waits on the cleaning of target `i` was
/// confirmed, `i` is not blocked, and the last measurement was of `i` and
/// non-zero; the step that enters it answers that measurement.
pub proof fn law_clean_needs_consent_rights_and_data(v: SessionView, e: EventView)
    requires
        session_wf(v),
        !overflows(v, e),
    ensures
        next(v, e).phase matches Phase::Cleaning(i) ==> {
            &&& next(v, e).confirmed
            &&& !v.blocked[i as int]
            &&& next(v, e).measured.last().0 == i
            &&& next(v, e).measured.last().1 > 0
        },
        next(v, e).phase != v.phase ==> (next(v, e).phase matches Phase::Cleaning(i) ==> {
            &&& v.phase == Phase::Measuring(i)
            &&& e matches EventView::Measured(size) && size > 0
        }),
{
    lemma_next_wf(v, e);
    lemma_next_eligible(v.blocked, 0);
    if v.phase is Cleaning {
        let i = v.phase->Cleaning_0;
        lemma_next_eligible(v.blocked, i + 1);
    }
    if v.phase is Measuring {
        let i = v.phase->Measuring_0;
        lemma_next_eligible(v.blocked, i + 1);
    }
}

/// Consent is given only by the answers that accept: `y` (or `Y`) where no
/// high-risk target holds data, and `DELETE` typed after such a `y` where
/// one does. A session asks for `DELETE` only after an accepted `y` and only
/// where a high-risk target holds data.
pub proof fn law_consent_is_explicit(v: SessionView, e: EventView)
    requires
        session_wf(v),
    ensures
        !v.confirmed && next(v, e).confirmed ==> (e matches EventView::Answer(Some(s)) && {
            ||| v.phase == Phase::Confirming && accepts_yes(s) && !v.high_risk
            ||| v.phase == Phase::ConfirmingHighRisk && accepts_delete(s)
        }),
        next(v, e).phase == Phase::ConfirmingHighRisk && v.phase != Phase::ConfirmingHighRisk
            ==> (e matches EventView::Answer(Some(s)) && v.phase == Phase::Confirming
            && accepts_yes(s) && v.high_risk),
{
}

/// A completed session reports exactly the bytes freed by its cleanings; it
/// measured every target it had the rights to clean, once each and in
/// order, and cleaned exactly those it measured as holding data, in order.
pub proof fn law_completed_session(v: SessionView)
    requires
        session_wf(v),
        v.phase is Done,
        v.phase->Done_0 is Completed,
    ensures
        v.phase->Done_0->freed == freed_total(v.results),
        v.confirmed,
        measured_targets(v.measured) == eligible_below(v.blocked, v.blocked.len() as int),
        cleaned_targets(v.results) == nonempty_targets(v.measured),
{
}

/// A session always moves forward: an event that answers the pending action
/// brings it strictly closer to its end, any other event changes nothing,
/// and an ended session stays ended.
pub proof fn law_progress(v: SessionView, e: EventView)
    requires
        session_wf(v),
        !overflows(v, e),
    ensures
        answers(v.phase, e) ==> remaining(next(v, e)) < remaining(v),
        !answers(v.phase, e) ==> next(v, e) == v,
        v.phase is Done ==> next(v, e) == v,
{
    lemma_next_eligible(v.blocked, 0);
    if v.phase is Cleaning {
        let i = v.phase->Cleaning_0;
        lemma_next_eligible(v.blocked, i + 1);
    }
    if v.phase is Measuring {
        let i = v.phase->Measuring_0;
        lemma_next_eligible(v.blocked, i + 1);
    }
}

/// A predicate that holds nowhere below `k` selects no index.
proof fn lemma_indices_where_none(p: spec_fn(int) -> bool, k: int)
    requires
        forall|j: int| 0 <= j < k ==> !#[trigger] p(j),
    ensures
        indices_where(p, k).len() == 0,
    decreases k,
{
    if k > 0 {
        lemma_indices_where_none(p, k - 1);
    }
}

/// Only the rights a process lacks block a target: a process that runs as
/// root is blocked from no target and skips none, and a target that does not
/// need administrator rights is never blocked; a normal user is blocked from
/// exactly the targets that need them.
pub proof fn law_only_missing_rights_block(targets: Seq<CleanTarget>, is_root: bool)
    ensures
        is_root ==> forall|i: int|
            0 <= i < targets.len() ==> !#[trigger] lacks_rights(targets[i].requires_sudo, is_root),
        is_root ==> indices_where(
            |i: int| lacks_rights(targets[i].requires_sudo, is_root),
            targets.len() as int,
        ).len() == 0,
        forall|i: int|
            0 <= i < targets.len() && !targets[i].requires_sudo ==> !#[trigger] lacks_rights(
                targets[i].requires_sudo,
                is_root,
            ),
        !is_root ==> forall|i: int|
            0 <= i < targets.len() && targets[i].requires_sudo ==> #[trigger] lacks_rights(
                targets[i].requires_sudo,
                is_root,
            ),
{
    if is_root {
        lemma_indices_where_none(
            |i: int| lacks_rights(targets[i].requires_sudo, is_root),
            targets.len() as int,
        );
    }
}

/// Two predicates that agree below `k` select the same indices.
pub proof fn lemma_indices_where_same(p: spec_fn(int) -> bool, q: spec_fn(int) -> bool, k: int)
    requires
        forall|j: int| 0 <= j < k ==> #[trigger] p(j) == q(j),
    ensures
        indices_where(p, k) == indices_where(q, k),
    decreases k,
{
    if k > 0 {
        lemma_indices_where_same(p, q, k - 1);
    }
}

/// Sizes sum to zero exactly when each of them is zero.
pub proof fn lemma_total_zero(s: Seq<u64>)
    ensures
        (total(s) == 0) == (forall|j: int| 0 <= j < s.len() ==> s[j] == 0),
{
    lemma_sum_upto_zero(s, s.len() as int);
}

proof fn lemma_sum_upto_zero(s: Seq<u64>, k: int)
    requires
        0 <= k <= s.len(),
    ensures
        (crate::sizes::sum_upto(s, k) == 0) == (forall|j: int| 0 <= j < k ==> s[j] == 0),
    decreases k,
{
    if k > 0 {
        lemma_sum_upto_zero(s, k - 1);
    }
}

} // verus!
