//! The deletion engine: one run over an ordered list of targets.
//!
//! The engine never touches the filesystem itself. For each target the caller
//! queries its size and hands the result to [`Engine::examine`]; when the engine
//! answers [`Action::Remove`], the caller attempts the removal and hands that
//! result to [`Engine::conclude`]. Every answer also carries the event, if any,
//! that the caller should emit.
//!
//! What a run amounts to is the fold [`tally`] of the fates of the targets seen
//! so far; an engine's counters always equal that fold (see [`Engine::wf`]).

use vstd::prelude::*;
use crate::grouping::{grouped, thousand_separated};

verus! {

/// The policy flags of a run, fixed before it starts.
#[derive(Clone, Copy, Debug, PartialEq, Eq, Structural)]
pub struct Config {
    /// Simulate: count every readable target as removed, remove nothing.
    pub dry_run: bool,
    /// Halt on the first failure instead of skipping the target.
    pub stop_on_error: bool,
    /// Emit a detail event for every readable target.
    pub show_detail: bool,
    /// Emit a summary event when the run completes.
    pub print_summary: bool,
}

/// Why a target could not be processed.
#[derive(Clone, Copy, Debug, PartialEq, Eq, Structural)]
pub enum TargetError {
    TargetNotFound,
    TargetAccessDenied,
    /// The size query failed for another reason.
    StatFailed,
    /// The removal failed for another reason.
    RemoveFailed,
}

/// The counters of a run.
#[derive(Clone, Copy, Debug, PartialEq, Eq, Structural)]
pub struct RunReport {
    pub total_examined: u64,
    pub removed: u64,
    pub skipped: u64,
    pub bytes_freed: u64,
}

/// What became of one target, as far as the counters are concerned.
#[derive(Clone, Copy, Debug, PartialEq, Eq, Structural)]
pub enum Fate {
    /// Its size could not be determined.
    Unreadable(TargetError),
    /// It was removed (or, in a dry run, would have been); it had this size.
    Gone(u64),
    /// It had this size, and its removal failed.
    Stuck(u64, TargetError),
}

/// The mathematical state of a run.
pub struct Tally {
    pub examined: nat,
    pub removed: nat,
    pub skipped: nat,
    pub bytes: nat,
    /// The 1-based position of the target that halted the run, and its error.
    pub halt: Option<(nat, TargetError)>,
}

pub open spec fn empty_tally() -> Tally {
    Tally { examined: 0, removed: 0, skipped: 0, bytes: 0, halt: None }
}

/// The state after one more target, of the given fate, is processed.
/// A halted run takes no more targets.
pub open spec fn absorb(c: Config, t: Tally, f: Fate) -> Tally {
    if t.halt is Some {
        t
    } else {
        match f {
            Fate::Gone(size) => Tally {
                examined: t.examined + 1,
                removed: t.removed + 1,
                bytes: t.bytes + size as nat,
                ..t
            },
            Fate::Unreadable(e) | Fate::Stuck(_, e) => if c.stop_on_error {
                Tally { examined: t.examined + 1, halt: Some((t.examined + 1, e)), ..t }
            } else {
                Tally { examined: t.examined + 1, skipped: t.skipped + 1, ..t }
            },
        }
    }
}

/// The state of a run whose targets so far had the given fates, in order.
pub open spec fn tally(c: Config, fates: Seq<Fate>) -> Tally
    decreases fates.len(),
{
    if fates.len() == 0 {
        empty_tally()
    } else {
        absorb(c, tally(c, fates.drop_last()), fates.last())
    }
}

/// Whether a report holds the counters of a tally.
pub open spec fn reports(r: RunReport, t: Tally) -> bool {
    &&& r.total_examined as nat == t.examined
    &&& r.removed as nat == t.removed
    &&& r.skipped as nat == t.skipped
    &&& r.bytes_freed as nat == t.bytes
}

/// How one target of the given fate moves the counters of a run that had not
/// halted.
pub open spec fn advanced(c: Config, before: RunReport, after: RunReport, f: Fate) -> bool {
    &&& after.total_examined == before.total_examined + 1
    &&& match f {
        Fate::Gone(size) => {
            &&& after.removed == before.removed + 1
            &&& after.skipped == before.skipped
            &&& after.bytes_freed == before.bytes_freed + size
        },
        _ => {
            &&& after.removed == before.removed
            &&& after.skipped == before.skipped + if c.stop_on_error { 0int } else { 1int }
            &&& after.bytes_freed == before.bytes_freed
        },
    }
}

/// Why a run stopped early.
#[derive(Clone, Debug, PartialEq, Eq)]
pub struct Halt {
    /// 1-based position of the failing target.
    pub position: u64,
    pub path: String,
    pub error: TargetError,
}

/// How a run ended.
#[derive(Clone, Debug, PartialEq, Eq)]
pub enum Outcome {
    /// Every target was processed, possibly with some skipped.
    Completed,
    /// A target failed under the stop-on-error policy.
    Halted(Halt),
}

/// What the caller is to emit.
#[derive(Clone, Debug, PartialEq, Eq)]
pub enum Event {
    Detail { path: String, size: u64 },
    Warning { path: String, error: TargetError },
    Summary { total_examined: u64, removed: u64, skipped: u64, bytes_freed: String },
}

/// What the caller is to do next.
#[derive(Clone, Copy, Debug, PartialEq, Eq, Structural)]
pub enum Action {
    /// Go on with the next target, if any.
    Proceed,
    /// Remove the current target and report the result to `conclude`.
    Remove,
    /// Stop: the run is halted.
    Stop,
}

/// The engine's answer to one observation.
#[derive(Clone, Debug, PartialEq, Eq)]
pub struct Step {
    pub action: Action,
    pub event: Option<Event>,
}

/// The state of one run.
pub struct Engine {
    pub config: Config,
    pub report: RunReport,
    /// The size of the current target while its removal is awaited.
    pub pending: Option<u64>,
    pub halt: Option<Halt>,
    /// The fates of the targets processed so far, in order.
    pub fates: Ghost<Seq<Fate>>,
}

/// The answer to a failure of the current target at `path`.
pub open spec fn failure_step(c: Config, path: String, e: TargetError, s: Step) -> bool {
    if c.stop_on_error {
        s.action == Action::Stop && s.event is None
    } else {
        s.action == Action::Proceed && s.event == Some(Event::Warning { path: path, error: e })
    }
}

impl Engine {
    /// The counters, the halt and the pending removal agree with the fates.
    pub open spec fn wf(&self) -> bool {
        let t = tally(self.config, self.fates@);
        &&& reports(self.report, t)
        &&& match self.halt {
            Some(h) => t.halt == Some((h.position as nat, h.error)),
            None => t.halt is None,
        }
        &&& self.pending matches Some(size) ==> {
            &&& !self.config.dry_run
            &&& self.halt is None
            &&& self.report.total_examined < u64::MAX
            &&& self.report.bytes_freed + size <= u64::MAX
        }
    }

    /// The counters so far.
    pub fn report(&self) -> (r: RunReport)
        ensures
            r == self.report,
    {
        self.report
    }

    /// How the run stands: halted, naming the failing target, or completed.
    pub fn outcome(&self) -> (o: Outcome)
        ensures
            match self.halt {
                Some(h) => o == Outcome::Halted(h),
                None => o is Completed,
            },
    {
        match &self.halt {
            Some(h) => Outcome::Halted(Halt { position: h.position, path: h.path.clone(), error: h.error }),
            None => Outcome::Completed,
        }
    }

    /// The summary event of a completed run, when summaries are on; the byte
    /// total is rendered with thousands separators.
    pub fn summary(&self) -> (e: Option<Event>)
        ensures
            (self.config.print_summary && self.halt is None) ==> (e matches Some(
                Event::Summary { total_examined, removed, skipped, bytes_freed },
            ) && total_examined == self.report.total_examined && removed == self.report.removed
                && skipped == self.report.skipped && bytes_freed@ == grouped(
                self.report.bytes_freed as nat,
            )),
            !(self.config.print_summary && self.halt is None) ==> e is None,
    {
        if self.config.print_summary && self.halt.is_none() {
            Some(
                Event::Summary {
                    total_examined: self.report.total_examined,
                    removed: self.report.removed,
                    skipped: self.report.skipped,
                    bytes_freed: thousand_separated(self.report.bytes_freed),
                },
            )
        } else {
            None
        }
    }

    /// Counts a failure of the current target, which had the given fate, and
    /// answers by the error policy.
    fn record_failure(&mut self, path: &String, e: TargetError, f: Ghost<Fate>) -> (s: Step)
        requires
            old(self).wf(),
            old(self).halt is None,
            old(self).report.total_examined < u64::MAX,
            f@ == Fate::Unreadable(e) || exists|size: u64| f@ == Fate::Stuck(size, e),
        ensures
            final(self).wf(),
            final(self).config == old(self).config,
            final(self).pending is None,
            final(self).fates@ == old(self).fates@.push(f@),
            advanced(old(self).config, old(self).report, final(self).report, f@),
            failure_step(old(self).config, *path, e, s),
            (s.action == Action::Stop) == (final(self).halt is Some),
            final(self).halt matches Some(h) ==> h.path == *path,
    {
        proof {
            lemma_counts_balance(self.config, self.fates@);
            assert(self.fates@.push(f@).drop_last() =~= self.fates@);
        }
        self.fates = Ghost(self.fates@.push(f@));
        self.pending = None;
        self.report.total_examined = self.report.total_examined + 1;
        if self.config.stop_on_error {
            self.halt = Some(Halt { position: self.report.total_examined, path: path.clone(), error: e });
            Step { action: Action::Stop, event: None }
        } else {
            self.report.skipped = self.report.skipped + 1;
            Step { action: Action::Proceed, event: Some(Event::Warning { path: path.clone(), error: e }) }
        }
    }

    /// Counts the current target, of the given size, as removed.
    fn record_gone(&mut self, size: u64)
        requires
            old(self).wf(),
            old(self).halt is None,
            old(self).report.total_examined < u64::MAX,
            old(self).report.bytes_freed + size <= u64::MAX,
        ensures
            final(self).wf(),
            final(self).config == old(self).config,
            final(self).halt is None,
            final(self).pending is None,
            final(self).fates@ == old(self).fates@.push(Fate::Gone(size)),
            advanced(old(self).config, old(self).report, final(self).report, Fate::Gone(size)),
    {
        proof {
            lemma_counts_balance(self.config, self.fates@);
            assert(self.fates@.push(Fate::Gone(size)).drop_last() =~= self.fates@);
        }
        self.fates = Ghost(self.fates@.push(Fate::Gone(size)));
        self.pending = None;
        self.report.total_examined = self.report.total_examined + 1;
        self.report.removed = self.report.removed + 1;
        self.report.bytes_freed = self.report.bytes_freed + size;
    }

    /// Takes the result of the size query of the next target, at `path`.
    ///
    /// A failed query is a failure of the target under the error policy. A
    /// readable target gets a detail event when details are on; in a dry run
    /// it is counted as removed at once, otherwise the engine asks for its
    /// removal.
    pub fn examine(&mut self, path: &String, stat: Result<u64, TargetError>) -> (s: Step)
        requires
            old(self).wf(),
            old(self).pending is None,
            old(self).halt is None,
            old(self).report.total_examined < u64::MAX,
            stat matches Ok(size) ==> old(self).report.bytes_freed + size <= u64::MAX,
        ensures
            final(self).wf(),
            final(self).config == old(self).config,
            final(self).fates@.len() == old(self).fates@.len() + 1 ==> advanced(
                old(self).config,
                old(self).report,
                final(self).report,
                final(self).fates@.last(),
            ),
            (s.action == Action::Stop) == (final(self).halt is Some),
            final(self).halt matches Some(h) ==> h.path == *path,
            old(self).config.dry_run ==> {
                &&& final(self).fates@ == old(self).fates@.push(dry_fate(stat))
                &&& s.action != Action::Remove
            },
            match stat {
                Err(e) => {
                    &&& final(self).fates@ == old(self).fates@.push(Fate::Unreadable(e))
                    &&& final(self).pending is None
                    &&& failure_step(old(self).config, *path, e, s)
                },
                Ok(size) => {
                    &&& s.event == (if old(self).config.show_detail {
                        Some(Event::Detail { path: *path, size: size })
                    } else {
                        None
                    })
                    &&& if old(self).config.dry_run {
                        &&& final(self).fates@ == old(self).fates@.push(Fate::Gone(size))
                        &&& final(self).pending is None
                        &&& s.action == Action::Proceed
                    } else {
                        &&& final(self).fates@ == old(self).fates@
                        &&& final(self).report == old(self).report
                        &&& final(self).halt is None
                        &&& final(self).pending == Some(size)
                        &&& s.action == Action::Remove
                    }
                },
            },
    {
        match stat {
            Err(e) => self.record_failure(path, e, Ghost(Fate::Unreadable(e))),
            Ok(size) => {
                let event = if self.config.show_detail {
                    Some(Event::Detail { path: path.clone(), size })
                } else {
                    None
                };
                if self.config.dry_run {
                    self.record_gone(size);
                    Step { action: Action::Proceed, event }
                } else {
                    self.pending = Some(size);
                    Step { action: Action::Remove, event }
                }
            },
        }
    }

    /// Takes the result of the removal that `examine` asked for, of the
    /// target at `path`. A success counts the target as removed; a failure is
    /// a failure of the target under the error policy.
    pub fn conclude(&mut self, path: &String, removal: Result<(), TargetError>) -> (s: Step)
        requires
            old(self).wf(),
            old(self).pending is Some,
        ensures
            final(self).wf(),
            final(self).config == old(self).config,
            final(self).pending is None,
            final(self).fates@.len() == old(self).fates@.len() + 1 ==> advanced(
                old(self).config,
                old(self).report,
                final(self).report,
                final(self).fates@.last(),
            ),
            (s.action == Action::Stop) == (final(self).halt is Some),
            final(self).halt matches Some(h) ==> h.path == *path,
            match removal {
                Ok(()) => {
                    &&& final(self).fates@ == old(self).fates@.push(Fate::Gone(old(self).pending->0))
                    &&& s.action == Action::Proceed
                    &&& s.event is None
                },
                Err(e) => {
                    &&& final(self).fates@ == old(self).fates@.push(Fate::Stuck(old(self).pending->0, e))
                    &&& failure_step(old(self).config, *path, e, s)
                },
            },
    {
        let size = match self.pending {
            Some(size) => size,
            None => 0,
        };
        match removal {
            Ok(()) => {
                self.record_gone(size);
                Step { action: Action::Proceed, event: None }
            },
            Err(e) => self.record_failure(path, e, Ghost(Fate::Stuck(size, e))),
        }
    }

    /// A fresh run under `config`.
    pub fn new(config: Config) -> (e: Engine)
        ensures
            e.wf(),
            e.config == config,
            e.fates@ == Seq::<Fate>::empty(),
            e.pending is None,
            e.halt is None,
            e.report == (RunReport { total_examined: 0, removed: 0, skipped: 0, bytes_freed: 0 }),
    {
        Engine {
            config,
            report: RunReport { total_examined: 0, removed: 0, skipped: 0, bytes_freed: 0 },
            pending: None,
            halt: None,
            fates: Ghost(Seq::empty()),
        }
    }
}

/// Every target examined is counted once: as removed, as skipped, or, in a
/// halted run, as the target that halted it, which is the last one examined.
pub proof fn lemma_counts_balance(c: Config, fates: Seq<Fate>)
    ensures
        tally(c, fates).examined <= fates.len(),
        tally(c, fates).halt matches Some(h) ==> {
            &&& tally(c, fates).removed + tally(c, fates).skipped + 1 == tally(c, fates).examined
            &&& h.0 == tally(c, fates).examined
        },
        tally(c, fates).halt is None ==> tally(c, fates).removed + tally(c, fates).skipped
            == tally(c, fates).examined,
    decreases fates.len(),
{
    if fates.len() > 0 {
        lemma_counts_balance(c, fates.drop_last());
    }
}

/// The error that a failed target carries.
pub open spec fn error_of(f: Fate) -> TargetError {
    match f {
        Fate::Unreadable(e) | Fate::Stuck(_, e) => e,
        Fate::Gone(_) => TargetError::RemoveFailed,
    }
}

/// The fate of a target in a dry run, given the result of its size query.
pub open spec fn dry_fate(stat: Result<u64, TargetError>) -> Fate {
    match stat {
        Ok(size) => Fate::Gone(size),
        Err(e) => Fate::Unreadable(e),
    }
}

/// The sum of the sizes.
pub open spec fn total_size(sizes: Seq<u64>) -> nat
    decreases sizes.len(),
{
    if sizes.len() == 0 {
        0
    } else {
        total_size(sizes.drop_last()) + sizes.last() as nat
    }
}

proof fn lemma_tally_take(c: Config, fates: Seq<Fate>, j: int)
    requires
        0 <= j < fates.len(),
    ensures
        tally(c, fates.take(j + 1)) == absorb(c, tally(c, fates.take(j)), fates[j]),
{
    assert(fates.take(j + 1).drop_last() =~= fates.take(j));
}

proof fn lemma_removed_prefix(c: Config, fates: Seq<Fate>, j: int)
    requires
        0 <= j <= fates.len(),
        forall|i: int| 0 <= i < j ==> fates[i] is Gone,
    ensures
        tally(c, fates.take(j)).examined == j,
        tally(c, fates.take(j)).removed == j,
        tally(c, fates.take(j)).skipped == 0,
        tally(c, fates.take(j)).halt is None,
    decreases j,
{
    if j == 0 {
        assert(fates.take(0) =~= Seq::<Fate>::empty());
    } else {
        lemma_removed_prefix(c, fates, j - 1);
        lemma_tally_take(c, fates, j - 1);
    }
}

proof fn lemma_halted_prefix(c: Config, fates: Seq<Fate>, k: int, m: int)
    requires
        0 <= k <= m <= fates.len(),
        tally(c, fates.take(k)).halt is Some,
    ensures
        tally(c, fates.take(m)) == tally(c, fates.take(k)),
    decreases m - k,
{
    if m > k {
        lemma_halted_prefix(c, fates, k, m - 1);
        lemma_tally_take(c, fates, m - 1);
    }
}

/// Without stop-on-error every target is examined, and each is counted as
/// removed or as skipped.
pub proof fn lemma_best_effort_examines_all(c: Config, fates: Seq<Fate>)
    requires
        !c.stop_on_error,
    ensures
        tally(c, fates).examined == fates.len(),
        tally(c, fates).removed + tally(c, fates).skipped == tally(c, fates).examined,
        tally(c, fates).halt is None,
    decreases fates.len(),
{
    if fates.len() > 0 {
        lemma_best_effort_examines_all(c, fates.drop_last());
    }
}

/// A dry run over targets whose sizes are all readable counts every one of
/// them as removed and frees the sum of their sizes.
pub proof fn lemma_dry_run_removes_all(c: Config, sizes: Seq<u64>)
    requires
        c.dry_run,
    ensures
        tally(c, sizes.map_values(|size: u64| dry_fate(Ok(size)))).examined == sizes.len(),
        tally(c, sizes.map_values(|size: u64| dry_fate(Ok(size)))).removed == sizes.len(),
        tally(c, sizes.map_values(|size: u64| dry_fate(Ok(size)))).skipped == 0,
        tally(c, sizes.map_values(|size: u64| dry_fate(Ok(size)))).bytes == total_size(sizes),
        tally(c, sizes.map_values(|size: u64| dry_fate(Ok(size)))).halt is None,
    decreases sizes.len(),
{
    if sizes.len() > 0 {
        let f = |size: u64| dry_fate(Ok(size));
        assert(sizes.map_values(f).drop_last() =~= sizes.drop_last().map_values(f));
        lemma_dry_run_removes_all(c, sizes.drop_last());
    }
}

/// Under stop-on-error, when the k-th target (counting from 1) is the first
/// to fail, the run halts there naming it: exactly k targets are examined,
/// the k - 1 before it are removed, and no later target changes anything.
pub proof fn lemma_halts_at_first_failure(c: Config, fates: Seq<Fate>, k: nat)
    requires
        c.stop_on_error,
        1 <= k <= fates.len(),
        forall|i: int| 0 <= i < k - 1 ==> fates[i] is Gone,
        !(fates[k - 1] is Gone),
    ensures
        tally(c, fates) == tally(c, fates.take(k as int)),
        tally(c, fates).examined == k,
        tally(c, fates).removed == k - 1,
        tally(c, fates).skipped == 0,
        tally(c, fates).halt == Some((k, error_of(fates[k - 1]))),
{
    lemma_removed_prefix(c, fates, k - 1);
    lemma_tally_take(c, fates, k - 1);
    lemma_halted_prefix(c, fates, k as int, fates.len() as int);
    assert(fates.take(fates.len() as int) =~= fates);
}

} // verus!
