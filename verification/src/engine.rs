//! The execution engine and the orchestrator's decisions.
//!
//! The engine models one ecosystem's verification run as a small state
//! machine: hooks run strictly in catalog order, every hook's outcome is
//! recorded whether it succeeded or failed (a failure never short-circuits
//! the rest of the list), and the aggregate verdict is the logical AND of
//! all recorded outcomes. The caller performs the outside work — creating
//! log files, spawning the subprocess, timing the run — and hands the
//! engine each hook's exit status.

use crate::catalog::{catalog, views, Hook, HookSpec};
use crate::language::{name_spec, Language};
use vstd::prelude::*;
use vstd::string::*;

verus! {

/// Whether every recorded outcome is a success; vacuously true of none.
pub open spec fn all_true(s: Seq<bool>) -> bool {
    forall|i: int| 0 <= i < s.len() ==> s[i]
}

/// The aggregate of a list of hook outcomes: true iff none failed.
pub fn all_succeeded(statuses: &Vec<bool>) -> (r: bool)
    ensures
        r == all_true(statuses@),
{
    let mut i: usize = 0;
    while i < statuses.len()
        invariant
            i <= statuses@.len(),
            forall|j: int| 0 <= j < i ==> statuses@[j],
        decreases statuses@.len() - i,
    {
        if !statuses[i] {
            return false;
        }
        i += 1;
    }
    true
}

/// Exit-code classification: a hook succeeds iff its process exited with
/// status code exactly zero. A missing code (the process was killed by a
/// signal) counts as a failure, as does a spawn failure, which never
/// produces a code at all.
pub fn hook_succeeded(code: Option<i32>) -> (r: bool)
    ensures
        r == (code == Some(0i32)),
{
    match code {
        Some(c) => c == 0,
        None => false,
    }
}

/// One ecosystem's verification run: the fixed hook list and the outcomes
/// recorded so far, one per hook already run, in catalog order.
pub struct Engine {
    hooks: Vec<Hook>,
    statuses: Vec<bool>,
}

impl Engine {
    /// The hook list being run, in catalog order.
    pub closed spec fn hooks_model(self) -> Seq<HookSpec> {
        views(self.hooks@)
    }

    /// The outcomes recorded so far: the outcome of hook `i` is at index
    /// `i`, so the next hook to run is at the index of the first
    /// unrecorded outcome.
    pub closed spec fn statuses_model(self) -> Seq<bool> {
        self.statuses@
    }

    /// Never more outcomes than hooks.
    pub open spec fn wf(self) -> bool {
        self.statuses_model().len() <= self.hooks_model().len()
    }

    /// Every hook's outcome has been recorded.
    pub open spec fn complete(self) -> bool {
        self.statuses_model().len() == self.hooks_model().len()
    }

    /// The aggregate the run will report once complete: all hooks
    /// succeeded, and the elapsed seconds the caller measured.
    pub open spec fn outcome_spec(self, elapsed_seconds: u64) -> (bool, u64) {
        (all_true(self.statuses_model()), elapsed_seconds)
    }

    /// Start a run over a hook list. An empty list is complete at once:
    /// absence of hooks is vacuous success, and no log path is requested.
    pub fn new(hooks: Vec<Hook>) -> (r: Engine)
        ensures
            r.wf(),
            r.hooks_model() == views(hooks@),
            r.statuses_model() == Seq::<bool>::empty(),
    {
        Engine { hooks, statuses: Vec::new() }
    }

    /// Whether every hook's outcome has been recorded.
    pub fn is_complete(&self) -> (r: bool)
        ensures
            r == self.complete(),
    {
        proof {
            assert(views(self.hooks@).len() == self.hooks@.len());
        }
        self.statuses.len() == self.hooks.len()
    }

    /// The hook to run next. Hooks execute strictly in catalog order, one
    /// at a time: the next hook is always the one right after the last
    /// recorded outcome.
    pub fn current(&self) -> (r: &Hook)
        requires
            self.wf(),
            !self.complete(),
        ensures
            r@ == self.hooks_model()[self.statuses_model().len() as int],
    {
        proof {
            assert(views(self.hooks@).len() == self.hooks@.len());
            assert(views(self.hooks@)[self.statuses@.len() as int] == self.hooks@[self.statuses@.len() as int]@);
        }
        &self.hooks[self.statuses.len()]
    }

    /// Record the outcome of the current hook and move past it. Recording
    /// a failure is no different from recording a success: the run always
    /// continues with the remaining hooks.
    pub fn record(&mut self, succeeded: bool)
        requires
            old(self).wf(),
            !old(self).complete(),
        ensures
            final(self).wf(),
            final(self).hooks_model() == old(self).hooks_model(),
            final(self).statuses_model() == old(self).statuses_model().push(succeeded),
    {
        self.statuses.push(succeeded);
    }

    /// The aggregate outcome of a completed run: whether all hooks
    /// succeeded (vacuously true of an empty list), with the elapsed
    /// wall-clock seconds the caller measured.
    pub fn outcome(&self, elapsed_seconds: u64) -> (r: (bool, u64))
        requires
            self.complete(),
        ensures
            r == self.outcome_spec(elapsed_seconds),
    {
        (all_succeeded(&self.statuses), elapsed_seconds)
    }
}

/// The directory that holds one ecosystem's logs.
pub open spec fn ecosystem_dir_spec(l: Language) -> Seq<char> {
    "breathes/"@ + name_spec(l)
}

/// The directory that holds one ecosystem's captured standard output.
pub open spec fn stdout_dir_spec(l: Language) -> Seq<char> {
    "breathes/"@ + name_spec(l) + "/stdout"@
}

/// The directory that holds one ecosystem's captured standard error.
pub open spec fn stderr_dir_spec(l: Language) -> Seq<char> {
    "breathes/"@ + name_spec(l) + "/stderr"@
}

/// Where a hook's standard output is captured: one file per hook, named
/// after the hook's log filename.
pub open spec fn stdout_file_spec(h: HookSpec) -> Seq<char> {
    "breathes/"@ + name_spec(h.language) + "/stdout/"@ + h.file
}

/// Where a hook's standard error is captured: one file per hook, named
/// after the hook's log filename.
pub open spec fn stderr_file_spec(h: HookSpec) -> Seq<char> {
    "breathes/"@ + name_spec(h.language) + "/stderr/"@ + h.file
}

/// The log directory of one ecosystem.
pub fn ecosystem_dir(l: Language) -> (r: String)
    ensures
        r@ == ecosystem_dir_spec(l),
{
    let mut s = String::from_str("breathes/");
    s.append(l.name());
    s
}

/// The stdout log directory of one ecosystem.
pub fn stdout_dir(l: Language) -> (r: String)
    ensures
        r@ == stdout_dir_spec(l),
{
    let mut s = ecosystem_dir(l);
    s.append("/stdout");
    s
}

/// The stderr log directory of one ecosystem.
pub fn stderr_dir(l: Language) -> (r: String)
    ensures
        r@ == stderr_dir_spec(l),
{
    let mut s = ecosystem_dir(l);
    s.append("/stderr");
    s
}

/// The stdout log file of one hook.
pub fn stdout_file(h: &Hook) -> (r: String)
    ensures
        r@ == stdout_file_spec(h@),
{
    let mut s = ecosystem_dir(h.language);
    s.append("/stdout/");
    s.append(h.file);
    s
}

/// The stderr log file of one hook.
pub fn stderr_file(h: &Hook) -> (r: String)
    ensures
        r@ == stderr_file_spec(h@),
{
    let mut s = ecosystem_dir(h.language);
    s.append("/stderr/");
    s.append(h.file);
    s
}

/// Law: a hook list asks for exactly one stdout log file and one stderr
/// log file per hook, each named by that hook's log filename under its
/// ecosystem's log tree.
pub fn log_paths(hooks: &Vec<Hook>) -> (r: (Vec<String>, Vec<String>))
    ensures
        r.0@.len() == hooks@.len(),
        r.1@.len() == hooks@.len(),
        forall|i: int|
            0 <= i < hooks@.len() ==> r.0@[i]@ == stdout_file_spec(hooks@[i]@) && r.1@[i]@
                == stderr_file_spec(hooks@[i]@),
{
    let mut outs: Vec<String> = Vec::new();
    let mut errs: Vec<String> = Vec::new();
    let mut i: usize = 0;
    while i < hooks.len()
        invariant
            i <= hooks@.len(),
            outs@.len() == i,
            errs@.len() == i,
            forall|j: int|
                0 <= j < i ==> outs@[j]@ == stdout_file_spec(hooks@[j]@) && errs@[j]@
                    == stderr_file_spec(hooks@[j]@),
        decreases hooks@.len() - i,
    {
        outs.push(stdout_file(&hooks[i]));
        errs.push(stderr_file(&hooks[i]));
        i += 1;
    }
    (outs, errs)
}

/// Why a whole run fails: nothing was detected, or at least one check
/// failed.
#[derive(Clone, Copy, Debug, PartialEq, Eq, Structural)]
pub enum RunError {
    NoLanguageDetected,
    ChecksFailed,
}

/// The message each failure carries.
pub open spec fn run_error_message(e: RunError) -> Seq<char> {
    match e {
        RunError::NoLanguageDetected => "No language detected"@,
        RunError::ChecksFailed => "Some checks failed."@,
    }
}

impl RunError {
    /// The human-readable message of this failure.
    pub fn message(self) -> (r: &'static str)
        ensures
            r@ == run_error_message(self),
    {
        match self {
            RunError::NoLanguageDetected => "No language detected",
            RunError::ChecksFailed => "Some checks failed.",
        }
    }
}

/// The recorded result of one ecosystem's verification run.
#[derive(Clone, Copy)]
pub struct EcosystemOutcome {
    pub language: Language,
    pub all_succeeded: bool,
    pub elapsed_seconds: u64,
}

/// Global success of a run: the logical AND over all ecosystems'
/// aggregates.
pub open spec fn global_success_spec(outcomes: Seq<EcosystemOutcome>) -> bool {
    forall|i: int| 0 <= i < outcomes.len() ==> outcomes[i].all_succeeded
}

/// Whether detection found anything. An empty detection is fatal for the
/// whole run and is reported before any hook runs and before any log
/// directory is created.
pub fn check_detected(detected: &Vec<Language>) -> (r: Result<(), RunError>)
    ensures
        detected@.len() == 0 <==> r is Err,
        r is Err ==> r == Err::<(), RunError>(RunError::NoLanguageDetected),
{
    if detected.len() == 0 {
        Err(RunError::NoLanguageDetected)
    } else {
        Ok(())
    }
}

/// Whether every detected ecosystem's run succeeded.
pub fn global_success(outcomes: &Vec<EcosystemOutcome>) -> (r: bool)
    ensures
        r == global_success_spec(outcomes@),
{
    let mut i: usize = 0;
    while i < outcomes.len()
        invariant
            i <= outcomes@.len(),
            forall|j: int| 0 <= j < i ==> outcomes@[j].all_succeeded,
        decreases outcomes@.len() - i,
    {
        if !outcomes[i].all_succeeded {
            return false;
        }
        i += 1;
    }
    true
}

/// The run's final exit status: code zero exactly when every detected
/// ecosystem succeeded; otherwise the failure that points the caller at
/// the on-disk logs.
pub fn run_verdict(outcomes: &Vec<EcosystemOutcome>) -> (r: Result<i32, RunError>)
    ensures
        global_success_spec(outcomes@) <==> r == Ok::<i32, RunError>(0),
        !global_success_spec(outcomes@) ==> r == Err::<i32, RunError>(RunError::ChecksFailed),
{
    if global_success(outcomes) {
        Ok(0)
    } else {
        Err(RunError::ChecksFailed)
    }
}

/// Law: an ecosystem with an empty hook list — `Unknown` and `R` have one —
/// verifies vacuously. The engine is complete before any hook runs, so no
/// log path is ever requested, and the aggregate outcome is success with
/// whatever elapsed time the caller measured, zero for a run that did
/// nothing.
pub proof fn lemma_empty_hook_list_vacuous(e: Engine, l: Language, windows: bool)
    requires
        l == Language::Unknown || l == Language::R,
        e.hooks_model() == catalog(l, windows),
        e.statuses_model() == Seq::<bool>::empty(),
    ensures
        e.complete(),
        e.outcome_spec(0) == (true, 0u64),
{
}

/// Law: a single failing hook does not hide the others. Whatever was
/// recorded before or after it stays recorded — `record` extends the
/// outcome list no matter which outcomes it holds — and the aggregate of
/// any outcome list containing a failure is failure.
pub proof fn lemma_failure_does_not_short_circuit(e: Engine, i: int)
    requires
        0 <= i < e.statuses_model().len(),
        !e.statuses_model()[i],
    ensures
        !all_true(e.statuses_model()),
{
}

/// Law: global success is the AND over all detected ecosystems: one failed
/// ecosystem makes the whole run fail.
pub proof fn lemma_one_failure_fails_the_run(outcomes: Seq<EcosystemOutcome>, i: int)
    requires
        0 <= i < outcomes.len(),
        !outcomes[i].all_succeeded,
    ensures
        !global_success_spec(outcomes),
{
}

} // verus!
