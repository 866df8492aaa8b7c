//! The callback that the compiler driver runs once type analysis is done,
//! as a state machine that records the analysis's decision.

use vstd::prelude::*;
use crate::plugin::StablePluginArgs;

verus! {

/// Whether the compiler goes on to code generation after analysis.
#[derive(Debug, Clone, Copy, PartialEq, Eq, Structural)]
pub enum CompilationDecision {
    Continue,
    Stop,
}

/// Where the callback stands in one compiler run.
#[derive(Debug, Clone, Copy, PartialEq, Eq, Structural)]
pub enum CallbackPhase {
    NotStarted,
    AwaitingAnalysisCompletion,
    AnalysisRan,
    Finished,
}

/// What the driver does with a recorded decision: go on only where
/// `Continue` was recorded; stop where `Stop` was, or nothing was.
pub open spec fn decision_of(result: Option<CompilationDecision>) -> CompilationDecision {
    if result == Some(CompilationDecision::Continue) {
        CompilationDecision::Continue
    } else {
        CompilationDecision::Stop
    }
}

/// The decision the driver takes from what the analysis recorded, if anything.
pub fn decide(result: Option<CompilationDecision>) -> (r: CompilationDecision)
    ensures
        r == decision_of(result),
        result is None ==> r == CompilationDecision::Stop,
{
    match result {
        Some(CompilationDecision::Continue) => CompilationDecision::Continue,
        _ => CompilationDecision::Stop,
    }
}

/// The callback registered with the compiler driver: the plugin's arguments,
/// its phase, and the decision the analysis recorded.
pub struct StablePluginCallbacks {
    args: StablePluginArgs,
    phase: CallbackPhase,
    result: Option<CompilationDecision>,
}

impl StablePluginCallbacks {
    pub closed spec fn spec_args(&self) -> StablePluginArgs {
        self.args
    }

    pub closed spec fn spec_phase(&self) -> CallbackPhase {
        self.phase
    }

    pub closed spec fn spec_result(&self) -> Option<CompilationDecision> {
        self.result
    }

    /// A callback for one driver run, waiting for analysis to complete.
    pub fn new(args: StablePluginArgs) -> (r: Self)
        ensures
            r.spec_args() == args,
            r.spec_phase() == CallbackPhase::AwaitingAnalysisCompletion,
            r.spec_result() is None,
    {
        let mut r = StablePluginCallbacks { args, phase: CallbackPhase::NotStarted, result: None };
        r.phase = CallbackPhase::AwaitingAnalysisCompletion;
        r
    }

    /// The plugin's arguments that the analysis reads.
    pub fn args(&self) -> (r: &StablePluginArgs)
        ensures
            *r == self.spec_args(),
    {
        &self.args
    }

    pub fn phase(&self) -> (r: CallbackPhase)
        ensures
            r == self.spec_phase(),
    {
        self.phase
    }

    pub fn result(&self) -> (r: Option<CompilationDecision>)
        ensures
            r == self.spec_result(),
    {
        self.result
    }

    /// The driver has reached the end of type analysis: the analysis runs now.
    pub fn start_analysis(&mut self)
        requires
            old(self).spec_phase() == CallbackPhase::AwaitingAnalysisCompletion,
        ensures
            final(self).spec_phase() == CallbackPhase::AnalysisRan,
            final(self).spec_result() == old(self).spec_result(),
            final(self).spec_args() == old(self).spec_args(),
    {
        self.phase = CallbackPhase::AnalysisRan;
    }

    /// Records the decision that the analysis returned.
    pub fn record(&mut self, decision: CompilationDecision)
        requires
            old(self).spec_phase() == CallbackPhase::AnalysisRan,
        ensures
            final(self).spec_phase() == CallbackPhase::AnalysisRan,
            final(self).spec_result() == Some(decision),
            final(self).spec_args() == old(self).spec_args(),
    {
        self.result = Some(decision);
    }

    /// Ends the analysis and hands the driver its decision: `Continue` only
    /// where the analysis recorded `Continue`, `Stop` otherwise.
    pub fn finish(&mut self) -> (r: CompilationDecision)
        requires
            old(self).spec_phase() == CallbackPhase::AnalysisRan,
        ensures
            r == decision_of(old(self).spec_result()),
            old(self).spec_result() is None ==> r == CompilationDecision::Stop,
            final(self).spec_phase() == CallbackPhase::Finished,
            final(self).spec_result() == old(self).spec_result(),
            final(self).spec_args() == old(self).spec_args(),
    {
        self.phase = CallbackPhase::Finished;
        decide(self.result)
    }
}

/// A callback whose analysis recorded no decision makes the driver stop:
/// the absence of a decision is never taken for success.
pub proof fn lemma_no_decision_stops(c: StablePluginCallbacks)
    requires
        c.spec_result() is None,
    ensures
        decision_of(c.spec_result()) == CompilationDecision::Stop,
{
}

} // verus!
