//! The backend of last resort: raise a terminal that hosts a candidate process
//! and type the message into its front window.
//!
//! It types only where a candidate runs under Ghostty. For each candidate in
//! turn the caller finds the terminal that hosts it; where that is Ghostty, the
//! caller runs the typing script and reports the run. The probe decides what
//! follows.
use crate::router::{DeliveryOutcome, OutcomeView};
use crate::script::ScriptRun;
use crate::terminal::is_ghostty;
use crate::text::{copy_text, has_substring, lowercase_of, same_text, trim, trimmed};
use vstd::prelude::*;

verus! {

/// How a probe ended.
#[derive(Debug)]
pub enum ProbeVerdict {
    /// The script typed the message.
    Delivered,
    /// No candidate runs under Ghostty, or Ghostty cannot be driven.
    Unavailable,
    /// The automation tool could not be run; the text says why.
    ToolFailed(String),
    /// The script ran for every candidate under Ghostty and found no window.
    NoSession,
}

/// Where a probe stands.
#[derive(Debug)]
pub enum ProbePhase {
    /// The terminal that hosts candidate number `candidate` is to be found.
    /// `typed` says whether the script has run for an earlier candidate.
    Locating { candidate: usize, typed: bool },
    /// Candidate number `candidate` runs under Ghostty: the script is due.
    Typing { candidate: usize },
    /// The probe has ended.
    Settled(ProbeVerdict),
}

/// What the caller is to do next.
#[derive(Debug)]
pub enum ProbeAction {
    /// Find the name of the terminal that hosts process `pid`.
    FindTerminal { pid: i32 },
    /// Run the typing script.
    TypeMessage,
    /// Stop: the backend's outcome is this.
    Finish(DeliveryOutcome),
}

/// What the caller reports back.
#[derive(Debug)]
pub enum ProbeEvent {
    /// The name of the terminal that was asked for, or `None` where it could
    /// not be found.
    Terminal(Option<String>),
    /// The run of the typing script.
    Typed(ScriptRun),
}

/// Whether a terminal of this name, if any was found, is Ghostty.
pub open spec fn hosts_ghostty(name: Option<String>) -> bool {
    match name {
        Some(text) => has_substring(lowercase_of(text@), "ghostty"@),
        None => false,
    }
}

/// The phase in which the terminal of candidate number `candidate` is due, or
/// the end of the probe where no candidate is left.
pub open spec fn locating_from(candidates: int, candidate: int, typed: bool) -> ProbePhase {
    if 0 <= candidate < candidates {
        ProbePhase::Locating { candidate: candidate as usize, typed }
    } else if typed {
        ProbePhase::Settled(ProbeVerdict::NoSession)
    } else {
        ProbePhase::Settled(ProbeVerdict::Unavailable)
    }
}

/// The phase that follows `phase` over `candidates` candidates once `event` is
/// reported. An event that the phase does not wait for changes nothing.
pub open spec fn probe_after(candidates: int, phase: ProbePhase, event: ProbeEvent) -> ProbePhase {
    match (phase, event) {
        (ProbePhase::Locating { candidate, typed }, ProbeEvent::Terminal(name)) => {
            if hosts_ghostty(name) {
                ProbePhase::Typing { candidate }
            } else {
                locating_from(candidates, candidate + 1, typed)
            }
        },
        (ProbePhase::Typing { candidate }, ProbeEvent::Typed(run)) => {
            match run {
                ScriptRun::NotStarted(reason) => ProbePhase::Settled(
                    ProbeVerdict::ToolFailed(reason),
                ),
                ScriptRun::Exited { success, stdout, stderr } => {
                    if !success {
                        ProbePhase::Settled(ProbeVerdict::Unavailable)
                    } else if trimmed(stdout@) == "true"@ {
                        ProbePhase::Settled(ProbeVerdict::Delivered)
                    } else {
                        locating_from(candidates, candidate + 1, true)
                    }
                },
            }
        },
        _ => phase,
    }
}

/// The phase reached from `phase` once all of `events` are reported, in order.
pub open spec fn probe_after_all(candidates: int, phase: ProbePhase, events: Seq<ProbeEvent>)
    -> ProbePhase
    decreases events.len(),
{
    if events.len() == 0 {
        phase
    } else {
        probe_after_all(candidates, probe_after(candidates, phase, events[0]), events.drop_first())
    }
}

/// The outcome that a verdict stands for.
pub open spec fn verdict_outcome(verdict: ProbeVerdict) -> OutcomeView {
    match verdict {
        ProbeVerdict::Delivered => OutcomeView::Delivered,
        ProbeVerdict::Unavailable => OutcomeView::BackendUnavailable,
        ProbeVerdict::ToolFailed(reason) => OutcomeView::BackendAttemptedButFailed(reason@),
        ProbeVerdict::NoSession => OutcomeView::BackendAttemptedButFailed(
            "no matching session"@,
        ),
    }
}

/// What a probe is, to its callers: the candidate processes and the phase.
pub struct ProbeView {
    pub candidates: Seq<i32>,
    pub phase: ProbePhase,
}

impl ProbeView {
    /// Whether the phase is one of this probe.
    pub open spec fn wf(self) -> bool {
        &&& self.candidates.len() <= usize::MAX
        &&& match self.phase {
            ProbePhase::Locating { candidate, typed } => candidate < self.candidates.len(),
            ProbePhase::Typing { candidate } => candidate < self.candidates.len(),
            ProbePhase::Settled(verdict) => true,
        }
    }

    /// The probe once `event` is reported.
    pub open spec fn after(self, event: ProbeEvent) -> ProbeView {
        ProbeView {
            phase: probe_after(self.candidates.len() as int, self.phase, event),
            ..self
        }
    }

    /// A probe at its start.
    pub open spec fn start(candidates: Seq<i32>) -> ProbeView {
        ProbeView { candidates, phase: locating_from(candidates.len() as int, 0, false) }
    }

    /// Whether `action` is what the caller is to do in this phase.
    pub open spec fn asks(self, action: ProbeAction) -> bool {
        match self.phase {
            ProbePhase::Locating { candidate, typed } => action == (ProbeAction::FindTerminal {
                pid: self.candidates[candidate as int],
            }),
            ProbePhase::Typing { candidate } => action == ProbeAction::TypeMessage,
            ProbePhase::Settled(verdict) => action matches ProbeAction::Finish(outcome)
                && outcome@ == verdict_outcome(verdict),
        }
    }
}

/// The probe of one delivery attempt.
pub struct KeystrokeProbe {
    candidates: Vec<i32>,
    phase: ProbePhase,
}

impl View for KeystrokeProbe {
    type V = ProbeView;

    closed spec fn view(&self) -> ProbeView {
        ProbeView { candidates: self.candidates@, phase: self.phase }
    }
}

impl KeystrokeProbe {
    #[verifier::type_invariant]
    spec fn inv(&self) -> bool {
        self@.wf()
    }

    /// A probe over the candidate processes, at its start.
    pub fn new(candidates: Vec<i32>) -> (probe: Self)
        ensures
            probe@ == ProbeView::start(candidates@),
            probe@.wf(),
    {
        let phase = if candidates.len() > 0 {
            ProbePhase::Locating { candidate: 0, typed: false }
        } else {
            ProbePhase::Settled(ProbeVerdict::Unavailable)
        };
        KeystrokeProbe { candidates, phase }
    }

    /// Whether the probe has ended.
    pub fn is_settled(&self) -> (done: bool)
        ensures
            done == (self@.phase is Settled),
    {
        match &self.phase {
            ProbePhase::Settled(_) => true,
            _ => false,
        }
    }

    /// What the caller is to do now.
    pub fn next_action(&self) -> (action: ProbeAction)
        ensures
            self@.wf(),
            self@.asks(action),
    {
        proof {
            use_type_invariant(self);
        }
        match &self.phase {
            ProbePhase::Locating { candidate, typed } => ProbeAction::FindTerminal {
                pid: self.candidates[*candidate],
            },
            ProbePhase::Typing { candidate } => ProbeAction::TypeMessage,
            ProbePhase::Settled(verdict) => {
                let outcome = match verdict {
                    ProbeVerdict::Delivered => DeliveryOutcome::Delivered,
                    ProbeVerdict::Unavailable => DeliveryOutcome::BackendUnavailable,
                    ProbeVerdict::ToolFailed(reason) => DeliveryOutcome::BackendAttemptedButFailed(
                        reason.clone(),
                    ),
                    ProbeVerdict::NoSession => DeliveryOutcome::BackendAttemptedButFailed(
                        copy_text("no matching session"),
                    ),
                };
                ProbeAction::Finish(outcome)
            },
        }
    }

    /// The phase in which the terminal of candidate number `candidate` is due,
    /// or the end of the probe.
    fn locating_from(&self, candidate: usize, typed: bool) -> (phase: ProbePhase)
        ensures
            phase == locating_from(self@.candidates.len() as int, candidate as int, typed),
    {
        if candidate < self.candidates.len() {
            ProbePhase::Locating { candidate, typed }
        } else if typed {
            ProbePhase::Settled(ProbeVerdict::NoSession)
        } else {
            ProbePhase::Settled(ProbeVerdict::Unavailable)
        }
    }

    /// Takes in what the caller reports. An event that the phase does not wait
    /// for changes nothing.
    pub fn record(&mut self, event: ProbeEvent)
        ensures
            final(self)@ == old(self)@.after(event),
            final(self)@.wf(),
    {
        proof {
            use_type_invariant(&*self);
        }
        let count: usize = self.candidates.len();
        assert(count == self@.candidates.len());
        let next = match (&self.phase, event) {
            (ProbePhase::Locating { candidate, typed }, ProbeEvent::Terminal(name)) => {
                let hosted = match &name {
                    Some(text) => is_ghostty(text.as_str()),
                    None => false,
                };
                if hosted {
                    ProbePhase::Typing { candidate: *candidate }
                } else {
                    self.locating_from(*candidate + 1, *typed)
                }
            },
            (ProbePhase::Typing { candidate }, ProbeEvent::Typed(run)) => {
                match run {
                    ScriptRun::NotStarted(reason) => ProbePhase::Settled(
                        ProbeVerdict::ToolFailed(reason),
                    ),
                    ScriptRun::Exited { success, stdout, stderr } => {
                        if !success {
                            ProbePhase::Settled(ProbeVerdict::Unavailable)
                        } else {
                            let reply = trim(stdout.as_str());
                            if same_text(reply.as_str(), "true") {
                                ProbePhase::Settled(ProbeVerdict::Delivered)
                            } else {
                                self.locating_from(*candidate + 1, true)
                            }
                        }
                    },
                }
            },
            _ => {
                return ;
            },
        };
        self.phase = next;
    }

    /// Takes in what the caller reports and says what to do next.
    pub fn step(&mut self, event: ProbeEvent) -> (action: ProbeAction)
        ensures
            final(self)@ == old(self)@.after(event),
            final(self)@.wf(),
            final(self)@.asks(action),
    {
        self.record(event);
        self.next_action()
    }
}

/// A probe that has ended stays ended, with the same verdict, whatever is
/// reported to it: after a delivery nothing more is typed.
pub proof fn lemma_settled_is_final(candidates: int, verdict: ProbeVerdict, events: Seq<ProbeEvent>)
    ensures
        probe_after_all(candidates, ProbePhase::Settled(verdict), events) == ProbePhase::Settled(
            verdict,
        ),
    decreases events.len(),
{
    if events.len() > 0 {
        lemma_settled_is_final(candidates, verdict, events.drop_first());
    }
}

/// The script is due only for a candidate that runs under Ghostty: a probe that
/// is not typing starts to type only on the report of a terminal named Ghostty.
pub proof fn lemma_types_only_under_ghostty(candidates: int, phase: ProbePhase, event: ProbeEvent)
    requires
        !(phase is Typing),
        probe_after(candidates, phase, event) is Typing,
    ensures
        phase is Locating,
        event matches ProbeEvent::Terminal(name) && hosts_ghostty(name),
{
}

/// An upper bound on the number of reports that a probe in `phase` over
/// `candidates` candidates still waits for.
pub open spec fn probe_remaining(candidates: int, phase: ProbePhase) -> int {
    match phase {
        ProbePhase::Locating { candidate, typed } => 2 * (candidates - candidate),
        ProbePhase::Typing { candidate } => 2 * (candidates - candidate) - 1,
        ProbePhase::Settled(verdict) => 0,
    }
}

/// Every report that the phase waits for brings the probe nearer to its end: a
/// caller that does what it is asked comes to the end after at most two reports
/// for each candidate.
pub proof fn lemma_probe_progress(candidates: Seq<i32>, phase: ProbePhase, event: ProbeEvent)
    requires
        (ProbeView { candidates, phase }).wf(),
        phase is Locating && event is Terminal || phase is Typing && event is Typed,
    ensures
        (ProbeView { candidates, phase }).after(event).wf(),
        0 <= probe_remaining(
            candidates.len() as int,
            probe_after(candidates.len() as int, phase, event),
        ) < probe_remaining(candidates.len() as int, phase),
{
}

} // verus!
