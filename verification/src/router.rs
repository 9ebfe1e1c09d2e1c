//! The ordered fallback chain that carries a message to a terminal session.
//!
//! The router decides; its caller acts. It names the next thing to do (try a
//! backend, resolve a terminal device, stop), the caller does it and reports what
//! came of it, and the router moves on. Backends that find a session by its
//! content or its processes come first, each tried once. Then, for each
//! candidate process in turn, its terminal device is resolved and the backends
//! that address a device are tried on it. The first delivery ends the chain.
use vstd::prelude::*;

verus! {

/// What came of one attempt to deliver, or of the whole chain.
#[derive(Debug)]
pub enum DeliveryOutcome {
    /// The message reached a session.
    Delivered,
    /// The terminal application is not there to be driven.
    BackendUnavailable,
    /// The backend ran and did not deliver; the text says why.
    BackendAttemptedButFailed(String),
    /// No session was found by any means.
    NoTargetFound,
}

/// A delivery outcome with its reason as a sequence of characters.
pub enum OutcomeView {
    Delivered,
    BackendUnavailable,
    BackendAttemptedButFailed(Seq<char>),
    NoTargetFound,
}

impl View for DeliveryOutcome {
    type V = OutcomeView;

    open spec fn view(&self) -> OutcomeView {
        match *self {
            DeliveryOutcome::Delivered => OutcomeView::Delivered,
            DeliveryOutcome::BackendUnavailable => OutcomeView::BackendUnavailable,
            DeliveryOutcome::BackendAttemptedButFailed(reason) => {
                OutcomeView::BackendAttemptedButFailed(reason@)
            },
            DeliveryOutcome::NoTargetFound => OutcomeView::NoTargetFound,
        }
    }
}

/// Where the chain stands.
#[derive(Debug)]
pub enum RouterPhase {
    /// The addressed backend `backend` is due.
    Addressed { backend: usize },
    /// The terminal device of candidate number `candidate` is to be resolved.
    Resolving { candidate: usize },
    /// The device backend `backend` is due on the device of candidate number
    /// `candidate`.
    ByDevice { candidate: usize, backend: usize, device: String },
    /// The chain has ended, with or without a delivery.
    Finished { delivered: bool },
}

/// What the caller is to do next.
#[derive(Debug)]
pub enum RouterAction {
    /// Try the addressed backend number `backend`.
    TryAddressed { backend: usize },
    /// Find the terminal device of process `pid`.
    ResolveDevice { pid: i32 },
    /// Try the device backend number `backend` on `device`.
    TryByDevice { backend: usize, device: String },
    /// Stop: the chain ended with this outcome, `Delivered` or `NoTargetFound`.
    Finish(DeliveryOutcome),
}

/// What the caller reports back.
#[derive(Debug)]
pub enum RouterEvent {
    /// The backend that was due gave this outcome.
    Attempted(DeliveryOutcome),
    /// The device that was asked for, or `None` where the process has none.
    Resolved(Option<String>),
}

/// The shape of a chain: how many backends of each kind, and how many candidates.
pub struct ChainShape {
    pub addressed: usize,
    pub by_device: usize,
    pub candidates: usize,
}

impl ChainShape {
    /// The phase in which the device of candidate number `candidate` is due, or the
    /// end of the chain where no candidate or no device backend is left.
    pub open spec fn resolving_from(self, candidate: int) -> RouterPhase {
        if self.by_device > 0 && 0 <= candidate < self.candidates {
            RouterPhase::Resolving { candidate: candidate as usize }
        } else {
            RouterPhase::Finished { delivered: false }
        }
    }

    /// The phase in which the addressed backend `backend` is due, or what follows
    /// the addressed backends where none is left.
    pub open spec fn addressed_from(self, backend: int) -> RouterPhase {
        if 0 <= backend < self.addressed {
            RouterPhase::Addressed { backend: backend as usize }
        } else {
            self.resolving_from(0)
        }
    }

    /// The phase in which a chain starts: without candidates it has ended before
    /// any backend is tried.
    pub open spec fn initial(self) -> RouterPhase {
        if self.candidates == 0 {
            RouterPhase::Finished { delivered: false }
        } else {
            self.addressed_from(0)
        }
    }

    /// Whether `phase` is a phase of a chain of this shape.
    pub open spec fn admits(self, phase: RouterPhase) -> bool {
        match phase {
            RouterPhase::Addressed { backend } => backend < self.addressed && self.candidates > 0,
            RouterPhase::Resolving { candidate } => candidate < self.candidates && self.by_device
                > 0,
            RouterPhase::ByDevice { candidate, backend, device } => candidate < self.candidates
                && backend < self.by_device,
            RouterPhase::Finished { delivered } => true,
        }
    }

    /// The phase that follows `phase` once `event` is reported. An event that the
    /// phase does not wait for changes nothing.
    pub open spec fn after(self, phase: RouterPhase, event: RouterEvent) -> RouterPhase {
        match (phase, event) {
            (RouterPhase::Addressed { backend }, RouterEvent::Attempted(outcome)) => {
                if outcome is Delivered {
                    RouterPhase::Finished { delivered: true }
                } else {
                    self.addressed_from(backend + 1)
                }
            },
            (RouterPhase::Resolving { candidate }, RouterEvent::Resolved(found)) => {
                match found {
                    Some(device) => RouterPhase::ByDevice { candidate, backend: 0, device },
                    None => self.resolving_from(candidate + 1),
                }
            },
            (RouterPhase::ByDevice { candidate, backend, device }, RouterEvent::Attempted(outcome)) => {
                if outcome is Delivered {
                    RouterPhase::Finished { delivered: true }
                } else if backend + 1 < self.by_device {
                    RouterPhase::ByDevice { candidate, backend: (backend + 1) as usize, device }
                } else {
                    self.resolving_from(candidate + 1)
                }
            },
            _ => phase,
        }
    }

    /// The phase reached from `phase` once all of `events` are reported, in order.
    pub open spec fn after_all(self, phase: RouterPhase, events: Seq<RouterEvent>) -> RouterPhase
        decreases events.len(),
    {
        if events.len() == 0 {
            phase
        } else {
            self.after_all(self.after(phase, events[0]), events.drop_first())
        }
    }

    /// An upper bound on the number of events that a chain in `phase` still waits
    /// for.
    pub open spec fn remaining(self, phase: RouterPhase) -> int {
        match phase {
            RouterPhase::Addressed { backend } => (self.addressed - backend) + self.candidates * (
            self.by_device + 1),
            RouterPhase::Resolving { candidate } => (self.candidates - candidate) * (self.by_device
                + 1),
            RouterPhase::ByDevice { candidate, backend, device } => (self.by_device - backend) + (
            self.candidates - candidate - 1) * (self.by_device + 1),
            RouterPhase::Finished { delivered } => 0,
        }
    }
}

/// Whether `phase` waits for `event`.
pub open spec fn awaits(phase: RouterPhase, event: RouterEvent) -> bool {
    match (phase, event) {
        (RouterPhase::Addressed { .. }, RouterEvent::Attempted(_)) => true,
        (RouterPhase::Resolving { .. }, RouterEvent::Resolved(_)) => true,
        (RouterPhase::ByDevice { .. }, RouterEvent::Attempted(_)) => true,
        _ => false,
    }
}

/// Whether `phase` has a backend due.
pub open spec fn backend_due(phase: RouterPhase) -> bool {
    phase is Addressed || phase is ByDevice
}

/// What a router is, to its callers: the message, the shape of the chain, the
/// candidate processes and the phase.
pub struct RouterView {
    pub message: Seq<char>,
    pub addressed: usize,
    pub by_device: usize,
    pub candidates: Seq<i32>,
    pub phase: RouterPhase,
}

impl RouterView {
    /// The shape of the chain.
    pub open spec fn shape(self) -> ChainShape {
        ChainShape {
            addressed: self.addressed,
            by_device: self.by_device,
            candidates: self.candidates.len() as usize,
        }
    }

    /// Whether the phase is one of this chain.
    pub open spec fn wf(self) -> bool {
        self.candidates.len() <= usize::MAX && self.shape().admits(self.phase)
    }

    /// What the caller is to do in this phase.
    pub open spec fn action(self) -> RouterAction {
        match self.phase {
            RouterPhase::Addressed { backend } => RouterAction::TryAddressed { backend },
            RouterPhase::Resolving { candidate } => RouterAction::ResolveDevice {
                pid: self.candidates[candidate as int],
            },
            RouterPhase::ByDevice { candidate, backend, device } => RouterAction::TryByDevice {
                backend,
                device,
            },
            RouterPhase::Finished { delivered } => RouterAction::Finish(
                if delivered {
                    DeliveryOutcome::Delivered
                } else {
                    DeliveryOutcome::NoTargetFound
                },
            ),
        }
    }

    /// The router once `event` is reported.
    pub open spec fn after(self, event: RouterEvent) -> RouterView {
        RouterView { phase: self.shape().after(self.phase, event), ..self }
    }

    /// A router at the start of its chain.
    pub open spec fn start(
        message: Seq<char>,
        addressed: usize,
        by_device: usize,
        candidates: Seq<i32>,
    ) -> RouterView {
        let shape = ChainShape { addressed, by_device, candidates: candidates.len() as usize };
        RouterView { message, addressed, by_device, candidates, phase: shape.initial() }
    }
}

/// The router of one delivery.
pub struct DeliveryRouter {
    message: String,
    addressed: usize,
    by_device: usize,
    candidates: Vec<i32>,
    phase: RouterPhase,
}

impl View for DeliveryRouter {
    type V = RouterView;

    closed spec fn view(&self) -> RouterView {
        RouterView {
            message: self.message@,
            addressed: self.addressed,
            by_device: self.by_device,
            candidates: self.candidates@,
            phase: self.phase,
        }
    }
}

impl DeliveryRouter {
    #[verifier::type_invariant]
    spec fn inv(&self) -> bool {
        self@.wf()
    }

    /// A router for `message` over `addressed` addressed backends, `by_device`
    /// device backends and the candidate processes, at the start of the chain.
    pub fn new(message: String, addressed: usize, by_device: usize, candidates: Vec<i32>) -> (r:
        Self)
        ensures
            r@ == RouterView::start(message@, addressed, by_device, candidates@),
            r@.wf(),
    {
        let phase = if candidates.len() == 0 {
            RouterPhase::Finished { delivered: false }
        } else if addressed > 0 {
            RouterPhase::Addressed { backend: 0 }
        } else if by_device > 0 {
            RouterPhase::Resolving { candidate: 0 }
        } else {
            RouterPhase::Finished { delivered: false }
        };
        DeliveryRouter { message, addressed, by_device, candidates, phase }
    }

    /// The message to deliver.
    pub fn message(&self) -> (m: &String)
        ensures
            m@ == self@.message,
    {
        &self.message
    }

    /// The candidate processes.
    pub fn candidates(&self) -> (c: &Vec<i32>)
        ensures
            c@ == self@.candidates,
    {
        &self.candidates
    }

    /// Whether the chain has ended.
    pub fn is_finished(&self) -> (done: bool)
        ensures
            done == (self@.phase is Finished),
    {
        match &self.phase {
            RouterPhase::Finished { .. } => true,
            _ => false,
        }
    }

    /// How the chain ended: `Delivered` or `NoTargetFound`; `None` while it runs.
    pub fn verdict(&self) -> (v: Option<DeliveryOutcome>)
        ensures
            self@.phase matches RouterPhase::Finished { delivered } ==> v == Some(
                if delivered {
                    DeliveryOutcome::Delivered
                } else {
                    DeliveryOutcome::NoTargetFound
                },
            ),
            !(self@.phase is Finished) ==> v is None,
    {
        match &self.phase {
            RouterPhase::Finished { delivered } => {
                if *delivered {
                    Some(DeliveryOutcome::Delivered)
                } else {
                    Some(DeliveryOutcome::NoTargetFound)
                }
            },
            _ => None,
        }
    }

    /// What the caller is to do now.
    pub fn next_action(&self) -> (action: RouterAction)
        ensures
            self@.wf(),
            action == self@.action(),
    {
        proof {
            use_type_invariant(self);
        }
        match &self.phase {
            RouterPhase::Addressed { backend } => RouterAction::TryAddressed { backend: *backend },
            RouterPhase::Resolving { candidate } => RouterAction::ResolveDevice {
                pid: self.candidates[*candidate],
            },
            RouterPhase::ByDevice { candidate, backend, device } => RouterAction::TryByDevice {
                backend: *backend,
                device: device.clone(),
            },
            RouterPhase::Finished { delivered } => {
                if *delivered {
                    RouterAction::Finish(DeliveryOutcome::Delivered)
                } else {
                    RouterAction::Finish(DeliveryOutcome::NoTargetFound)
                }
            },
        }
    }

    /// The phase in which the device of candidate number `candidate` is due, or
    /// the end of the chain.
    fn resolving_from(&self, candidate: usize) -> (phase: RouterPhase)
        ensures
            phase == self@.shape().resolving_from(candidate as int),
    {
        if self.by_device > 0 && candidate < self.candidates.len() {
            RouterPhase::Resolving { candidate }
        } else {
            RouterPhase::Finished { delivered: false }
        }
    }

    /// Takes in what the caller reports. An event that the phase does not wait
    /// for changes nothing.
    pub fn record(&mut self, event: RouterEvent)
        ensures
            final(self)@ == old(self)@.after(event),
            final(self)@.wf(),
    {
        proof {
            use_type_invariant(&*self);
        }
        let next = match (&self.phase, event) {
            (RouterPhase::Addressed { backend }, RouterEvent::Attempted(outcome)) => {
                match outcome {
                    DeliveryOutcome::Delivered => RouterPhase::Finished { delivered: true },
                    _ => {
                        if *backend + 1 < self.addressed {
                            RouterPhase::Addressed { backend: *backend + 1 }
                        } else {
                            self.resolving_from(0)
                        }
                    },
                }
            },
            (RouterPhase::Resolving { candidate }, RouterEvent::Resolved(found)) => {
                match found {
                    Some(device) => RouterPhase::ByDevice {
                        candidate: *candidate,
                        backend: 0,
                        device,
                    },
                    None => self.resolving_from(*candidate + 1),
                }
            },
            (
                RouterPhase::ByDevice { candidate, backend, device },
                RouterEvent::Attempted(outcome),
            ) => {
                match outcome {
                    DeliveryOutcome::Delivered => RouterPhase::Finished { delivered: true },
                    _ => {
                        if *backend + 1 < self.by_device {
                            RouterPhase::ByDevice {
                                candidate: *candidate,
                                backend: *backend + 1,
                                device: device.clone(),
                            }
                        } else {
                            self.resolving_from(*candidate + 1)
                        }
                    },
                }
            },
            _ => {
                return ;
            },
        };
        self.phase = next;
    }

    /// Takes in what the caller reports and says what to do next.
    pub fn step(&mut self, event: RouterEvent) -> (action: RouterAction)
        ensures
            final(self)@ == old(self)@.after(event),
            final(self)@.wf(),
            action == final(self)@.action(),
    {
        self.record(event);
        self.next_action()
    }
}


/// A chain that has ended stays ended, with the same verdict, whatever is
/// reported to it.
pub proof fn lemma_finished_is_final(shape: ChainShape, delivered: bool, events: Seq<RouterEvent>)
    ensures
        shape.after_all(RouterPhase::Finished { delivered }, events) == (RouterPhase::Finished {
            delivered,
        }),
    decreases events.len(),
{
    if events.len() > 0 {
        lemma_finished_is_final(shape, delivered, events.drop_first());
    }
}

/// Reporting `first` and then `second` leads where reporting the two in one
/// sequence leads.
pub proof fn lemma_after_all_concat(
    shape: ChainShape,
    phase: RouterPhase,
    first: Seq<RouterEvent>,
    second: Seq<RouterEvent>,
)
    ensures
        shape.after_all(phase, first + second) == shape.after_all(
            shape.after_all(phase, first),
            second,
        ),
    decreases first.len(),
{
    if first.len() == 0 {
        assert(first + second == second);
    } else {
        assert((first + second).drop_first() == first.drop_first() + second);
        lemma_after_all_concat(shape, shape.after(phase, first[0]), first.drop_first(), second);
    }
}

/// Short circuit: if the report number `k` is a delivery by the backend that was
/// due, the chain has ended as delivered after it, and stays so through every
/// later report. No backend is due after the first delivery.
pub proof fn lemma_short_circuit(
    shape: ChainShape,
    start: RouterPhase,
    events: Seq<RouterEvent>,
    k: int,
)
    requires
        0 <= k < events.len(),
        events[k] == RouterEvent::Attempted(DeliveryOutcome::Delivered),
        backend_due(shape.after_all(start, events.subrange(0, k))),
    ensures
        shape.after_all(start, events) == (RouterPhase::Finished { delivered: true }),
        !backend_due(shape.after_all(start, events)),
{
    let before = events.subrange(0, k);
    let rest = events.subrange(k, events.len() as int);
    assert(events == before + rest);
    lemma_after_all_concat(shape, start, before, rest);
    let due = shape.after_all(start, before);
    assert(rest[0] == events[k]);
    assert(shape.after(due, rest[0]) == (RouterPhase::Finished { delivered: true }));
    lemma_finished_is_final(shape, true, rest.drop_first());
}

/// Without candidates the chain ends as `NoTargetFound` before anything is
/// tried, and no report changes that: no backend is ever due.
pub proof fn lemma_no_candidates(shape: ChainShape, events: Seq<RouterEvent>)
    requires
        shape.candidates == 0,
    ensures
        shape.initial() == (RouterPhase::Finished { delivered: false }),
        shape.after_all(shape.initial(), events) == (RouterPhase::Finished { delivered: false }),
{
    lemma_finished_is_final(shape, false, events);
}

/// Every report that the phase waits for brings the chain nearer to its end, and
/// leaves it in a phase of the same chain.
pub proof fn lemma_progress(shape: ChainShape, phase: RouterPhase, event: RouterEvent)
    requires
        shape.admits(phase),
        awaits(phase, event),
    ensures
        shape.admits(shape.after(phase, event)),
        0 <= shape.remaining(shape.after(phase, event)) < shape.remaining(phase),
{
    let a = shape.addressed as int;
    let d = shape.by_device as int;
    let c = shape.candidates as int;
    match phase {
        RouterPhase::Addressed { backend } => {
            assert(c * (d + 1) >= 0) by (nonlinear_arith)
                requires
                    c >= 0,
                    d >= 0,
            ;
        },
        RouterPhase::Resolving { candidate } => {
            let i = candidate as int;
            assert((c - i) * (d + 1) == (c - i - 1) * (d + 1) + d + 1) by (nonlinear_arith);
            assert((c - i - 1) * (d + 1) >= 0) by (nonlinear_arith)
                requires
                    c - i - 1 >= 0,
                    d >= 0,
            ;
        },
        RouterPhase::ByDevice { candidate, backend, device } => {
            let i = candidate as int;
            assert((c - i - 1) * (d + 1) >= 0) by (nonlinear_arith)
                requires
                    c - i - 1 >= 0,
                    d >= 0,
            ;
            if i + 1 < c {
                assert((c - i - 1) * (d + 1) == (c - i - 2) * (d + 1) + d + 1) by (nonlinear_arith);
                assert((c - i - 2) * (d + 1) >= 0) by (nonlinear_arith)
                    requires
                        c - i - 2 >= 0,
                        d >= 0,
                ;
            }
        },
        RouterPhase::Finished { delivered } => {},
    }
}

/// A chain ends as delivered only through a delivery: if it has not delivered at
/// the start and has after `events`, one of the reports was a delivery by the
/// backend then due.
pub proof fn lemma_delivered_by_backend(
    shape: ChainShape,
    start: RouterPhase,
    events: Seq<RouterEvent>,
) -> (k: int)
    requires
        start != (RouterPhase::Finished { delivered: true }),
        shape.after_all(start, events) == (RouterPhase::Finished { delivered: true }),
    ensures
        0 <= k < events.len(),
        events[k] == RouterEvent::Attempted(DeliveryOutcome::Delivered),
        backend_due(shape.after_all(start, events.subrange(0, k))),
    decreases events.len(),
{
    if events.len() == 0 {
        0
    } else {
        let next = shape.after(start, events[0]);
        if next == (RouterPhase::Finished { delivered: true }) {
            assert(events.subrange(0, 0) == Seq::<RouterEvent>::empty());
            assert(events[0] matches RouterEvent::Attempted(o) && o is Delivered);
            0
        } else {
            let rest = events.drop_first();
            let j = lemma_delivered_by_backend(shape, next, rest);
            assert(rest[j] == events[j + 1]);
            let head = events.subrange(0, 1);
            assert(events.subrange(0, j + 1) == head + rest.subrange(0, j));
            lemma_after_all_concat(shape, start, head, rest.subrange(0, j));
            assert(head[0] == events[0]);
            assert(head.drop_first() == Seq::<RouterEvent>::empty());
            assert(shape.after_all(next, head.drop_first()) == next);
            assert(shape.after_all(start, head) == next);
            j + 1
        }
    }
}


} // verus!
