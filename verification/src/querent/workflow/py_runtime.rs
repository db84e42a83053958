//! The rules of the dispatcher: the one thread that may enter the embedded
//! runtime serves the calls in the order in which they were submitted, one at
//! a time, and every call is answered exactly once.
//!
//! The rules are plain values and functions on them. Whoever owns the thread
//! and the runtime performs what the rules direct and reports back what
//! happened.

use crate::cross::clrepr::{CLRepr, PythonRef};
use crate::cross::clrepr_python::{decode, represents, ConversionError, PyValue};
use crate::querent::errors::{
    CallFailure, CallFailureView, ErrorKind, QuerentError, QuerentErrorCauseType,
};
use tokio::sync::oneshot::Sender;
use vstd::prelude::*;
use vstd::string::StringExecFns;

verus! {

/// `tokio::sync::oneshot::Sender`, carried as an opaque value.
#[verifier::external_type_specification]
#[verifier::external_body]
#[verifier::reject_recursive_types(T)]
pub struct ExOneshotSender<T>(Sender<T>);

/// Where a call stands.
#[derive(Debug, Clone, Copy, PartialEq, Eq, Structural)]
pub enum CallPhase {
    /// Submitted and waiting for the dispatcher thread.
    Queued,
    /// On the dispatcher thread: the arguments are converted.
    Converting,
    /// On the dispatcher thread: the callable is resolved and invoked.
    Invoking,
    /// Off the dispatcher thread: a host task awaits the native awaitable.
    AwaitingNative,
    /// Answered with a value.
    Completed,
    /// Answered with an error.
    Failed,
}

/// What happened to a call.
#[derive(Debug, Clone, Copy, PartialEq, Eq, Structural)]
pub enum Signal {
    /// The dispatcher thread took the call from the queue.
    Dequeued,
    /// The arguments were converted.
    Converted,
    /// A value could not be converted: an argument, or the result.
    ConversionFailed,
    /// The module, the attribute or the callable was not found.
    LookupFailed,
    /// The embedded runtime raised an exception.
    Raised,
    /// The invocation returned an awaitable.
    Suspended,
    /// The call produced its value, and the value was converted.
    Returned,
}

/// What the owner of the dispatcher thread does next for a call.
#[derive(Debug, Clone, Copy, PartialEq, Eq, Structural)]
pub enum Directive {
    /// Convert the arguments and the configuration.
    ConvertArguments,
    /// Resolve the callable and invoke it.
    Invoke,
    /// Hand the awaitable to a host task; the thread is free again.
    Bridge,
    /// Complete the reply of the call; nothing follows.
    Reply,
}

/// Why a signal was refused.
#[derive(Debug, Clone, Copy, PartialEq, Eq, Structural)]
pub enum ProtocolError {
    /// No call has the id.
    UnknownCall,
    /// The signal does not fit the phase of the call.
    Unexpected,
}

/// The queue of the dispatcher has no room.
#[derive(Debug, Clone, Copy, PartialEq, Eq, Structural)]
pub struct QueueFull;

impl CallPhase {
    /// Whether the call holds the dispatcher thread.
    pub open spec fn is_busy(self) -> bool {
        self is Converting || self is Invoking
    }

    /// Whether the call has been answered.
    pub open spec fn is_terminal(self) -> bool {
        self is Completed || self is Failed
    }

    /// Whether the call holds the dispatcher thread.
    pub fn busy(&self) -> (r: bool)
        ensures
            r == self.is_busy(),
    {
        matches!(self, CallPhase::Converting | CallPhase::Invoking)
    }

    /// Whether the call has been answered.
    pub fn terminal(&self) -> (r: bool)
        ensures
            r == self.is_terminal(),
    {
        matches!(self, CallPhase::Completed | CallPhase::Failed)
    }

    /// The phase that follows when the signal arrives, or `None` where the
    /// signal does not fit the phase.
    pub fn advance(&self, signal: Signal) -> (r: Option<CallPhase>)
        ensures
            r == next_phase(*self, signal),
    {
        match (*self, signal) {
            (CallPhase::Queued, Signal::Dequeued) => Some(CallPhase::Converting),
            (CallPhase::Converting, Signal::Converted) => Some(CallPhase::Invoking),
            (CallPhase::Converting, Signal::ConversionFailed) => Some(CallPhase::Failed),
            (CallPhase::Invoking, Signal::LookupFailed) => Some(CallPhase::Failed),
            (CallPhase::Invoking, Signal::Raised) => Some(CallPhase::Failed),
            (CallPhase::Invoking, Signal::ConversionFailed) => Some(CallPhase::Failed),
            (CallPhase::Invoking, Signal::Suspended) => Some(CallPhase::AwaitingNative),
            (CallPhase::Invoking, Signal::Returned) => Some(CallPhase::Completed),
            (CallPhase::AwaitingNative, Signal::Returned) => Some(CallPhase::Completed),
            (CallPhase::AwaitingNative, Signal::Raised) => Some(CallPhase::Failed),
            (CallPhase::AwaitingNative, Signal::ConversionFailed) => Some(CallPhase::Failed),
            _ => None,
        }
    }

    /// What is to be done for a call that has just entered this phase;
    /// nothing for a call that waits in the queue.
    pub fn directive(&self) -> (r: Option<Directive>)
        ensures
            r == directive_of(*self),
    {
        match self {
            CallPhase::Queued => None,
            CallPhase::Converting => Some(Directive::ConvertArguments),
            CallPhase::Invoking => Some(Directive::Invoke),
            CallPhase::AwaitingNative => Some(Directive::Bridge),
            CallPhase::Completed => Some(Directive::Reply),
            CallPhase::Failed => Some(Directive::Reply),
        }
    }
}

/// The transitions of one call: queued, converting, invoking, then either
/// awaiting the native awaitable or done; a failure ends the call from any
/// phase after the queue. Every other pair of phase and signal is refused.
pub open spec fn next_phase(phase: CallPhase, signal: Signal) -> Option<CallPhase> {
    match (phase, signal) {
        (CallPhase::Queued, Signal::Dequeued) => Some(CallPhase::Converting),
        (CallPhase::Converting, Signal::Converted) => Some(CallPhase::Invoking),
        (CallPhase::Converting, Signal::ConversionFailed) => Some(CallPhase::Failed),
        (CallPhase::Invoking, Signal::LookupFailed) => Some(CallPhase::Failed),
        (CallPhase::Invoking, Signal::Raised) => Some(CallPhase::Failed),
        (CallPhase::Invoking, Signal::ConversionFailed) => Some(CallPhase::Failed),
        (CallPhase::Invoking, Signal::Suspended) => Some(CallPhase::AwaitingNative),
        (CallPhase::Invoking, Signal::Returned) => Some(CallPhase::Completed),
        (CallPhase::AwaitingNative, Signal::Returned) => Some(CallPhase::Completed),
        (CallPhase::AwaitingNative, Signal::Raised) => Some(CallPhase::Failed),
        (CallPhase::AwaitingNative, Signal::ConversionFailed) => Some(CallPhase::Failed),
        _ => None,
    }
}

/// What is to be done for a call that has just entered a phase.
pub open spec fn directive_of(phase: CallPhase) -> Option<Directive> {
    match phase {
        CallPhase::Queued => None,
        CallPhase::Converting => Some(Directive::ConvertArguments),
        CallPhase::Invoking => Some(Directive::Invoke),
        CallPhase::AwaitingNative => Some(Directive::Bridge),
        CallPhase::Completed => Some(Directive::Reply),
        CallPhase::Failed => Some(Directive::Reply),
    }
}

/// A call that has been answered takes no further signal, so it is answered
/// once; and a reply is due exactly when a call enters a terminal phase.
pub proof fn lemma_answered_once(phase: CallPhase, signal: Signal)
    ensures
        phase.is_terminal() ==> next_phase(phase, signal) is None,
        next_phase(phase, signal) matches Some(p) ==> (directive_of(p) == Some(Directive::Reply)
            <==> p.is_terminal()),
        next_phase(phase, signal) matches Some(p) ==> !(p is Queued) && p != phase,
{
}

/// How far a call has come: each phase is later than the one before it.
pub open spec fn phase_rank(phase: CallPhase) -> nat {
    match phase {
        CallPhase::Queued => 0,
        CallPhase::Converting => 1,
        CallPhase::Invoking => 2,
        CallPhase::AwaitingNative => 3,
        CallPhase::Completed => 4,
        CallPhase::Failed => 4,
    }
}

/// A call only moves forward, so it enters each phase at most once: its
/// arguments are converted once and its callable is invoked once.
pub proof fn lemma_phases_advance(phase: CallPhase, signal: Signal)
    ensures
        next_phase(phase, signal) matches Some(p) ==> phase_rank(p) > phase_rank(phase),
        next_phase(phase, signal) matches Some(p) ==> (p is Invoking ==> phase is Converting),
        next_phase(phase, signal) matches Some(p) ==> (p is Converting ==> phase is Queued),
{
}

/// A call leaves the dispatcher thread only by suspending on an awaitable or
/// by being answered, and it never comes back to the thread.
pub proof fn lemma_thread_is_left_for_good(phase: CallPhase, signal: Signal)
    ensures
        phase.is_busy() ==> (next_phase(phase, signal) matches Some(p) ==> p.is_busy()
            || p is AwaitingNative || p.is_terminal()),
        phase is AwaitingNative ==> (next_phase(phase, signal) matches Some(p) ==> p.is_terminal()),
{
}

/// The number of answered calls among the phases.
pub open spec fn terminal_count(s: Seq<CallPhase>) -> int
    decreases s.len(),
{
    if s.len() == 0 {
        0
    } else {
        terminal_count(s.drop_last()) + if s.last().is_terminal() {
            1int
        } else {
            0int
        }
    }
}

/// The dispatcher as a value: the phase of every call in the order of
/// submission, how many calls have left the queue, how many have been
/// answered, and how many may wait in the queue.
pub struct DispatcherView {
    pub phases: Seq<CallPhase>,
    pub next: int,
    pub replies: int,
    pub capacity: int,
}

impl DispatcherView {
    /// The calls before `next` have left the queue and the others wait in
    /// it, in the order of submission; at most one call holds the dispatcher
    /// thread; the replies are those of the answered calls; the queue is
    /// within its capacity.
    pub open spec fn well_formed(self) -> bool {
        &&& 0 <= self.next <= self.phases.len()
        &&& forall|i: int|
            0 <= i < self.phases.len() ==> ((#[trigger] self.phases[i]) is Queued <==> i
                >= self.next)
        &&& forall|i: int, j: int|
            0 <= i < j < self.phases.len() ==> !((#[trigger] self.phases[i]).is_busy() && (
            #[trigger] self.phases[j]).is_busy())
        &&& self.replies == terminal_count(self.phases)
        &&& self.phases.len() - self.next <= self.capacity
    }

    /// Whether some call holds the dispatcher thread.
    pub open spec fn thread_taken(self) -> bool {
        exists|i: int| 0 <= i < self.phases.len() && (#[trigger] self.phases[i]).is_busy()
    }

    /// The number of calls that wait in the queue.
    pub open spec fn queued(self) -> int {
        self.phases.len() - self.next
    }

    /// Whether the queue takes another call.
    pub open spec fn has_room(self) -> bool {
        self.queued() < self.capacity && self.phases.len() < usize::MAX
    }

    /// The dispatcher after a call was submitted: the call waits at the end
    /// of the queue.
    pub open spec fn submitted(self) -> DispatcherView {
        DispatcherView { phases: self.phases.push(CallPhase::Queued), ..self }
    }

    /// Whether the dispatcher thread may take a call: it is free and a call
    /// waits.
    pub open spec fn can_start(self) -> bool {
        self.next < self.phases.len() && !self.thread_taken()
    }

    /// The dispatcher after the thread took the call that waited longest.
    pub open spec fn started(self) -> DispatcherView {
        DispatcherView {
            phases: self.phases.update(self.next, CallPhase::Converting),
            next: self.next + 1,
            ..self
        }
    }

    /// What a signal for a call leads to: the new phase, or why the signal
    /// is refused. Taking a call from the queue is the dispatcher's own
    /// step, so `Dequeued` is refused here.
    pub open spec fn verdict(self, id: int, signal: Signal) -> Result<CallPhase, ProtocolError> {
        if !(0 <= id < self.phases.len()) {
            Err(ProtocolError::UnknownCall)
        } else if signal is Dequeued {
            Err(ProtocolError::Unexpected)
        } else {
            match next_phase(self.phases[id], signal) {
                Some(p) => Ok(p),
                None => Err(ProtocolError::Unexpected),
            }
        }
    }

    /// The dispatcher after a signal: the call moves on and its reply is
    /// counted when it is answered; a refused signal changes nothing.
    pub open spec fn signalled(self, id: int, signal: Signal) -> DispatcherView {
        match self.verdict(id, signal) {
            Ok(p) => DispatcherView {
                phases: self.phases.update(id, p),
                replies: self.replies + if p.is_terminal() {
                    1int
                } else {
                    0int
                },
                ..self
            },
            Err(_) => self,
        }
    }
}

/// There are no more answered calls than calls.
pub proof fn lemma_terminal_count_bounds(s: Seq<CallPhase>)
    ensures
        0 <= terminal_count(s) <= s.len(),
        terminal_count(s) == s.len() <==> forall|i: int|
            0 <= i < s.len() ==> (#[trigger] s[i]).is_terminal(),
    decreases s.len(),
{
    if s.len() > 0 {
        let t = s.drop_last();
        lemma_terminal_count_bounds(t);
        if terminal_count(s) == s.len() {
            assert forall|i: int| 0 <= i < s.len() implies (#[trigger] s[i]).is_terminal() by {
                if i < t.len() {
                    assert(t[i] == s[i]);
                }
            }
        }
        if forall|i: int| 0 <= i < s.len() ==> (#[trigger] s[i]).is_terminal() {
            assert forall|i: int| 0 <= i < t.len() implies (#[trigger] t[i]).is_terminal() by {
                assert(t[i] == s[i]);
            }
            assert(s[s.len() - 1].is_terminal());
        }
    }
}

/// Changing one phase changes the count by that call alone.
pub proof fn lemma_terminal_count_update(s: Seq<CallPhase>, i: int, p: CallPhase)
    requires
        0 <= i < s.len(),
    ensures
        terminal_count(s.update(i, p)) == terminal_count(s) + (if p.is_terminal() {
            1int
        } else {
            0int
        }) - (if s[i].is_terminal() {
            1int
        } else {
            0int
        }),
    decreases s.len(),
{
    let u = s.update(i, p);
    if i == s.len() - 1 {
        assert(u.drop_last() =~= s.drop_last());
    } else {
        lemma_terminal_count_update(s.drop_last(), i, p);
        assert(u.drop_last() =~= s.drop_last().update(i, p));
    }
}

/// A call that waits in the queue is not counted.
pub proof fn lemma_terminal_count_push(s: Seq<CallPhase>)
    ensures
        terminal_count(s.push(CallPhase::Queued)) == terminal_count(s),
{
    assert(s.push(CallPhase::Queued).drop_last() =~= s);
}

/// Submitting a call keeps the dispatcher well formed.
pub proof fn lemma_submit_keeps_order(d: DispatcherView)
    requires
        d.well_formed(),
        d.has_room(),
    ensures
        d.submitted().well_formed(),
        d.submitted().thread_taken() == d.thread_taken(),
{
    let e = d.submitted();
    lemma_terminal_count_push(d.phases);
    assert forall|i: int| 0 <= i < e.phases.len() implies ((#[trigger] e.phases[i]) is Queued <==> i
        >= e.next) by {
        if i < d.phases.len() {
            assert(e.phases[i] == d.phases[i]);
        }
    }
    assert forall|i: int, j: int| 0 <= i < j < e.phases.len() implies !((
    #[trigger] e.phases[i]).is_busy() && (#[trigger] e.phases[j]).is_busy()) by {
        if j < d.phases.len() {
            assert(e.phases[i] == d.phases[i] && e.phases[j] == d.phases[j]);
        }
    }
    if d.thread_taken() {
        let i = choose|i: int| 0 <= i < d.phases.len() && (#[trigger] d.phases[i]).is_busy();
        assert(e.phases[i].is_busy());
    }
    if e.thread_taken() {
        let i = choose|i: int| 0 <= i < e.phases.len() && (#[trigger] e.phases[i]).is_busy();
        assert(d.phases[i].is_busy());
    }
}

/// The dispatcher thread takes the call that waited longest, and only when
/// no other call holds the thread: at most one call is converted or invoked
/// at any instant.
pub proof fn lemma_start_keeps_order(d: DispatcherView)
    requires
        d.well_formed(),
        d.can_start(),
    ensures
        d.started().well_formed(),
        d.started().phases[d.next] is Converting,
        forall|i: int| 0 <= i < d.next ==> !(#[trigger] d.phases[i] is Queued),
        forall|i: int|
            0 <= i < d.phases.len() && i != d.next ==> #[trigger] d.started().phases[i]
                == d.phases[i],
{
    let e = d.started();
    lemma_terminal_count_update(d.phases, d.next, CallPhase::Converting);
    assert(d.phases[d.next] is Queued);
    assert forall|i: int, j: int| 0 <= i < j < e.phases.len() implies !((
    #[trigger] e.phases[i]).is_busy() && (#[trigger] e.phases[j]).is_busy()) by {
        if i != d.next {
            assert(!d.phases[i].is_busy());
        }
        if j != d.next {
            assert(!d.phases[j].is_busy());
        }
    }
}

/// A signal keeps the dispatcher well formed, whatever it is.
pub proof fn lemma_signal_keeps_order(d: DispatcherView, id: int, signal: Signal)
    requires
        d.well_formed(),
    ensures
        d.signalled(id, signal).well_formed(),
{
    let e = d.signalled(id, signal);
    match d.verdict(id, signal) {
        Ok(p) => {
            lemma_terminal_count_update(d.phases, id, p);
            lemma_answered_once(d.phases[id], signal);
            assert(!(d.phases[id] is Queued));
            assert forall|i: int, j: int| 0 <= i < j < e.phases.len() implies !((
            #[trigger] e.phases[i]).is_busy() && (#[trigger] e.phases[j]).is_busy()) by {
                assert(!(d.phases[i].is_busy() && d.phases[j].is_busy()));
                if i == id {
                    assert(p.is_busy() ==> d.phases[i].is_busy());
                }
                if j == id {
                    assert(p.is_busy() ==> d.phases[j].is_busy());
                }
            }
        },
        Err(_) => {},
    }
}

/// A call that fails on the dispatcher thread frees the thread: the failure
/// is that call's alone, and the call that waited longest can be taken next.
pub proof fn lemma_failure_frees_thread(d: DispatcherView, id: int, signal: Signal)
    requires
        d.well_formed(),
        0 <= id < d.phases.len(),
        d.phases[id].is_busy(),
        signal is ConversionFailed || signal is LookupFailed || signal is Raised,
        next_phase(d.phases[id], signal) is Some,
    ensures
        d.signalled(id, signal).phases[id] is Failed,
        !d.signalled(id, signal).thread_taken(),
        d.signalled(id, signal).replies == d.replies + 1,
        d.next < d.phases.len() ==> d.signalled(id, signal).can_start() && d.signalled(
            id,
            signal,
        ).started().phases[d.next] is Converting,
        forall|i: int|
            0 <= i < d.phases.len() && i != id ==> #[trigger] d.signalled(id, signal).phases[i]
                == d.phases[i],
{
    let e = d.signalled(id, signal);
    if e.thread_taken() {
        let i = choose|i: int| 0 <= i < e.phases.len() && (#[trigger] e.phases[i]).is_busy();
        assert(i != id);
        assert(d.phases[i].is_busy());
        if i < id {
            assert(!(d.phases[i].is_busy() && d.phases[id].is_busy()));
        } else {
            assert(!(d.phases[id].is_busy() && d.phases[i].is_busy()));
        }
    }
}

/// A call that awaits its native awaitable does not hold the dispatcher
/// thread: once it is suspended, the call that waited longest can be taken,
/// and it can be answered before the suspended one.
pub proof fn lemma_await_frees_thread(d: DispatcherView, id: int)
    requires
        d.well_formed(),
        0 <= id < d.phases.len(),
        d.phases[id] is Invoking,
    ensures
        d.signalled(id, Signal::Suspended).phases[id] is AwaitingNative,
        !d.signalled(id, Signal::Suspended).thread_taken(),
        d.signalled(id, Signal::Suspended).replies == d.replies,
        d.next < d.phases.len() ==> d.signalled(id, Signal::Suspended).can_start(),
{
    let e = d.signalled(id, Signal::Suspended);
    if e.thread_taken() {
        let i = choose|i: int| 0 <= i < e.phases.len() && (#[trigger] e.phases[i]).is_busy();
        assert(i != id);
        assert(d.phases[i].is_busy());
        if i < id {
            assert(!(d.phases[i].is_busy() && d.phases[id].is_busy()));
        } else {
            assert(!(d.phases[id].is_busy() && d.phases[i].is_busy()));
        }
    }
}

/// When every submitted call has been answered, there are exactly as many
/// replies as calls.
pub proof fn lemma_every_call_answered_once(d: DispatcherView)
    requires
        d.well_formed(),
    ensures
        0 <= d.replies <= d.phases.len(),
        d.replies == d.phases.len() <==> forall|i: int|
            0 <= i < d.phases.len() ==> (#[trigger] d.phases[i]).is_terminal(),
{
    lemma_terminal_count_bounds(d.phases);
}

/// The dispatcher's bookkeeping.
#[derive(Debug)]
pub struct Dispatcher {
    phases: Vec<CallPhase>,
    next: usize,
    active: Option<usize>,
    replies: usize,
    capacity: usize,
}

impl View for Dispatcher {
    type V = DispatcherView;

    closed spec fn view(&self) -> DispatcherView {
        DispatcherView {
            phases: self.phases@,
            next: self.next as int,
            replies: self.replies as int,
            capacity: self.capacity as int,
        }
    }
}

impl Dispatcher {
    /// The bookkeeping is well formed, and `active` names the call that
    /// holds the dispatcher thread, if one does.
    #[verifier::type_invariant]
    pub closed spec fn wf(self) -> bool {
        &&& self@.well_formed()
        &&& match self.active {
            Some(a) => a < self.phases@.len() && self.phases@[a as int].is_busy(),
            None => !self@.thread_taken(),
        }
    }

    /// What `wf` says of the value.
    pub proof fn lemma_wf(self)
        requires
            self.wf(),
        ensures
            self@.well_formed(),
    {
    }

    /// A dispatcher without calls whose queue holds up to `capacity` calls.
    pub fn new(capacity: usize) -> (d: Self)
        ensures
            d@ == (DispatcherView {
                phases: Seq::empty(),
                next: 0,
                replies: 0,
                capacity: capacity as int,
            }),
            d@.well_formed(),
    {
        Dispatcher { phases: Vec::new(), next: 0, active: None, replies: 0, capacity }
    }

    /// The number of calls submitted so far.
    pub fn submitted(&self) -> (n: usize)
        ensures
            n == self@.phases.len(),
    {
        self.phases.len()
    }

    /// The number of calls answered so far.
    pub fn replies(&self) -> (n: usize)
        ensures
            n == self@.replies,
    {
        self.replies
    }

    /// The number of calls that wait in the queue.
    pub fn queued(&self) -> (n: usize)
        ensures
            n == self@.queued(),
    {
        proof {
            use_type_invariant(self);
        }
        self.phases.len() - self.next
    }

    /// The phase of a call, if the id names one.
    pub fn phase(&self, id: usize) -> (r: Option<CallPhase>)
        ensures
            r == if id < self@.phases.len() {
                Some(self@.phases[id as int])
            } else {
                None
            },
    {
        if id < self.phases.len() {
            Some(self.phases[id])
        } else {
            None
        }
    }

    /// Whether some call holds the dispatcher thread.
    pub fn thread_taken(&self) -> (r: bool)
        ensures
            r == self@.thread_taken(),
    {
        proof {
            use_type_invariant(self);
            if self.active is Some {
                assert(self@.phases[self.active->Some_0 as int].is_busy());
            }
        }
        self.active.is_some()
    }

    /// Puts a call at the end of the queue and gives its id, the number of
    /// calls submitted before it. A full queue refuses the call and nothing
    /// changes.
    pub fn submit(&mut self) -> (r: Result<usize, QueueFull>)
        ensures
            old(self)@.has_room() ==> r == Ok::<usize, QueueFull>(old(self)@.phases.len() as usize)
                && final(self)@ == old(self)@.submitted(),
            !old(self)@.has_room() ==> r is Err && final(self)@ == old(self)@,
    {
        proof {
            use_type_invariant(&*self);
        }
        let queued = self.phases.len() - self.next;
        if queued >= self.capacity || self.phases.len() == usize::MAX {
            return Err(QueueFull);
        }
        let id = self.phases.len();
        let ghost before = self@;
        let mut taken = Dispatcher::new(0);
        std::mem::swap(self, &mut taken);
        let Dispatcher { mut phases, next, active, replies, capacity } = taken;
        phases.push(CallPhase::Queued);
        proof {
            lemma_submit_keeps_order(before);
            assert(phases@ == before.submitted().phases);
            if active is Some {
                assert(phases@[active->Some_0 as int] == before.phases[active->Some_0 as int]);
            }
        }
        *self = Dispatcher { phases, next, active, replies, capacity };
        Ok(id)
    }

    /// Lets the dispatcher thread take the call that waited longest. The
    /// thread takes one when it is free and a call waits; the call is then
    /// converting. Otherwise nothing changes.
    pub fn next_call(&mut self) -> (r: Option<usize>)
        ensures
            old(self)@.can_start() ==> r == Some(old(self)@.next as usize) && final(self)@ == old(
                self,
            )@.started(),
            !old(self)@.can_start() ==> r is None && final(self)@ == old(self)@,
    {
        proof {
            use_type_invariant(&*self);
            if self.active is Some {
                assert(self@.phases[self.active->Some_0 as int].is_busy());
            }
        }
        if self.active.is_some() || self.next >= self.phases.len() {
            return None;
        }
        let id = self.next;
        let ghost before = self@;
        proof {
            lemma_start_keeps_order(before);
        }
        let mut taken = Dispatcher::new(0);
        std::mem::swap(self, &mut taken);
        let Dispatcher { mut phases, next: _, active: _, replies, capacity } = taken;
        phases.set(id, CallPhase::Converting);
        *self = Dispatcher { phases, next: id + 1, active: Some(id), replies, capacity };
        Some(id)
    }

    /// Reports what happened to a call. The call moves to the phase that
    /// follows, which is returned with what is to be done next; a signal for
    /// an unknown call, or one that does not fit the call's phase, is
    /// refused and changes nothing.
    pub fn signal(&mut self, id: usize, signal: Signal) -> (r: Result<
        (CallPhase, Directive),
        ProtocolError,
    >)
        ensures
            final(self)@ == old(self)@.signalled(id as int, signal),
            match old(self)@.verdict(id as int, signal) {
                Ok(p) => r == Ok::<(CallPhase, Directive), ProtocolError>(
                    (p, directive_of(p)->Some_0),
                ) && directive_of(p) is Some,
                Err(e) => r == Err::<(CallPhase, Directive), ProtocolError>(e),
            },
    {
        proof {
            use_type_invariant(&*self);
        }
        if id >= self.phases.len() {
            return Err(ProtocolError::UnknownCall);
        }
        if matches!(signal, Signal::Dequeued) {
            return Err(ProtocolError::Unexpected);
        }
        let current = self.phases[id];
        match current.advance(signal) {
            None => Err(ProtocolError::Unexpected),
            Some(p) => {
                let ghost before = self@;
                let ghost before_active = self.active;
                proof {
                    lemma_signal_keeps_order(before, id as int, signal);
                    lemma_answered_once(current, signal);
                    lemma_terminal_count_bounds(before.phases);
                    lemma_terminal_count_bounds(before.signalled(id as int, signal).phases);
                }
                let was_busy = current.busy();
                let is_busy = p.busy();
                let replies = if p.terminal() {
                    self.replies + 1
                } else {
                    self.replies
                };
                let active = if was_busy && !is_busy {
                    None
                } else {
                    self.active
                };
                let mut taken = Dispatcher::new(0);
                std::mem::swap(self, &mut taken);
                let Dispatcher { mut phases, next, active: _, replies: _, capacity } = taken;
                phases.set(id, p);
                proof {
                    let e = before.signalled(id as int, signal);
                    assert(phases@ == e.phases);
                    match active {
                        Some(a) => {
                            assert(before_active == Some(a));
                            if a == id {
                                assert(is_busy);
                            } else {
                                assert(e.phases[a as int] == before.phases[a as int]);
                            }
                        },
                        None => {
                            if e.thread_taken() {
                                let i = choose|i: int|
                                    0 <= i < e.phases.len() && (#[trigger] e.phases[i]).is_busy();
                                if i == id {
                                    assert(is_busy);
                                    assert(was_busy);
                                    assert(before_active is Some);
                                } else {
                                    assert(before.phases[i].is_busy());
                                    if before_active is None {
                                        assert(false);
                                    } else {
                                        let a = before_active->Some_0 as int;
                                        assert(was_busy);
                                        if i < id {
                                            assert(!(before.phases[i].is_busy()
                                                && before.phases[id as int].is_busy()));
                                        } else {
                                            assert(!(before.phases[id as int].is_busy()
                                                && before.phases[i].is_busy()));
                                        }
                                    }
                                }
                            }
                        },
                    }
                }
                *self = Dispatcher { phases, next, active, replies, capacity };
                match p.directive() {
                    Some(d) => Ok((p, d)),
                    None => Err(ProtocolError::Unexpected),
                }
            },
        }
    }
}

/// The step at which the dispatcher failed to start.
#[derive(Debug, Clone, Copy, PartialEq, Eq, Structural)]
pub enum InitStep {
    /// The embedded runtime could not be tied to the host's task system.
    Bridge,
    /// The dispatcher could not be put in its place.
    Slot,
}

/// Whether the dispatcher is there to take calls.
#[derive(Debug, Clone, Copy, PartialEq, Eq, Structural)]
pub enum RuntimeStatus {
    /// Nobody has tried to start the dispatcher.
    NotStarted,
    /// The dispatcher runs.
    Ready,
    /// The dispatcher failed to start, at the step given. This is final.
    Failed(InitStep),
}

/// The text that reports a failed start.
pub open spec fn initialization_text(step: InitStep) -> Seq<char> {
    match step {
        InitStep::Bridge => "Unable to initialize Python runtime"@,
        InitStep::Slot => "Unable to set PyRuntime"@,
    }
}

/// The failure that reports a failed start.
pub open spec fn initialization_failure_view(step: InitStep) -> CallFailureView {
    CallFailureView {
        kind: ErrorKind::Initialization,
        message: initialization_text(step),
        trace: None,
    }
}

/// The status after an attempt to start the dispatcher. A dispatcher that
/// runs keeps running and one that failed stays failed, whatever the
/// attempt gave; otherwise the attempt decides.
pub open spec fn status_after_init(status: RuntimeStatus, attempt: Result<(), InitStep>) -> RuntimeStatus {
    match status {
        RuntimeStatus::NotStarted => match attempt {
            Ok(_) => RuntimeStatus::Ready,
            Err(step) => RuntimeStatus::Failed(step),
        },
        other => other,
    }
}

/// The failure that reports a failed start, of kind `Initialization`.
pub fn initialization_failure(step: InitStep) -> (f: CallFailure)
    ensures
        f@ == initialization_failure_view(step),
{
    match step {
        InitStep::Bridge => CallFailure::new(
            ErrorKind::Initialization,
            String::from_str("Unable to initialize Python runtime"),
        ),
        InitStep::Slot => CallFailure::new(
            ErrorKind::Initialization,
            String::from_str("Unable to set PyRuntime"),
        ),
    }
}

impl RuntimeStatus {
    /// Whether calls are taken: only by a dispatcher that runs. A failed
    /// start is reported to every call that is attempted afterwards.
    pub fn ensure_ready(&self) -> (r: Result<(), CallFailure>)
        ensures
            match *self {
                RuntimeStatus::Ready => r is Ok,
                RuntimeStatus::NotStarted => r matches Err(f) && f@ == initialization_failure_view(
                    InitStep::Slot,
                ),
                RuntimeStatus::Failed(step) => r matches Err(f) && f@
                    == initialization_failure_view(step),
            },
    {
        match self {
            RuntimeStatus::Ready => Ok(()),
            RuntimeStatus::NotStarted => Err(initialization_failure(InitStep::Slot)),
            RuntimeStatus::Failed(step) => Err(initialization_failure(*step)),
        }
    }

    /// Records an attempt to start the dispatcher and says whether the
    /// dispatcher runs afterwards.
    pub fn init(&mut self, attempt: Result<(), InitStep>) -> (r: Result<(), CallFailure>)
        ensures
            *final(self) == status_after_init(*old(self), attempt),
            match *final(self) {
                RuntimeStatus::Failed(step) => r matches Err(f) && f@
                    == initialization_failure_view(step),
                _ => r is Ok,
            },
    {
        match *self {
            RuntimeStatus::NotStarted => match attempt {
                Ok(()) => {
                    *self = RuntimeStatus::Ready;
                    Ok(())
                },
                Err(step) => {
                    *self = RuntimeStatus::Failed(step);
                    Err(initialization_failure(step))
                },
            },
            RuntimeStatus::Ready => Ok(()),
            RuntimeStatus::Failed(step) => Err(initialization_failure(step)),
        }
    }
}

/// The text in front of the reason why a call could not be queued.
pub open spec fn schedule_prefix() -> Seq<char> {
    "Unable to schedule python function call: "@
}

/// The failure that reports a call that could not be queued, of kind
/// `Channel`; `reason` is what the queue said.
pub fn schedule_failure(reason: &str) -> (f: CallFailure)
    ensures
        f@ == (CallFailureView {
            kind: ErrorKind::Channel,
            message: schedule_prefix() + reason@,
            trace: None,
        }),
{
    CallFailure::new(
        ErrorKind::Channel,
        String::from_str("Unable to schedule python function call: ").concat(reason),
    )
}

/// The text that reports a value without a cross-language counterpart.
pub open spec fn conversion_text() -> Seq<char> {
    "dictionary key is not a string"@
}

/// The text in front of every error of the embedded runtime.
pub open spec fn python_error_prefix() -> Seq<char> {
    "Python error: "@
}

/// The failure that reports an error of the embedded runtime.
pub open spec fn python_failure(kind: ErrorKind, text: Seq<char>, trace: Option<Seq<char>>) -> CallFailureView {
    CallFailureView { kind, message: python_error_prefix() + text, trace }
}

/// The text that reports a callable that is not there.
pub open spec fn missing_callable_text() -> Seq<char> {
    "Failed to find start function."@
}

/// The step at which a callable could not be resolved.
#[derive(Debug, Clone, Copy, PartialEq, Eq, Structural)]
pub enum LookupStage {
    /// The module could not be imported, or its source not compiled.
    Module,
    /// The module has no attribute of the name.
    Attribute,
    /// The attribute is not a function.
    Callable,
}

/// The failure that reports a failed lookup: a missing attribute has a fixed
/// text, the other stages report the text of the embedded runtime.
pub open spec fn lookup_failure_view(stage: LookupStage, text: Seq<char>) -> CallFailureView {
    CallFailureView {
        kind: ErrorKind::Lookup,
        message: if stage is Attribute {
            missing_callable_text()
        } else {
            text
        },
        trace: None,
    }
}

/// The failure of a lookup at the given stage; `text` is what the embedded
/// runtime said.
pub fn lookup_failure(stage: LookupStage, text: String) -> (f: CallFailure)
    ensures
        f@ == lookup_failure_view(stage, text@),
{
    match stage {
        LookupStage::Attribute => CallFailure::new(
            ErrorKind::Lookup,
            String::from_str("Failed to find start function."),
        ),
        _ => CallFailure::new(ErrorKind::Lookup, text),
    }
}

/// The failure that reports an exception of the embedded runtime, with its
/// trace where there is one.
pub fn invocation_failure(text: &str, trace: Option<String>) -> (f: CallFailure)
    ensures
        f@ == python_failure(
            ErrorKind::Invocation,
            text@,
            match trace {
                Some(t) => Some(t@),
                None => None,
            },
        ),
{
    CallFailure {
        kind: ErrorKind::Invocation,
        message: String::from_str("Python error: ").concat(text),
        trace,
    }
}

/// The failure that reports an argument that the embedded runtime could not
/// take, of kind `Conversion`; `text` is what the runtime said.
pub fn argument_failure(text: &str) -> (f: CallFailure)
    ensures
        f@ == python_failure(ErrorKind::Conversion, text@, None),
{
    CallFailure::new(ErrorKind::Conversion, String::from_str("Python error: ").concat(text))
}

/// The failure that reports a value without a cross-language counterpart.
pub fn conversion_failure(error: ConversionError) -> (f: CallFailure)
    ensures
        f@ == python_failure(ErrorKind::Conversion, conversion_text(), None),
{
    match error {
        ConversionError::DictKeyNotText => CallFailure::new(
            ErrorKind::Conversion,
            String::from_str("Python error: ").concat("dictionary key is not a string"),
        ),
    }
}

/// The signal that a failure stands for.
pub open spec fn failure_signal(kind: ErrorKind) -> Signal {
    match kind {
        ErrorKind::Conversion => Signal::ConversionFailed,
        ErrorKind::Lookup => Signal::LookupFailed,
        _ => Signal::Raised,
    }
}

/// The answer to a call whose native result is `value`: the result as a
/// cross-language value, or the conversion failure where it has none.
pub fn reply_for_value(value: &PyValue) -> (r: Result<CLRepr, CallFailure>)
    ensures
        match decode(*value) {
            Some(v) => r matches Ok(c) && c@ == v,
            None => r matches Err(f) && f@ == python_failure(
                ErrorKind::Conversion,
                conversion_text(),
                None,
            ),
        },
{
    match CLRepr::from_python_ref(value) {
        Ok(c) => Ok(c),
        Err(e) => Err(conversion_failure(e)),
    }
}

/// The signal that reports an answer to the dispatcher.
pub fn signal_for_reply(reply: &Result<CLRepr, CallFailure>) -> (s: Signal)
    ensures
        s == match reply {
            Ok(_) => Signal::Returned,
            Err(f) => failure_signal(f.kind),
        },
{
    match reply {
        Ok(_) => Signal::Returned,
        Err(f) => match f.kind {
            ErrorKind::Conversion => Signal::ConversionFailed,
            ErrorKind::Lookup => Signal::LookupFailed,
            _ => Signal::Raised,
        },
    }
}

/// The positional arguments of a call: the image of each argument, in order,
/// followed by the configuration where there is one.
pub fn positional_arguments(args: &Vec<CLRepr>, config: Option<PyValue>) -> (r: Vec<PyValue>)
    ensures
        r@.len() == args@.len() + if config is Some {
            1int
        } else {
            0int
        },
        forall|i: int| 0 <= i < args@.len() ==> represents(#[trigger] r@[i], args@[i]@),
        config matches Some(c) ==> r@[args@.len() as int] == c,
{
    let mut out: Vec<PyValue> = Vec::new();
    let mut i: usize = 0;
    while i < args.len()
        invariant
            i <= args@.len(),
            out@.len() == i,
            forall|j: int| 0 <= j < i ==> represents(#[trigger] out@[j], args@[j]@),
        decreases args.len() - i,
    {
        out.push(args[i].to_py());
        i += 1;
    }
    match config {
        Some(c) => {
            out.push(c);
        },
        None => {},
    }
    out
}

/// `tokio::sync::oneshot::Sender::send`: completes the reply with the value
/// and says whether the receiver was still there to take it. The outcome
/// depends on the receiver, so nothing is claimed of the result.
#[verifier::external_body]
fn oneshot_send(tx: Sender<Result<CLRepr, QuerentError>>, value: Result<CLRepr, QuerentError>) -> (sent:
    bool) {
    tx.send(value).is_ok()
}

/// Where the answer to a call goes.
pub enum PyAsyncCallback {
    /// The one-shot reply that the caller awaits.
    Channel(Sender<Result<CLRepr, QuerentError>>),
}

/// The text that reports a reply nobody waits for.
pub open spec fn reply_lost_text() -> Seq<char> {
    "Unable to send result back to consumer"@
}

/// What completing a reply reports: success when the caller took the
/// answer, and an internal error that says so when the caller no longer
/// waits.
pub fn reply_delivery(sent: bool) -> (r: Result<(), QuerentError>)
    ensures
        sent ==> r is Ok,
        !sent ==> (r matches Err(e) && e.message@ == reply_lost_text() && e.cause
            == QuerentErrorCauseType::Internal(None) && e.backtrace is Some),
{
    if sent {
        Ok(())
    } else {
        Err(QuerentError::internal(String::from_str("Unable to send result back to consumer")))
    }
}

impl PyAsyncCallback {
    /// Completes the reply. The callback is used up, so a call is answered
    /// at most once. Where the caller no longer waits, an internal error
    /// says so.
    pub fn complete(self, result: Result<CLRepr, QuerentError>) -> (r: Result<(), QuerentError>)
        ensures
            r matches Err(e) ==> e.message@ == reply_lost_text() && e.cause
                == QuerentErrorCauseType::Internal(None) && e.backtrace is Some,
    {
        match self {
            PyAsyncCallback::Channel(tx) => reply_delivery(oneshot_send(tx, result)),
        }
    }
}

/// A call as it waits in the dispatcher's queue: the callable by handle, the
/// arguments, where the answer goes, and the configuration as the embedded
/// side sees it.
pub struct PyAsyncFun {
    fun: PythonRef,
    args: Vec<CLRepr>,
    callback: PyAsyncCallback,
    config: Option<PyValue>,
}

impl PyAsyncFun {
    /// A call of the parts given.
    pub fn new(fun: PythonRef, args: Vec<CLRepr>, callback: PyAsyncCallback, config: Option<PyValue>) -> (r:
        Self)
        ensures
            r.parts() == (fun, args, callback, config),
    {
        PyAsyncFun { fun, args, callback, config }
    }

    /// The parts of the call.
    pub closed spec fn parts(self) -> (PythonRef, Vec<CLRepr>, PyAsyncCallback, Option<PyValue>) {
        (self.fun, self.args, self.callback, self.config)
    }

    /// Takes the call apart.
    pub fn split(self) -> (r: (PythonRef, Vec<CLRepr>, PyAsyncCallback, Option<PyValue>))
        ensures
            r == self.parts(),
    {
        (self.fun, self.args, self.callback, self.config)
    }
}

} // verus!
