//! The dispatch engine over many listeners: it subscribes them one after the
//! other, gives up on the first subscription that fails, then drives every
//! listener's loop independently of the others.
use vstd::prelude::*;
use vstd::utf8::valid_utf8;
use crate::receive::{next_state, step, LoopAction, LoopEvent, LoopState};

verus! {

/// Where the whole run stands.
#[derive(Debug, Clone, Copy, PartialEq, Eq, Structural)]
pub enum Phase {
    /// Subscriptions are being made, in listener order.
    Subscribing,
    /// Every listener is subscribed and its loop runs.
    Running,
    /// A subscription failed; no loop was started.
    Aborted,
    /// Every loop has ended.
    Finished,
}

/// What the engine asks for after a subscription attempt.
#[derive(Debug, Clone, Copy, PartialEq, Eq, Structural)]
pub enum StartAction {
    /// Subscribe the listener with this index.
    Subscribe(usize),
    /// Every listener is subscribed: start all loops.
    StartLoops,
    /// The subscription of the listener with this index failed: end the run.
    Abort(usize),
    /// Every loop has ended, or there was none: the run is over.
    Done,
    /// No subscription was outstanding.
    Ignored,
}

/// The engine as the contracts see it.
pub ghost struct DispatchView {
    pub phase: Phase,
    pub subscribed: nat,
    pub loops: Seq<LoopState>,
}

/// Every loop of `loops` has ended.
pub open spec fn all_closed(loops: Seq<LoopState>) -> bool {
    forall|i: int| 0 <= i < loops.len() ==> loops[i] == LoopState::Closed
}

/// The engine after listener `i` of a running engine `v` took event `e`.
pub open spec fn delivered<T>(v: DispatchView, i: int, e: LoopEvent<T>) -> DispatchView {
    let loops = v.loops.update(i, next_state(v.loops[i], e));
    DispatchView {
        phase: if all_closed(loops) {
            Phase::Finished
        } else {
            Phase::Running
        },
        subscribed: v.subscribed,
        loops,
    }
}

/// Listeners do not disturb each other: whatever listener `i` is handed (a
/// malformed payload included), a well-formed message then delivered to a
/// waiting listener `j` is taken up for decoding, and `j`'s state is the same
/// as if `i` had received nothing.
pub proof fn lemma_isolation<T>(
    v: DispatchView,
    i: int,
    j: int,
    e: LoopEvent<T>,
    good: Vec<u8>,
)
    requires
        v.phase == Phase::Running,
        0 <= i < v.loops.len(),
        0 <= j < v.loops.len(),
        i != j,
        v.loops[j] == LoopState::Waiting,
        valid_utf8(good@),
    ensures
        delivered(v, i, e).loops[j] == LoopState::Waiting,
        delivered(delivered(v, i, e), j, LoopEvent::<T>::Delivered(good)).loops[j]
            == LoopState::Decoding,
        delivered(delivered(v, i, e), j, LoopEvent::<T>::Delivered(good)).loops[i] == delivered(
            v,
            i,
            e,
        ).loops[i],
{
}

/// The run's state over a fixed set of listeners.
pub struct Dispatcher {
    phase: Phase,
    subscribed: usize,
    loops: Vec<LoopState>,
}

impl View for Dispatcher {
    type V = DispatchView;

    closed spec fn view(&self) -> DispatchView {
        DispatchView { phase: self.phase, subscribed: self.subscribed as nat, loops: self.loops@ }
    }
}

impl Dispatcher {
    /// The engine is consistent: subscriptions are counted up to the number of
    /// listeners, and loops only move once the run is under way.
    pub open spec fn wf(&self) -> bool {
        &&& self@.subscribed <= self@.loops.len()
        &&& (self@.phase == Phase::Subscribing) ==> self@.subscribed < self@.loops.len()
        &&& (self@.phase == Phase::Running || self@.phase == Phase::Finished) ==> self@.subscribed
            == self@.loops.len()
        &&& (self@.phase == Phase::Subscribing || self@.phase == Phase::Aborted) ==> forall|i: int|
            0 <= i < self@.loops.len() ==> self@.loops[i] == LoopState::Waiting
        &&& (self@.phase == Phase::Finished) <==> (self@.phase != Phase::Subscribing
            && self@.phase != Phase::Aborted && all_closed(self@.loops))
    }

    /// A run over `count` listeners, none subscribed yet. With no listener at
    /// all there is nothing to wait for and the run is over at once.
    pub fn new(count: usize) -> (r: Dispatcher)
        ensures
            r.wf(),
            r@.subscribed == 0,
            r@.loops.len() == count,
            forall|i: int| 0 <= i < count ==> r@.loops[i] == LoopState::Waiting,
            r@.phase == (if count == 0 {
                Phase::Finished
            } else {
                Phase::Subscribing
            }),
    {
        let mut loops: Vec<LoopState> = Vec::new();
        let mut i: usize = 0;
        while i < count
            invariant
                i <= count,
                loops@.len() == i,
                forall|j: int| 0 <= j < i ==> loops@[j] == LoopState::Waiting,
            decreases count - i,
        {
            loops.push(LoopState::Waiting);
            i = i + 1;
        }
        let phase = if count == 0 {
            Phase::Finished
        } else {
            Phase::Subscribing
        };
        Dispatcher { phase, subscribed: 0, loops }
    }

    /// The first thing to do: subscribe the first listener, or nothing when
    /// there is none.
    pub fn start(&self) -> (r: StartAction)
        requires
            self.wf(),
        ensures
            self@.phase == Phase::Subscribing ==> r == StartAction::Subscribe(
                self@.subscribed as usize,
            ),
            self@.phase == Phase::Finished ==> r == StartAction::Done,
            (self@.phase == Phase::Running || self@.phase == Phase::Aborted) ==> r
                == StartAction::Ignored,
    {
        match self.phase {
            Phase::Subscribing => StartAction::Subscribe(self.subscribed),
            Phase::Finished => StartAction::Done,
            _ => StartAction::Ignored,
        }
    }

    /// Takes the outcome of the outstanding subscription. The first failure
    /// aborts the whole run; once all have succeeded the loops start.
    pub fn subscription_result(&mut self, ok: bool) -> (r: StartAction)
        requires
            old(self).wf(),
        ensures
            final(self).wf(),
            final(self)@.loops == old(self)@.loops,
            old(self)@.phase != Phase::Subscribing ==> final(self)@ == old(self)@ && r
                == StartAction::Ignored,
            old(self)@.phase == Phase::Subscribing && !ok ==> final(self)@.phase == Phase::Aborted
                && final(self)@.subscribed == old(self)@.subscribed && r == StartAction::Abort(
                old(self)@.subscribed as usize,
            ),
            old(self)@.phase == Phase::Subscribing && ok ==> final(self)@.subscribed
                == old(self)@.subscribed + 1 && if final(self)@.subscribed == old(self)@.loops.len() {
                final(self)@.phase == Phase::Running && r == StartAction::StartLoops
            } else {
                final(self)@.phase == Phase::Subscribing && r == StartAction::Subscribe(
                    final(self)@.subscribed as usize,
                )
            },
    {
        if self.phase != Phase::Subscribing {
            return StartAction::Ignored;
        }
        if !ok {
            self.phase = Phase::Aborted;
            return StartAction::Abort(self.subscribed);
        }
        let n = self.loops.len();
        assert(self.subscribed < n);
        self.subscribed = self.subscribed + 1;
        if self.subscribed == n {
            self.phase = Phase::Running;
            proof {
                assert(!all_closed(self@.loops)) by {
                    assert(self@.loops[0] == LoopState::Waiting);
                }
            }
            StartAction::StartLoops
        } else {
            StartAction::Subscribe(self.subscribed)
        }
    }

    /// Hands event `e` to the loop of listener `i`. Only that loop moves:
    /// every other listener's loop keeps its state. When the last loop ends
    /// the run is over.
    pub fn deliver<T>(&mut self, i: usize, e: LoopEvent<T>) -> (r: LoopAction<T>)
        requires
            old(self).wf(),
        ensures
            final(self).wf(),
            final(self)@.subscribed == old(self)@.subscribed,
            final(self)@.loops.len() == old(self)@.loops.len(),
            forall|j: int|
                0 <= j < old(self)@.loops.len() && j != i ==> final(self)@.loops[j] == old(
                    self,
                )@.loops[j],
            old(self)@.phase == Phase::Running && i < old(self)@.loops.len() ==> final(self)@
                == delivered(old(self)@, i as int, e),
            !(old(self)@.phase == Phase::Running && i < old(self)@.loops.len()) ==> final(self)@
                == old(self)@ && r is Ignored,
    {
        if self.phase != Phase::Running || i >= self.loops.len() {
            return LoopAction::Ignored;
        }
        let (s, action) = step(self.loops[i], e);
        self.loops.set(i, s);
        if self.all_loops_closed() {
            self.phase = Phase::Finished;
        }
        action
    }

    /// Whether every loop has ended.
    fn all_loops_closed(&self) -> (r: bool)
        ensures
            r == all_closed(self@.loops),
    {
        let mut i: usize = 0;
        while i < self.loops.len()
            invariant
                i <= self.loops@.len(),
                forall|j: int| 0 <= j < i ==> self.loops@[j] == LoopState::Closed,
            decreases self.loops@.len() - i,
        {
            if self.loops[i] != LoopState::Closed {
                return false;
            }
            i = i + 1;
        }
        true
    }

    pub fn phase(&self) -> (r: Phase)
        ensures
            r == self@.phase,
    {
        self.phase
    }

    pub fn listener_count(&self) -> (r: usize)
        ensures
            r == self@.loops.len(),
    {
        self.loops.len()
    }

    /// The state of the loop of listener `i`.
    pub fn loop_state(&self, i: usize) -> (r: LoopState)
        requires
            i < self@.loops.len(),
        ensures
            r == self@.loops[i as int],
    {
        self.loops[i]
    }
}

} // verus!
