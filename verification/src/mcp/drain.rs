//! How a shutdown waits for the tool calls that are still running.
//!
//! Every call, and every audit write that one hands to another thread, is
//! registered for as long as it runs. A shutdown cancels them all and waits, for a
//! limited time, until none is registered any more.
use vstd::prelude::*;
use vstd::string::*;

use crate::mcp::error::{ErrorData, ErrorDataV, INTERNAL_ERROR};

verus! {

/// What a call that the shutdown cut off is answered with.
pub const SHUTDOWN_CUT_MESSAGE: &'static str = "server is shutting down";

/// The calls that are registered, and whether the shutdown has begun.
pub struct DispatchDrain {
    inflight: usize,
    cancelled: bool,
}

/// What happens to a drain.
pub enum DrainEvent {
    /// A call or a write begins.
    Opened,
    /// It is over.
    Closed,
    /// The shutdown begins.
    Cancelled,
}

/// How many are registered after these events.
pub open spec fn registered(events: Seq<DrainEvent>) -> nat
    decreases events.len(),
{
    if events.len() == 0 {
        0
    } else {
        let before = registered(events.drop_last());
        match events.last() {
            DrainEvent::Opened => before + 1,
            DrainEvent::Closed => if before > 0 {
                (before - 1) as nat
            } else {
                0
            },
            DrainEvent::Cancelled => before,
        }
    }
}

/// Whether the shutdown has begun after these events.
pub open spec fn shut(events: Seq<DrainEvent>) -> bool {
    exists|i: int| 0 <= i < events.len() && (#[trigger] events[i]) is Cancelled
}

/// How many of these events begin a registration.
pub open spec fn count_opened(events: Seq<DrainEvent>) -> nat
    decreases events.len(),
{
    if events.len() == 0 {
        0
    } else {
        count_opened(events.drop_last()) + if events.last() is Opened {
            1nat
        } else {
            0nat
        }
    }
}

/// How many of these events end a registration.
pub open spec fn count_closed(events: Seq<DrainEvent>) -> nat
    decreases events.len(),
{
    if events.len() == 0 {
        0
    } else {
        count_closed(events.drop_last()) + if events.last() is Closed {
            1nat
        } else {
            0nat
        }
    }
}

/// At no point have more registrations ended than begun.
pub open spec fn balanced(events: Seq<DrainEvent>) -> bool {
    forall|i: int|
        0 <= i <= events.len() ==> count_closed(#[trigger] events.take(i)) <= count_opened(
            events.take(i),
        )
}

/// As many are registered as began and have not ended.
pub proof fn law_registered_are_open(events: Seq<DrainEvent>)
    requires
        balanced(events),
    ensures
        registered(events) == count_opened(events) - count_closed(events),
    decreases events.len(),
{
    if events.len() > 0 {
        let before = events.drop_last();
        assert(balanced(before)) by {
            assert forall|i: int| 0 <= i <= before.len() implies count_closed(
                #[trigger] before.take(i),
            ) <= count_opened(before.take(i)) by {
                assert(before.take(i) =~= events.take(i));
            }
        }
        law_registered_are_open(before);
        assert(events.take(events.len() as int) =~= events);
        assert(count_closed(events.take(events.len() as int)) <= count_opened(
            events.take(events.len() as int),
        ));
    }
}

/// A shutdown that has begun does not end.
pub proof fn law_shutdown_stays(events: Seq<DrainEvent>, more: DrainEvent)
    requires
        shut(events),
    ensures
        shut(events.push(more)),
{
    let i = choose|i: int| 0 <= i < events.len() && (#[trigger] events[i]) is Cancelled;
    assert(events.push(more)[i] is Cancelled);
}

impl DispatchDrain {
    /// How many are registered.
    pub closed spec fn count(self) -> nat {
        self.inflight as nat
    }

    /// Whether the shutdown has begun.
    pub closed spec fn is_cancelled(self) -> bool {
        self.cancelled
    }

    /// The drain has gone through just these events.
    pub open spec fn went_through(self, events: Seq<DrainEvent>) -> bool {
        self.count() == registered(events) && self.is_cancelled() == shut(events)
    }

    /// A drain with nothing registered and no shutdown begun.
    pub fn new() -> (r: DispatchDrain)
        ensures
            r.count() == 0,
            !r.is_cancelled(),
    {
        DispatchDrain { inflight: 0, cancelled: false }
    }

    /// Registers a call or a write.
    pub fn open(&mut self)
        requires
            old(self).count() < usize::MAX,
        ensures
            final(self).count() == old(self).count() + 1,
            final(self).is_cancelled() == old(self).is_cancelled(),
    {
        self.inflight = self.inflight + 1;
    }

    /// Ends a registration.
    pub fn close(&mut self)
        ensures
            final(self).count() == if old(self).count() > 0 {
                (old(self).count() - 1) as nat
            } else {
                0
            },
            final(self).is_cancelled() == old(self).is_cancelled(),
    {
        if self.inflight > 0 {
            self.inflight = self.inflight - 1;
        }
    }

    /// Begins the shutdown.
    pub fn cancel(&mut self)
        ensures
            final(self).is_cancelled(),
            final(self).count() == old(self).count(),
    {
        self.cancelled = true;
    }

    /// Whether nothing is registered any more.
    pub fn is_drained(&self) -> (r: bool)
        ensures
            r == (self.count() == 0),
    {
        self.inflight == 0
    }

    /// How many are registered.
    pub fn inflight(&self) -> (r: usize)
        ensures
            r == self.count(),
    {
        self.inflight
    }

    /// Whether a call may run at all: not once the shutdown has begun.
    pub fn admits(&self) -> (r: bool)
        ensures
            r == !self.is_cancelled(),
    {
        !self.cancelled
    }

    /// What a shutdown reports: nothing where it saw the last registration end in
    /// time, else how many are left.
    pub fn shutdown(&self, drained_in_time: bool) -> (r: usize)
        ensures
            r == if drained_in_time {
                0
            } else {
                self.count()
            },
    {
        if drained_in_time {
            0
        } else {
            self.inflight
        }
    }
}

/// The protocol error of a call that the shutdown cut off.
pub open spec fn cut_error() -> ErrorDataV {
    ErrorDataV { code: INTERNAL_ERROR as int, message: SHUTDOWN_CUT_MESSAGE@, data: None }
}

/// What a registered call comes to: its own outcome, or an error where the
/// shutdown came first and `finished` is `None`.
pub fn track<T>(finished: Option<Result<T, ErrorData>>) -> (r: Result<T, ErrorData>)
    ensures
        match finished {
            Some(outcome) => r == outcome,
            None => r matches Err(e) && e@ == cut_error(),
        },
{
    match finished {
        Some(outcome) => outcome,
        None => Err(
            ErrorData { code: INTERNAL_ERROR, message: SHUTDOWN_CUT_MESSAGE.to_owned(), data: None },
        ),
    }
}

impl DispatchDrain {
    /// Registers a call that begins, and tells whether its body may run at all.
    pub fn begin(&mut self) -> (admitted: bool)
        requires
            old(self).count() < usize::MAX,
        ensures
            began(*old(self), *final(self), admitted),
    {
        self.open();
        self.admits()
    }

    /// Ends the registration of a call, and tells what it comes to. `finished` is
    /// the outcome of its body: `None` where the body did not run to its end.
    pub fn finish<T>(&mut self, finished: Option<Result<T, ErrorData>>) -> (r: Result<T, ErrorData>)
        ensures
            ended(*old(self), *final(self), finished, r),
    {
        self.close();
        track(finished)
    }
}

/// A call was registered, and its body may run unless the shutdown has begun.
pub open spec fn began(before: DispatchDrain, after: DispatchDrain, admitted: bool) -> bool {
    &&& after.count() == before.count() + 1
    &&& after.is_cancelled() == before.is_cancelled()
    &&& admitted == !before.is_cancelled()
}

/// The registration of a call ended, and the call came to `r`.
pub open spec fn ended<T>(
    before: DispatchDrain,
    after: DispatchDrain,
    finished: Option<Result<T, ErrorData>>,
    r: Result<T, ErrorData>,
) -> bool {
    &&& after.count() == if before.count() > 0 {
        (before.count() - 1) as nat
    } else {
        0
    }
    &&& after.is_cancelled() == before.is_cancelled()
    &&& match finished {
        Some(outcome) => r == outcome,
        None => r matches Err(e) && e@ == cut_error(),
    }
}

/// A call that begins after the shutdown is refused: its body may not run, so that
/// it has no outcome, the call comes to the error of a call that was cut off, and
/// as many are registered as before it.
pub proof fn law_call_after_shutdown_is_refused<T>(
    before: DispatchDrain,
    during: DispatchDrain,
    after: DispatchDrain,
    admitted: bool,
    finished: Option<Result<T, ErrorData>>,
    r: Result<T, ErrorData>,
)
    requires
        before.is_cancelled(),
        began(before, during, admitted),
        !admitted ==> finished is None,
        ended(during, after, finished, r),
    ensures
        !admitted,
        r matches Err(e) && e@ == cut_error(),
        after.count() == before.count(),
        after.is_cancelled(),
{
}

/// A call that begins and ends leaves as many registered as before it, whatever it
/// comes to.
pub proof fn law_call_leaves_no_registration<T>(
    before: DispatchDrain,
    during: DispatchDrain,
    after: DispatchDrain,
    admitted: bool,
    finished: Option<Result<T, ErrorData>>,
    r: Result<T, ErrorData>,
)
    requires
        began(before, during, admitted),
        ended(during, after, finished, r),
    ensures
        after.count() == before.count(),
{
}

/// Each step of a drain is the event of that name.
pub proof fn law_drain_follows_events(
    before: DispatchDrain,
    after: DispatchDrain,
    events: Seq<DrainEvent>,
    event: DrainEvent,
)
    requires
        before.went_through(events),
        match event {
            DrainEvent::Opened => after.count() == before.count() + 1 && after.is_cancelled()
                == before.is_cancelled(),
            DrainEvent::Closed => after.count() == (if before.count() > 0 {
                (before.count() - 1) as nat
            } else {
                0
            }) && after.is_cancelled() == before.is_cancelled(),
            DrainEvent::Cancelled => after.count() == before.count() && after.is_cancelled(),
        },
    ensures
        after.went_through(events.push(event)),
{
    let all = events.push(event);
    assert(all.drop_last() =~= events);
    if shut(events) {
        law_shutdown_stays(events, event);
    }
    if shut(all) {
        let i = choose|i: int| 0 <= i < all.len() && (#[trigger] all[i]) is Cancelled;
        if i < events.len() {
            assert(events[i] is Cancelled);
        }
    }
    if event is Cancelled {
        assert(all[events.len() as int] is Cancelled);
    }
}

/// A call that begins before the shutdown may run, and comes to what its body came to.
/// One that was cut off comes to a fault of the server that says why.
pub proof fn law_call_before_shutdown_runs<T>(
    before: DispatchDrain,
    during: DispatchDrain,
    after: DispatchDrain,
    admitted: bool,
    finished: Option<Result<T, ErrorData>>,
    r: Result<T, ErrorData>,
)
    requires
        !before.is_cancelled(),
        began(before, during, admitted),
        ended(during, after, finished, r),
    ensures
        admitted,
        during.count() == before.count() + 1,
        finished matches Some(outcome) ==> r == outcome,
        finished is None ==> (r matches Err(e) && e.code == -32603 && e.message@
            == "server is shutting down"@ && e.data is None),
{
}

/// Registrations that overlap are each counted until they end: whatever was registered
/// before stays registered while others begin and end.
pub proof fn law_registrations_overlap(events: Seq<DrainEvent>)
    ensures
        registered(events.push(DrainEvent::Opened)) == registered(events) + 1,
        registered(events.push(DrainEvent::Opened).push(DrainEvent::Closed)) == registered(events),
        registered(events.push(DrainEvent::Cancelled)) == registered(events),
        registered(Seq::empty()) == 0,
        shut(events.push(DrainEvent::Cancelled)),
        !shut(Seq::empty()),
        shut(events.push(DrainEvent::Opened)) == shut(events),
        shut(events.push(DrainEvent::Closed)) == shut(events),
{
    let opened = events.push(DrainEvent::Opened);
    let closed = events.push(DrainEvent::Closed);
    let cancelled = events.push(DrainEvent::Cancelled);
    assert(opened.drop_last() =~= events);
    assert(cancelled.drop_last() =~= events);
    assert(registered(opened) == registered(events) + 1);
    assert(opened.push(DrainEvent::Closed).drop_last() =~= opened);
    assert(opened.push(DrainEvent::Closed).last() is Closed);
    assert(cancelled[events.len() as int] is Cancelled);
    if shut(events) {
        law_shutdown_stays(events, DrainEvent::Opened);
        law_shutdown_stays(events, DrainEvent::Closed);
    }
    if shut(opened) {
        let i = choose|i: int| 0 <= i < opened.len() && (#[trigger] opened[i]) is Cancelled;
        assert(events[i] is Cancelled);
    }
    if shut(closed) {
        let i = choose|i: int| 0 <= i < closed.len() && (#[trigger] closed[i]) is Cancelled;
        assert(events[i] is Cancelled);
    }
}

} // verus!
