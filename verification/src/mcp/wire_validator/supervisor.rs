//! The watch over the two bridges between the client and the protocol stack.
//!
//! A bridge's exit can be waited for once. What is known of it is kept here, so
//! that no later wait asks for it again.
use vstd::prelude::*;
use vstd::string::*;

verus! {

/// How the task of a bridge ended.
pub enum BridgeExit {
    /// It ended by itself, with this error where it failed.
    Finished(Result<(), String>),
    /// It was aborted.
    Aborted,
    /// It panicked; the text tells how.
    Panicked(String),
}

/// What an exit comes to, by value: `None` where nothing is wrong.
pub open spec fn exit_fault(exit: BridgeExit) -> Option<Seq<char>> {
    match exit {
        BridgeExit::Finished(Ok(())) => None,
        BridgeExit::Finished(Err(e)) => Some(e@),
        BridgeExit::Aborted => None,
        BridgeExit::Panicked(how) => Some("bridge task panic: "@ + how@),
    }
}

/// What a wait comes to, by value: nothing where the exit was known.
pub open spec fn awaited_fault(exit: Option<BridgeExit>) -> Option<Seq<char>> {
    match exit {
        Some(exit) => exit_fault(exit),
        None => None,
    }
}

/// A fault that may be missing, by value.
pub open spec fn fault_of(r: Result<(), String>) -> Option<Seq<char>> {
    match r {
        Ok(()) => None,
        Err(e) => Some(e@),
    }
}

/// What an exit comes to. An abort is no fault: the supervisor asked for it.
pub fn flatten(exit: BridgeExit) -> (r: Result<(), String>)
    ensures
        fault_of(r) == exit_fault(exit),
{
    match exit {
        BridgeExit::Finished(result) => result,
        BridgeExit::Aborted => Ok(()),
        BridgeExit::Panicked(how) => {
            let mut text = "bridge task panic: ".to_owned();
            text.append(how.as_str());
            Err(text)
        },
    }
}

/// One of the two bridges.
#[derive(Debug, Clone, Copy, PartialEq, Eq, Structural)]
pub enum Side {
    /// From the client.
    Inbound,
    /// To the client.
    Outbound,
}

/// What the watch says after an exit.
pub enum Watch {
    /// The other bridge is still running.
    Continue,
    /// The watch is over: with a fault, or because both bridges ended well.
    Over(Result<(), String>),
}

/// What the watch says, by value: `None` where it goes on, else the fault that it is over
/// with, if any.
pub open spec fn watch_view(watch: Watch) -> Option<Option<Seq<char>>> {
    match watch {
        Watch::Continue => None,
        Watch::Over(r) => Some(fault_of(r)),
    }
}

/// What the watch says after an exit, where it may be the first or the second of the two.
pub open spec fn watched(second: bool, exit: BridgeExit) -> Option<Option<Seq<char>>> {
    match exit_fault(exit) {
        Some(fault) => Some(Some(fault)),
        None => if second {
            Some(None)
        } else {
            None
        },
    }
}

/// The fault of two waits: that of the inbound bridge before that of the outbound one.
pub open spec fn first_fault(
    inbound: Option<BridgeExit>,
    outbound: Option<BridgeExit>,
) -> Option<Seq<char>> {
    match awaited_fault(inbound) {
        Some(fault) => Some(fault),
        None => awaited_fault(outbound),
    }
}

/// Which exits are known.
pub struct ValidatorSupervisor {
    inbound_consumed: bool,
    outbound_consumed: bool,
}

impl ValidatorSupervisor {
    /// Whether the exit of a bridge is known.
    pub closed spec fn consumed(self, side: Side) -> bool {
        match side {
            Side::Inbound => self.inbound_consumed,
            Side::Outbound => self.outbound_consumed,
        }
    }

    /// No exit is known.
    pub fn new() -> (r: ValidatorSupervisor)
        ensures
            !r.consumed(Side::Inbound),
            !r.consumed(Side::Outbound),
    {
        ValidatorSupervisor { inbound_consumed: false, outbound_consumed: false }
    }

    /// Whether the exit of a bridge may still be waited for.
    pub fn may_await(&self, side: Side) -> (r: bool)
        ensures
            r == !self.consumed(side),
    {
        match side {
            Side::Inbound => !self.inbound_consumed,
            Side::Outbound => !self.outbound_consumed,
        }
    }

    /// Takes note of an exit that was waited for.
    pub fn consume(&mut self, side: Side)
        ensures
            final(self).consumed(side),
            forall|other: Side| other != side ==> #[trigger] final(self).consumed(other)
                == old(self).consumed(other),
    {
        match side {
            Side::Inbound => {
                self.inbound_consumed = true;
            },
            Side::Outbound => {
                self.outbound_consumed = true;
            },
        }
    }

    /// Whether the watch is over before it waits: both exits are known.
    pub fn nothing_to_watch(&self) -> (r: bool)
        ensures
            r == (self.consumed(Side::Inbound) && self.consumed(Side::Outbound)),
    {
        self.inbound_consumed && self.outbound_consumed
    }

    /// Takes note of an exit during the watch. A fault ends the watch at once;
    /// otherwise it ends with the second exit.
    pub fn watch_for_error(&mut self, side: Side, exit: BridgeExit) -> (r: Watch)
        requires
            !old(self).consumed(side),
        ensures
            final(self).consumed(side),
            forall|other: Side| other != side ==> #[trigger] final(self).consumed(other)
                == old(self).consumed(other),
            match exit_fault(exit) {
                Some(fault) => r matches Watch::Over(Err(e)) && e@ == fault,
                None => if final(self).consumed(Side::Inbound) && final(self).consumed(
                    Side::Outbound,
                ) {
                    r matches Watch::Over(Ok(()))
                } else {
                    r is Continue
                },
            },
            watch_view(r) == watched(
                old(self).consumed(Side::Inbound) || old(self).consumed(Side::Outbound),
                exit,
            ),
    {
        self.consume(side);
        proof {
            let other = match side {
                Side::Inbound => Side::Outbound,
                Side::Outbound => Side::Inbound,
            };
            assert(self.consumed(other) == old(self).consumed(other));
        }
        match flatten(exit) {
            Err(e) => Watch::Over(Err(e)),
            Ok(()) => if self.inbound_consumed && self.outbound_consumed {
                Watch::Over(Ok(()))
            } else {
                Watch::Continue
            },
        }
    }

    /// What a wait for a bridge comes to: `exit` is its exit where it was still
    /// waited for, `None` where the exit was known, and then counts as well.
    pub fn take_or_await(&mut self, side: Side, exit: Option<BridgeExit>) -> (r: Result<
        (),
        String,
    >)
        requires
            exit is Some == !old(self).consumed(side),
        ensures
            final(self).consumed(side),
            forall|other: Side| other != side ==> #[trigger] final(self).consumed(other)
                == old(self).consumed(other),
            fault_of(r) == awaited_fault(exit),
    {
        self.consume(side);
        match exit {
            Some(exit) => flatten(exit),
            None => Ok(()),
        }
    }

    /// What a shutdown after a session that went well comes to: the first fault,
    /// the inbound bridge before the outbound. An exit that was known is not
    /// waited for.
    pub fn drain(self, inbound: Option<BridgeExit>, outbound: Option<BridgeExit>) -> (r: Result<
        (),
        String,
    >)
        requires
            inbound is Some == !self.consumed(Side::Inbound),
            outbound is Some == !self.consumed(Side::Outbound),
        ensures
            fault_of(r) == match awaited_fault(inbound) {
                Some(fault) => Some(fault),
                None => awaited_fault(outbound),
            },
            fault_of(r) == first_fault(inbound, outbound),
    {
        let mut supervisor = self;
        let first = supervisor.take_or_await(Side::Inbound, inbound);
        let second = supervisor.take_or_await(Side::Outbound, outbound);
        match first {
            Ok(()) => second,
            Err(e) => Err(e),
        }
    }

    /// What a shutdown after a failure comes to: only the outbound bridge counts,
    /// for the inbound one is aborted. An exit that was known is not waited for.
    pub fn shutdown_after_failure(
        self,
        inbound: Option<BridgeExit>,
        outbound: Option<BridgeExit>,
    ) -> (r: Result<(), String>)
        requires
            inbound is Some == !self.consumed(Side::Inbound),
            outbound is Some == !self.consumed(Side::Outbound),
        ensures
            fault_of(r) == awaited_fault(outbound),
    {
        let mut supervisor = self;
        let _ = supervisor.take_or_await(Side::Inbound, inbound);
        supervisor.take_or_await(Side::Outbound, outbound)
    }
}

/// A bridge that ended well or was aborted is no fault. One that failed is a fault with
/// its own error, and one that panicked is a fault that tells how.
pub proof fn law_faults_are_told(error: String, how: String)
    ensures
        exit_fault(BridgeExit::Finished(Ok(()))) is None,
        exit_fault(BridgeExit::Aborted) is None,
        exit_fault(BridgeExit::Finished(Err(error))) == Some(error@),
        exit_fault(BridgeExit::Panicked(how)) matches Some(text) && text
            == "bridge task panic: "@ + how@,
        awaited_fault(None) is None,
        awaited_fault(Some(BridgeExit::Finished(Err(error)))) == Some(error@),
        fault_of(Err(error)) == Some(error@),
        fault_of(Ok(())) is None,
{
}

/// A fault of either bridge comes out of a shutdown, and that of the inbound one where
/// both have one. What was known before is no fault any more.
pub proof fn law_no_fault_is_lost(e: String, f: String, other: Option<BridgeExit>)
    ensures
        first_fault(Some(BridgeExit::Finished(Err(e))), other) == Some(e@),
        first_fault(
            Some(BridgeExit::Finished(Ok(()))),
            Some(BridgeExit::Finished(Err(f))),
        ) == Some(f@),
        first_fault(None, Some(BridgeExit::Finished(Err(f)))) == Some(f@),
        first_fault(Some(BridgeExit::Aborted), Some(BridgeExit::Finished(Err(f)))) == Some(f@),
        first_fault(None, None) is None,
        first_fault(Some(BridgeExit::Finished(Ok(()))), Some(BridgeExit::Aborted)) is None,
{
}

/// A fault ends the watch at once, whichever exit it comes with. Without one the watch
/// goes on after the first exit and is over after the second.
pub proof fn law_watch_ends_with_a_fault_or_the_second_exit(e: String, second: bool)
    ensures
        watched(second, BridgeExit::Finished(Err(e))) == Some(Some(e@)),
        watched(false, BridgeExit::Finished(Ok(()))) is None,
        watched(true, BridgeExit::Finished(Ok(()))) == Some(None::<Seq<char>>),
        watched(false, BridgeExit::Aborted) is None,
{
}

} // verus!
