//! Per-socket waker slots and the one-shot event-flag word that lets the
//! driver-facing layer wake futures suspended on a socket.
//!
//! Waking a slot hands its waker back to the caller, which invokes it; the
//! slot is empty afterwards, so each registered waker is invoked at most once.
use vstd::prelude::*;

verus! {

/// No event.
pub const EVENT_NONE: u32 = 0;

/// The socket has data to read.
pub const EVENT_READABLE: u32 = 1;

/// The socket can take data to write.
pub const EVENT_WRITABLE: u32 = 2;

/// The remote side closed its sending half.
pub const EVENT_RCLOSED: u32 = 4;

/// The local sending half is closed.
pub const EVENT_WCLOSED: u32 = 8;

/// A set of readiness events reported by the driver.
#[derive(Clone, Copy, PartialEq, Eq, Structural)]
pub struct EventFlags(pub u32);

/// Whether `flags` asks the receiving side to be woken.
pub open spec fn wakes_recv(flags: u32) -> bool {
    flags & (EVENT_RCLOSED | EVENT_READABLE) != EVENT_NONE
}

/// At most one registered waker.
pub struct WakerRegistration<W> {
    waker: Option<W>,
}

impl<W> View for WakerRegistration<W> {
    type V = Option<W>;

    closed spec fn view(&self) -> Option<W> {
        self.waker
    }
}

impl<W> WakerRegistration<W> {
    /// An empty slot.
    pub fn new() -> (r: Self)
        ensures
            r@ is None,
    {
        WakerRegistration { waker: None }
    }

    /// Stores `waker`, replacing any earlier one.
    pub fn register(&mut self, waker: W)
        ensures
            final(self)@ == Some(waker),
    {
        self.waker = Some(waker);
    }

    /// Empties the slot and returns the waker to invoke, if one was registered.
    pub fn wake(&mut self) -> (r: Option<W>)
        ensures
            r == old(self)@,
            final(self)@ is None,
    {
        self.waker.take()
    }
}

/// The abstract state of an [`AsyncWakerSocket`].
pub struct SocketState<W> {
    /// The most recently delivered, not yet read, event flags.
    pub event_flags: u32,
    pub send_waker: Option<W>,
    pub recv_waker: Option<W>,
}

/// The wakers that an operation hands back for invocation.
pub struct Wakeups<W> {
    pub send: Option<W>,
    pub recv: Option<W>,
}

/// State after a read of the event flags: the word is cleared.
pub open spec fn after_read<W>(s: SocketState<W>) -> SocketState<W> {
    SocketState { event_flags: EVENT_NONE, ..s }
}

/// State after delivering `flags`: the word is replaced (not merged) and
/// the receive waker is consumed when the flags ask for it.
pub open spec fn after_event<W>(s: SocketState<W>, flags: u32) -> SocketState<W> {
    SocketState {
        event_flags: flags,
        recv_waker: if wakes_recv(flags) {
            None
        } else {
            s.recv_waker
        },
        ..s
    }
}

/// State after close: both slots empty.
pub open spec fn after_close<W>(s: SocketState<W>) -> SocketState<W> {
    SocketState { send_waker: None, recv_waker: None, ..s }
}

/// The async bridge between driver-reported socket events and suspended
/// futures: one send waker, one receive waker ("last registration wins")
/// and the latest event flags.
pub struct AsyncWakerSocket<W> {
    event_flags: u32,
    send_waker: WakerRegistration<W>,
    recv_waker: WakerRegistration<W>,
}

impl<W> View for AsyncWakerSocket<W> {
    type V = SocketState<W>;

    closed spec fn view(&self) -> SocketState<W> {
        SocketState {
            event_flags: self.event_flags,
            send_waker: self.send_waker@,
            recv_waker: self.recv_waker@,
        }
    }
}

impl<W> AsyncWakerSocket<W> {
    /// A socket with no waker registered and no event.
    pub fn new() -> (r: Self)
        ensures
            r@.event_flags == EVENT_NONE,
            r@.send_waker is None,
            r@.recv_waker is None,
    {
        AsyncWakerSocket {
            send_waker: WakerRegistration::new(),
            recv_waker: WakerRegistration::new(),
            event_flags: EVENT_NONE,
        }
    }

    /// Registers the waker of the sending side, replacing any earlier one.
    pub fn register_exclusive_send_waker(&mut self, waker: W)
        ensures
            final(self)@ == (SocketState { send_waker: Some(waker), ..old(self)@ }),
    {
        self.send_waker.register(waker);
    }

    /// Registers the waker of the receiving side, replacing any earlier one.
    pub fn register_exclusive_recv_waker(&mut self, waker: W)
        ensures
            final(self)@ == (SocketState { recv_waker: Some(waker), ..old(self)@ }),
    {
        self.recv_waker.register(waker);
    }

    /// Returns the stored event flags and clears them: a one-shot read.
    pub fn get_event_flags(&mut self) -> (r: EventFlags)
        ensures
            r.0 == old(self)@.event_flags,
            final(self)@ == after_read(old(self)@),
    {
        let flags = self.event_flags;
        self.event_flags = EVENT_NONE;
        EventFlags(flags)
    }

    fn wake_send(&mut self) -> (r: Option<W>)
        ensures
            r == old(self)@.send_waker,
            final(self)@ == (SocketState { send_waker: None, ..old(self)@ }),
    {
        self.send_waker.wake()
    }

    fn wake_recv(&mut self) -> (r: Option<W>)
        ensures
            r == old(self)@.recv_waker,
            final(self)@ == (SocketState { recv_waker: None, ..old(self)@ }),
    {
        self.recv_waker.wake()
    }

    /// Teardown: hands back both wakers, registered or not, and empties
    /// both slots, so that no future waits forever on this socket.
    pub fn close(&mut self) -> (r: Wakeups<W>)
        ensures
            r.send == old(self)@.send_waker,
            r.recv == old(self)@.recv_waker,
            final(self)@ == after_close(old(self)@),
    {
        let send = self.wake_send();
        let recv = self.wake_recv();
        Wakeups { send, recv }
    }

    /// Delivers new readiness `flags`. The receive waker is handed back when
    /// the flags hold "remote closed" or "readable"; the send waker is left
    /// alone. The flags replace any unread earlier flags.
    pub fn send_event(&mut self, event_flags: EventFlags) -> (r: Wakeups<W>)
        ensures
            r.send is None,
            r.recv == (if wakes_recv(event_flags.0) {
                old(self)@.recv_waker
            } else {
                None
            }),
            final(self)@ == after_event(old(self)@, event_flags.0),
    {
        let mut recv = None;
        if event_flags.0 & (EVENT_RCLOSED | EVENT_READABLE) != EVENT_NONE {
            recv = self.wake_recv();
        }
        self.event_flags = event_flags.0;
        Wakeups { send: None, recv }
    }
}

/// Two reads of the event flags with no event between them give the stored
/// flags, then none.
pub proof fn lemma_read_twice<W>(s: SocketState<W>)
    ensures
        after_read(s).event_flags == EVENT_NONE,
        after_read(after_read(s)).event_flags == EVENT_NONE,
        after_read(s).send_waker == s.send_waker,
        after_read(s).recv_waker == s.recv_waker,
{
}

/// Close hands back each waker exactly once, registered or not: afterwards
/// both slots are empty, so a second close hands back nothing.
pub proof fn lemma_close_wakes_each_once<W>(s: SocketState<W>)
    ensures
        after_close(s).send_waker is None,
        after_close(s).recv_waker is None,
        after_close(after_close(s)) == after_close(s),
        after_close(s).event_flags == s.event_flags,
{
}

} // verus!
