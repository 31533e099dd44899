//! The backend of a connection: the handle, the steps of the dispatch
//! loop that the transport drives, and the barrier that elects one reader
//! among several to drain the socket.

use crate::client::dispatch::{malformed_error, outcome_view, EventFailure, Prepared};
use crate::client::events::{
    detected, lemma_finish_keeps_wf, lemma_receive_keeps_wf, malformed_text, Delivery, EventError,
};
use crate::client::handle::{message_views, Handle, ObjectData};
use crate::client::state::{Fault, HandleState};
use crate::object_id::ObjectId;
use crate::protocol::{ArgumentType, Message, MessageView};
use crate::text::str_eq;
use crate::types::{IoError, NoWaylandLib, WaylandError, WaylandErrorView};
use std::sync::Arc;
use vstd::prelude::*;

verus! {

/// What the transport reports to the dispatch loop.
pub enum SocketEvent {
    /// A round of dispatching starts.
    Begin,
    /// The parser returned a message.
    Parsed(Message<u32>),
    /// The parser needs more bytes.
    MissingData,
    /// The parser needs more file descriptors.
    MissingFd,
    /// The bytes do not form a message.
    Malformed,
    /// The incoming buffers were refilled.
    Filled,
    /// Refilling the incoming buffers failed.
    FillFailed(IoError),
}

/// What the transport is to do next.
pub enum DispatchAction {
    /// Parse one message and report it.
    Parse,
    /// Close these file descriptors, then parse one message and report it.
    Close(Vec<i32>),
    /// Refill the incoming buffers and report how that went.
    Fill,
    /// The round is over, with this result.
    Return(Result<usize, WaylandError>),
    /// The program is at fault; nothing can be done but to stop.
    Fault(Fault),
}

/// What became of one message.
pub enum Dispatched {
    /// The display took care of it.
    Handled,
    /// It was dropped; these file descriptors are to be closed.
    Swallowed(Vec<i32>),
    /// It went to the callback of its sender.
    Delivered,
}

/// The turn of a reader that has released its guard.
#[derive(Clone, Copy, Debug, PartialEq, Eq, Structural)]
pub enum ReadTurn {
    /// This reader is the last: it drains the socket.
    Drain,
    /// Others are still preparing: this reader waits for the round that
    /// follows the one given.
    Wait(usize),
}

/// A reader's claim on the next round of reading. A reader takes its
/// guard before it polls the socket, and gives it up by `read` or by
/// `cancel`.
#[derive(Debug)]
pub struct ReadEventsGuard {
    done: bool,
}

/// The backend of one connection.
pub struct Backend<D> {
    handle: Handle<D>,
    prepared_reads: usize,
    read_serial: usize,
    dispatched: usize,
}

/// Whether the value of the debug setting asks for tracing.
pub open spec fn debug_requested(setting: Option<Seq<char>>) -> bool {
    match setting {
        Some(value) => value == "1"@ || value == "client"@,
        None => false,
    }
}

/// The round after `round`: the counter wraps.
pub open spec fn round_after(round: usize) -> usize {
    if round == usize::MAX {
        0
    } else {
        (round + 1) as usize
    }
}

/// The result of a round that ends because the socket would block.
pub open spec fn blocked_result(dispatched: usize) -> Result<usize, WaylandErrorView> {
    if dispatched == 0 {
        Err(WaylandErrorView::Io(IoError::WouldBlock))
    } else {
        Ok(dispatched)
    }
}

/// The view of the result of a round.
pub open spec fn result_view(r: Result<usize, WaylandError>) -> Result<usize, WaylandErrorView> {
    match r {
        Ok(n) => Ok(n),
        Err(e) => Err(e@),
    }
}

impl<D> Backend<D> {
    /// The state of the connection.
    pub open spec fn state(&self) -> HandleState<D> {
        self.handle_value()@
    }

    /// The number of guards that are out.
    pub closed spec fn prepared_reads(&self) -> usize {
        self.prepared_reads
    }

    /// The number of the current round of reading.
    pub closed spec fn read_serial(&self) -> usize {
        self.read_serial
    }

    /// The number of events delivered in the current round of
    /// dispatching.
    pub closed spec fn dispatched(&self) -> usize {
        self.dispatched
    }

    /// The handle of the backend.
    pub closed spec fn handle_value(&self) -> Handle<D> {
        self.handle
    }

    /// Whether only the handle differs between `self` and `other`.
    pub open spec fn same_but_handle(&self, other: &Self) -> bool {
        &&& self.prepared_reads() == other.prepared_reads()
        &&& self.read_serial() == other.read_serial()
        &&& self.dispatched() == other.dispatched()
    }

    /// Whether only the counters of the barrier differ between `self` and
    /// `other`.
    pub open spec fn same_but_barrier(&self, other: &Self) -> bool {
        &&& self.handle_value() == other.handle_value()
        &&& self.dispatched() == other.dispatched()
    }

    /// A backend for a fresh connection. `wayland_debug` is the value of
    /// the debug setting of the environment, if it is set: `1` and
    /// `client` ask for tracing.
    pub fn connect(wayland_debug: Option<&str>) -> (r: Result<Self, NoWaylandLib>)
        ensures
            r matches Ok(backend) && {
                &&& backend.state() =~= HandleState::<D>::initial(
                    debug_requested(
                        match wayland_debug {
                            Some(value) => Some(value@),
                            None => None,
                        },
                    ),
                )
                &&& backend.state().wf()
                &&& backend.prepared_reads() == 0
                &&& backend.read_serial() == 0
                &&& backend.dispatched() == 0
            },
    {
        let debug = match wayland_debug {
            Some(value) => str_eq(value, "1") || str_eq(value, "client"),
            None => false,
        };
        Ok(Backend { handle: Handle::new(debug), prepared_reads: 0, read_serial: 0, dispatched: 0 })
    }

    /// Hands the queued requests to the transport, oldest first, unless
    /// an error is latched.
    pub fn flush(&mut self) -> (r: Result<Vec<Message<u32>>, WaylandError>)
        ensures
            match r {
                Ok(queue) => {
                    &&& old(self).state().last_error is None
                    &&& message_views(queue@) == old(self).state().outgoing
                    &&& final(self).state() =~= (HandleState {
                        outgoing: Seq::empty(),
                        ..old(self).state()
                    })
                },
                Err(e) => {
                    &&& old(self).state().last_error == Some(e@)
                    &&& final(self).state() =~= old(self).state()
                },
            },
            final(self).same_but_handle(old(self)),
            old(self).state().wf() ==> final(self).state().wf(),
    {
        match self.handle.no_last_error() {
            Ok(_) => Ok(self.handle.take_outgoing()),
            Err(e) => Err(e),
        }
    }

    /// The transport could not flush what it was handed. The transient
    /// would-block condition is handed back and not latched. Any other
    /// error is latched unless one is latched already, and the error that
    /// the latch then holds is handed back: the first error sticks.
    pub fn flush_failed(&mut self, e: IoError) -> (r: WaylandError)
        ensures
            r@ == if e is WouldBlock {
                WaylandErrorView::Io(e)
            } else {
                old(self).state().latched_after(WaylandErrorView::Io(e))
            },
            final(self).state() =~= if e is WouldBlock {
                old(self).state()
            } else {
                old(self).state().latch(WaylandErrorView::Io(e))
            },
            final(self).same_but_handle(old(self)),
            old(self).state().wf() ==> final(self).state().wf(),
    {
        self.handle.store_if_not_wouldblock_and_return_error(e)
    }

    /// The transport could not take a request: the error is latched,
    /// whatever its kind, unless an error is latched already.
    pub fn write_failed(&mut self, e: IoError)
        ensures
            final(self).state() =~= old(self).state().latch(WaylandErrorView::Io(e)),
            final(self).same_but_handle(old(self)),
            old(self).state().wf() ==> final(self).state().wf(),
    {
        let _ = self.handle.store_and_return_error(WaylandError::Io(e));
    }

    /// The number of guards that are out.
    pub fn prepared_read_count(&self) -> (r: usize)
        ensures
            r == self.prepared_reads(),
    {
        self.prepared_reads
    }

    /// The number of events delivered in the current round of
    /// dispatching.
    pub fn dispatched_count(&self) -> (r: usize)
        ensures
            r == self.dispatched(),
    {
        self.dispatched
    }

    /// Latches the error that the server reports through the display: the
    /// object it blames, the code, and the message as text. The error
    /// carries the name of the object's interface, or `<unknown>` where
    /// the map holds no such object. Where an error is latched already
    /// that one stays, and is the one handed back.
    pub fn latch_display_error(&mut self, object: u32, code: u32, message: String) -> (r:
        WaylandError)
        ensures
            r@ == old(self).state().latched_after(
                old(self).state().server_error(object, code, message@),
            ),
            final(self).state() =~= old(self).state().latch(
                old(self).state().server_error(object, code, message@),
            ),
            final(self).same_but_handle(old(self)),
            old(self).state().wf() ==> final(self).state().wf(),
    {
        self.handle.latch_display_error(object, code, message)
    }

    /// The signature of the event `opcode` of the object at `sender`, by
    /// which the transport parses the next message; `None` where the map
    /// holds no such object or its interface no such event.
    pub fn event_signature(&self, sender: u32, opcode: u16) -> (r: Option<&'static [ArgumentType]>)
        ensures
            match r {
                Some(signature) => {
                    &&& self.state().objects.contains_key(sender)
                    &&& opcode < self.state().objects[sender].interface.events@.len()
                    &&& signature
                        == self.state().objects[sender].interface.events@[opcode as int].signature
                },
                None => !self.state().objects.contains_key(sender) || opcode
                    >= self.state().objects[sender].interface.events@.len(),
            },
    {
        match self.handle.find(sender) {
            Some(object) => {
                if (opcode as usize) < object.interface.events.len() {
                    Some(object.interface.events[opcode as usize].signature)
                } else {
                    None
                }
            },
            None => None,
        }
    }

    /// The handle of this backend.
    pub fn handle(&mut self) -> (r: &mut Handle<D>)
        ensures
            *r == old(self).handle_value(),
            final(self).handle_value() == *final(r),
            final(self).same_but_handle(old(self)),
    {
        &mut self.handle
    }
}

/// Whether a callback that found the state `before` left it as `mid` and
/// returned `reply`, and running that reply into `mid` gave `after` and
/// `result`.
pub open spec fn callback_ran<D>(
    before: HandleState<D>,
    mid: HandleState<D>,
    reply: Option<Arc<D>>,
    sender: u32,
    destructor: bool,
    created: Option<ObjectId>,
    after: HandleState<D>,
    result: Result<(), Fault>,
) -> bool {
    &&& before.evolves(mid)
    &&& after == mid.finish(sender, destructor, created, reply).next
    &&& result == mid.finish(sender, destructor, created, reply).result
}

/// The fault that a dispatch ended in, if it did.
pub open spec fn fault_of(r: Result<Dispatched, EventFailure>) -> Result<(), Fault> {
    match r {
        Err(EventFailure::Fault(fault)) => Err(fault),
        _ => Ok(()),
    }
}

/// The fault that an action reports, if it does.
pub open spec fn fault_in(action: DispatchAction) -> Result<(), Fault> {
    match action {
        DispatchAction::Fault(fault) => Err(fault),
        _ => Ok(()),
    }
}

/// Whether a callback that found the state `before` can have led to the
/// state `after` and the result `r`.
pub open spec fn callback_dispatched<D>(
    before: HandleState<D>,
    sender: u32,
    destructor: bool,
    created: Option<ObjectId>,
    after: HandleState<D>,
    r: Result<Dispatched, EventFailure>,
) -> bool {
    &&& match r {
        Ok(Dispatched::Delivered) => true,
        Err(EventFailure::Fault(_)) => true,
        _ => false,
    }
    &&& exists|mid: HandleState<D>, reply: Option<Arc<D>>| #[trigger]
        callback_ran(before, mid, reply, sender, destructor, created, after, fault_of(r))
}

/// Whether taking `msg` in the state `before` can end in the state
/// `after` with the result `r`.
///
/// Where no callback is due, the state and the result are those of
/// `receive`. Where one is due, it ran on what `receive` left, and its
/// reply was run into the state it left behind, which is some evolution
/// of the former.
pub open spec fn message_dispatched<D>(
    before: HandleState<D>,
    msg: MessageView<u32>,
    after: HandleState<D>,
    r: Result<Dispatched, EventFailure>,
) -> bool {
    let received = before.receive(msg);
    match received.outcome {
        Err(e) => {
            &&& after =~= received.next
            &&& r matches Err(failure)
            &&& failure@ == e
        },
        Ok(Delivery::Deliver { id, created, destructor, .. }) => callback_dispatched(
            received.next,
            id.id,
            destructor,
            created,
            after,
            r,
        ),
        Ok(delivery) => {
            &&& after =~= received.next
            &&& r matches Ok(done)
            &&& done.settles(delivery)
        },
    }
}

impl Dispatched {
    /// Whether this is what the prepared event `delivery` comes to when no
    /// callback is due.
    pub open spec fn settles<D>(self, delivery: Delivery<D>) -> bool {
        match delivery {
            Delivery::Handled => self is Handled,
            Delivery::Swallowed(fds) => self matches Dispatched::Swallowed(close) && close@ == fds,
            Delivery::Deliver { .. } => false,
        }
    }
}

impl<D> Backend<D> {
    /// Prepares an event for its sender: the display's events are handled
    /// at once, the arguments of the others are raised to object ids and
    /// the objects they announce are entered into the map. An event for
    /// an object that the client destroyed is dropped, and the file
    /// descriptors it carried are handed back for closing.
    pub fn prepare_event(&mut self, msg: Message<u32>) -> (r: Result<Prepared<D>, EventFailure>)
        ensures
            final(self).state() =~= old(self).state().receive(msg@).next,
            outcome_view(r) == old(self).state().receive(msg@).outcome,
            final(self).same_but_handle(old(self)),
            old(self).state().wf() ==> final(self).state().wf(),
    {
        proof {
            if self.state().wf() {
                lemma_receive_keeps_wf(self.state(), msg@);
            }
        }
        self.handle.receive_event(msg)
    }
}

impl<D: ObjectData> Backend<D> {
    /// Runs the reply of a callback into the state: a destructor event
    /// marks its sender destroyed and notifies `data`, and the data
    /// returned goes to the object that the event created. A reply that
    /// does not fit the event is a misuse.
    pub fn finish_event(
        &mut self,
        data: &Arc<D>,
        sender: ObjectId,
        destructor: bool,
        created: Option<ObjectId>,
        reply: Option<Arc<D>>,
    ) -> (r: Result<(), Fault>)
        ensures
            final(self).state() =~= old(self).state().finish(
                sender.id,
                destructor,
                created,
                reply,
            ).next,
            r == old(self).state().finish(sender.id, destructor, created, reply).result,
            final(self).same_but_handle(old(self)),
            old(self).state().wf() && sender.id != 1 ==> final(self).state().wf(),
    {
        proof {
            if self.state().wf() && sender.id != 1 {
                lemma_finish_keeps_wf(self.state(), sender.id, destructor, created, reply);
            }
        }
        self.handle.finish_event(data, sender, destructor, created, reply)
    }

    /// Takes one message from the server through the connection.
    ///
    /// Where no callback is due, the state and the result are those of
    /// `receive`. Where one is due, it runs on what `receive` left, and
    /// its reply is run into the state it left behind, which is some
    /// evolution of the former.
    pub fn dispatch_message(&mut self, msg: Message<u32>) -> (r: Result<Dispatched, EventFailure>)
        requires
            old(self).state().wf(),
        ensures
            final(self).state().wf(),
            final(self).same_but_handle(old(self)),
            message_dispatched(old(self).state(), msg@, final(self).state(), r),
    {
        proof {
            lemma_receive_keeps_wf(self.handle@, msg@);
        }
        match self.prepare_event(msg) {
            Err(e) => Err(e),
            Ok(Prepared::Handled) => Ok(Dispatched::Handled),
            Ok(Prepared::Swallowed(fds)) => Ok(Dispatched::Swallowed(fds)),
            Ok(Prepared::Deliver { data, id, message, created, destructor }) => {
                let ghost before = self.handle@;
                let reply = data.event(&mut self.handle, message);
                let ghost mid = self.handle@;
                let finished = self.finish_event(&data, id, destructor, created, reply);
                let r = match finished {
                    Ok(_) => Ok(Dispatched::Delivered),
                    Err(fault) => Err(EventFailure::Fault(fault)),
                };
                proof {
                    assert(callback_ran(
                        before,
                        mid,
                        reply,
                        id.id,
                        destructor,
                        created,
                        self.handle@,
                        fault_of(r),
                    ));
                }
                r
            },
        }
    }

    /// One step of the dispatch loop: takes what the transport reports
    /// and says what it is to do next.
    ///
    /// A round begins with `Begin`, which refuses when an error is
    /// latched. Each message parsed is dispatched; one that reaches a
    /// callback counts. Where the parser lacks data the buffers are to be
    /// refilled; where that would block the round ends, with the count,
    /// or with the would-block error if nothing was delivered. Any other
    /// failure, and a malformed message, is latched and ends the round.
    pub fn dispatch_events(&mut self, event: SocketEvent) -> (action: DispatchAction)
        requires
            old(self).state().wf(),
            event is Parsed ==> old(self).dispatched() < usize::MAX,
        ensures
            final(self).state().wf(),
            final(self).prepared_reads() == old(self).prepared_reads(),
            final(self).read_serial() == old(self).read_serial(),
            match event {
                SocketEvent::Begin => match old(self).state().last_error {
                    Some(e) => {
                        &&& action matches DispatchAction::Return(Err(latched))
                        &&& latched@ == e
                        &&& final(self).state() =~= old(self).state()
                        &&& final(self).dispatched() == old(self).dispatched()
                    },
                    None => {
                        &&& action is Parse
                        &&& final(self).state() =~= old(self).state()
                        &&& final(self).dispatched() == 0
                    },
                },
                SocketEvent::MissingData | SocketEvent::MissingFd => {
                    &&& action is Fill
                    &&& final(self).state() =~= old(self).state()
                    &&& final(self).dispatched() == old(self).dispatched()
                },
                SocketEvent::Filled => {
                    &&& action is Parse
                    &&& final(self).state() =~= old(self).state()
                    &&& final(self).dispatched() == old(self).dispatched()
                },
                SocketEvent::Malformed => {
                    &&& action matches DispatchAction::Return(Err(e))
                    &&& e@ == old(self).state().latched_after(detected(malformed_text()))
                    &&& final(self).state() =~= old(self).state().latch(
                        detected(malformed_text()),
                    )
                    &&& final(self).dispatched() == old(self).dispatched()
                },
                SocketEvent::FillFailed(e) => {
                    &&& final(self).dispatched() == old(self).dispatched()
                    &&& action matches DispatchAction::Return(result)
                    &&& if e is WouldBlock {
                        &&& result_view(result) == blocked_result(old(self).dispatched())
                        &&& final(self).state() =~= old(self).state()
                    } else {
                        &&& result_view(result) == Err::<usize, WaylandErrorView>(
                            old(self).state().latched_after(WaylandErrorView::Io(e)),
                        )
                        &&& final(self).state() =~= old(self).state().latch(
                            WaylandErrorView::Io(e),
                        )
                    }
                },
                SocketEvent::Parsed(msg) => {
                    let received = old(self).state().receive(msg@);
                    match received.outcome {
                        Err(EventError::Failed(e)) => {
                            &&& action matches DispatchAction::Return(Err(failed))
                            &&& failed@ == e
                            &&& final(self).state() =~= received.next
                            &&& final(self).dispatched() == old(self).dispatched()
                        },
                        Err(EventError::Fault(fault)) => {
                            &&& action matches DispatchAction::Fault(f)
                            &&& f == fault
                            &&& final(self).state() =~= received.next
                            &&& final(self).dispatched() == old(self).dispatched()
                        },
                        Ok(Delivery::Handled) => {
                            &&& action is Parse
                            &&& final(self).state() =~= received.next
                            &&& final(self).dispatched() == old(self).dispatched()
                        },
                        Ok(Delivery::Swallowed(fds)) => {
                            &&& action matches DispatchAction::Close(close)
                            &&& close@ == fds
                            &&& final(self).state() =~= received.next
                            &&& final(self).dispatched() == old(self).dispatched()
                        },
                        Ok(Delivery::Deliver { id, created, destructor, .. }) => {
                            &&& match action {
                                DispatchAction::Parse => final(self).dispatched() == old(
                                    self,
                                ).dispatched() + 1,
                                DispatchAction::Fault(_) => final(self).dispatched() == old(
                                    self,
                                ).dispatched(),
                                _ => false,
                            }
                            &&& exists|mid: HandleState<D>, reply: Option<Arc<D>>| #[trigger]
                                callback_ran(
                                    received.next,
                                    mid,
                                    reply,
                                    id.id,
                                    destructor,
                                    created,
                                    final(self).state(),
                                    fault_in(action),
                                )
                        },
                    }
                },
            },
    {
        match event {
            SocketEvent::Begin => match self.handle.no_last_error() {
                Ok(_) => {
                    self.dispatched = 0;
                    DispatchAction::Parse
                },
                Err(e) => DispatchAction::Return(Err(e)),
            },
            SocketEvent::MissingData => DispatchAction::Fill,
            SocketEvent::MissingFd => DispatchAction::Fill,
            SocketEvent::Filled => DispatchAction::Parse,
            SocketEvent::Malformed => {
                let e = self.handle.store_and_return_error(malformed_error());
                DispatchAction::Return(Err(e))
            },
            SocketEvent::FillFailed(e) => {
                if !e.is_would_block() {
                    let e = self.handle.store_and_return_error(WaylandError::Io(e));
                    DispatchAction::Return(Err(e))
                } else if self.dispatched == 0 {
                    DispatchAction::Return(Err(WaylandError::Io(e)))
                } else {
                    DispatchAction::Return(Ok(self.dispatched))
                }
            },
            SocketEvent::Parsed(msg) => match self.dispatch_message(msg) {
                Ok(Dispatched::Handled) => DispatchAction::Parse,
                Ok(Dispatched::Swallowed(fds)) => DispatchAction::Close(fds),
                Ok(Dispatched::Delivered) => {
                    self.dispatched = self.dispatched + 1;
                    DispatchAction::Parse
                },
                Err(EventFailure::Failed(e)) => DispatchAction::Return(Err(e)),
                Err(EventFailure::Fault(f)) => DispatchAction::Fault(f),
            },
        }
    }
}

/// The turn of the reader that releases its guard when `prepared` guards
/// are out in the round `round`: the last one drains.
pub open spec fn turn_of(prepared: usize, round: usize) -> ReadTurn {
    if prepared == 1 {
        ReadTurn::Drain
    } else {
        ReadTurn::Wait(round)
    }
}

/// Of `n` readers that release their guards one after the other, the
/// last and only the last drains the socket; the others wait for the
/// round to end.
pub proof fn lemma_one_drainer(n: usize, round: usize, k: usize)
    requires
        k < n,
    ensures
        turn_of((n - k) as usize, round) is Drain <==> k == n - 1,
        k < n - 1 ==> turn_of((n - k) as usize, round) == ReadTurn::Wait(round),
{
}

impl ReadEventsGuard {
    /// Whether the guard has been given up.
    pub closed spec fn done(&self) -> bool {
        self.done
    }

    /// Takes a guard: one more reader prepares to read.
    pub fn try_new<D>(backend: &mut Backend<D>) -> (r: Result<Self, WaylandError>)
        requires
            old(backend).prepared_reads() < usize::MAX,
        ensures
            r matches Ok(guard) && !guard.done(),
            final(backend).prepared_reads() == old(backend).prepared_reads() + 1,
            final(backend).read_serial() == old(backend).read_serial(),
            final(backend).same_but_barrier(old(backend)),
    {
        backend.prepared_reads = backend.prepared_reads + 1;
        Ok(ReadEventsGuard { done: false })
    }

    /// Gives the guard up to read: the last reader to do so drains the
    /// socket, the others wait until the round is over.
    pub fn read<D>(self, backend: &mut Backend<D>) -> (turn: ReadTurn)
        requires
            !self.done(),
            old(backend).prepared_reads() >= 1,
        ensures
            turn == turn_of(old(backend).prepared_reads(), old(backend).read_serial()),
            final(backend).prepared_reads() == old(backend).prepared_reads() - 1,
            final(backend).read_serial() == old(backend).read_serial(),
            final(backend).same_but_barrier(old(backend)),
    {
        backend.prepared_reads = backend.prepared_reads - 1;
        if backend.prepared_reads == 0 {
            ReadTurn::Drain
        } else {
            ReadTurn::Wait(backend.read_serial)
        }
    }

    /// Gives the guard up without reading. Where it was the last one out,
    /// the round ends all the same, and `true` says that the waiting
    /// readers are to be woken. A guard given up before changes nothing.
    pub fn cancel<D>(&mut self, backend: &mut Backend<D>) -> (wake: bool)
        requires
            !old(self).done() ==> old(backend).prepared_reads() >= 1,
        ensures
            final(self).done(),
            wake == (!old(self).done() && old(backend).prepared_reads() == 1),
            final(backend).prepared_reads() == if old(self).done() {
                old(backend).prepared_reads()
            } else {
                (old(backend).prepared_reads() - 1) as usize
            },
            final(backend).read_serial() == if wake {
                round_after(old(backend).read_serial())
            } else {
                old(backend).read_serial()
            },
            final(backend).same_but_barrier(old(backend)),
    {
        if self.done {
            return false;
        }
        self.done = true;
        backend.prepared_reads = backend.prepared_reads - 1;
        if backend.prepared_reads == 0 {
            backend.read_serial = backend.read_serial.wrapping_add(1);
            true
        } else {
            false
        }
    }
}

impl<D> Backend<D> {
    /// Ends the round after the drainer has run the dispatch loop: the
    /// waiting readers are to be woken.
    pub fn finish_read(&mut self)
        ensures
            final(self).read_serial() == round_after(old(self).read_serial()),
            final(self).prepared_reads() == old(self).prepared_reads(),
            final(self).same_but_barrier(old(self)),
    {
        self.read_serial = self.read_serial.wrapping_add(1);
    }

    /// What a reader that waits for the round after `round` returns:
    /// `None` while that round lasts; then the latched error, if there is
    /// one, and otherwise 0, for another reader has dispatched the events.
    pub fn wake(&self, round: usize) -> (r: Option<Result<usize, WaylandError>>)
        ensures
            match r {
                None => self.read_serial() == round,
                Some(Ok(n)) => self.read_serial() != round && n == 0 && self.state().last_error
                    is None,
                Some(Err(e)) => self.read_serial() != round && self.state().last_error == Some(
                    e@,
                ),
            },
    {
        if self.read_serial == round {
            None
        } else {
            match self.handle.no_last_error() {
                Ok(_) => Some(Ok(0)),
                Err(e) => Some(Err(e)),
            }
        }
    }
}

} // verus!
