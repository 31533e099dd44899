//! The connection as callers hold it: the backend, and a handle that
//! forwards to the backend's.

use crate::client::backend::{Backend, ReadEventsGuard};
use crate::client::handle::{message_views, Handle, ObjectData};
use crate::client::backend::debug_requested;
use crate::client::state::{
    fresh_client_id, lemma_lowest_free_exists, serial_after, Capability, HandleState, SendError,
};
use crate::map::SERVER_ID_LIMIT;
use crate::protocol::{ArgList, Argument, MessageView};
use crate::core_interfaces::{lemma_display_sync, wl_callback, wl_display};
use crate::map::client_range_full;
use crate::object_id::ObjectId;
use crate::protocol::{anonymous, Interface, Message, ObjectInfo};
use crate::types::{InvalidId, IoError, WaylandError};
use std::sync::Arc;
use vstd::prelude::*;
use vstd::string::StringExecFns;

verus! {

/// Why no connection could be made.
#[derive(Clone, Copy, Debug, PartialEq, Eq, Structural)]
pub enum ConnectError {
    /// The system library could not be loaded.
    NoWaylandLib,
    /// No compositor is listening.
    NoCompositor,
    /// The socket inherited from the environment is no file descriptor.
    InvalidFd,
}

impl ConnectError {
    /// The text of the error.
    pub open spec fn text(self) -> Seq<char> {
        match self {
            ConnectError::NoWaylandLib => "The wayland library could not be loaded"@,
            ConnectError::NoCompositor => "Could not find wayland compositor"@,
            ConnectError::InvalidFd => "WAYLAND_SOCKET was set but contained garbage"@,
        }
    }

    /// Renders the error.
    pub fn to_string(&self) -> (s: String)
        ensures
            s@ == self.text(),
    {
        match self {
            ConnectError::NoWaylandLib => String::from_str(
                "The wayland library could not be loaded",
            ),
            ConnectError::NoCompositor => String::from_str("Could not find wayland compositor"),
            ConnectError::InvalidFd => String::from_str(
                "WAYLAND_SOCKET was set but contained garbage",
            ),
        }
    }
}

/// Where the socket of the compositor is to be had.
#[derive(Clone, Copy, Debug, PartialEq, Eq, Structural)]
pub enum ConnectTarget {
    /// The environment hands down an open socket, by its descriptor.
    Inherited(i32),
    /// The socket is to be opened under the runtime directory, by the
    /// name of the display.
    Named,
}

/// The value of a decimal digit, `None` for any other character.
pub open spec fn digit_of(c: char) -> Option<nat> {
    if c == '0' {
        Some(0)
    } else if c == '1' {
        Some(1)
    } else if c == '2' {
        Some(2)
    } else if c == '3' {
        Some(3)
    } else if c == '4' {
        Some(4)
    } else if c == '5' {
        Some(5)
    } else if c == '6' {
        Some(6)
    } else if c == '7' {
        Some(7)
    } else if c == '8' {
        Some(8)
    } else if c == '9' {
        Some(9)
    } else {
        None
    }
}

/// The number that a run of decimal digits stands for; `None` where the
/// run is empty or holds another character.
pub open spec fn digits_value(digits: Seq<char>) -> Option<nat>
    decreases digits.len(),
{
    if digits.len() == 0 {
        None
    } else {
        match digit_of(digits.last()) {
            None => None,
            Some(d) => if digits.len() == 1 {
                Some(d)
            } else {
                match digits_value(digits.drop_last()) {
                    None => None,
                    Some(v) => Some(v * 10 + d),
                }
            },
        }
    }
}

/// The number that `text` reads as: an optional sign, `+` or `-`, then
/// one or more decimal digits and nothing else; `None` where the text has
/// another form or the number does not fit.
pub open spec fn parsed_fd(text: Seq<char>) -> Option<i32> {
    let signed = text.len() > 0 && (text[0] == '-' || text[0] == '+');
    let negative = text.len() > 0 && text[0] == '-';
    let digits = if signed {
        text.subrange(1, text.len() as int)
    } else {
        text
    };
    match digits_value(digits) {
        None => None,
        Some(v) => if negative {
            if v <= 0x8000_0000 {
                Some((0 - v) as i32)
            } else {
                None
            }
        } else if v <= 0x7fff_ffff {
            Some(v as i32)
        } else {
            None
        },
    }
}

/// `str::parse::<i32>`: the number that the text reads as, in base ten with
/// an optional sign; `None` where it is no number or does not fit.
#[verifier::external_body]
fn parse_fd(text: &str) -> (r: Option<i32>)
    ensures
        r == parsed_fd(text@),
{
    text.parse::<i32>().ok()
}

/// Where to connect, given what the environment holds: the descriptor
/// that the socket setting reads as, if that is set, and whether the
/// runtime directory and the display name are set.
pub open spec fn target_for(
    socket: Option<Option<i32>>,
    runtime_dir: bool,
    display: bool,
) -> Result<ConnectTarget, ConnectError> {
    match socket {
        Some(Some(fd)) => Ok(ConnectTarget::Inherited(fd)),
        Some(None) => Err(ConnectError::InvalidFd),
        None => if runtime_dir && display {
            Ok(ConnectTarget::Named)
        } else {
            Err(ConnectError::NoCompositor)
        },
    }
}

/// Chooses where to connect. A socket setting wins over the named
/// socket, and one that is no number is an error; without it both the
/// runtime directory and the display name are needed.
pub fn choose_target(socket: Option<Option<i32>>, runtime_dir: bool, display: bool) -> (r: Result<
    ConnectTarget,
    ConnectError,
>)
    ensures
        r == target_for(socket, runtime_dir, display),
{
    match socket {
        Some(Some(fd)) => Ok(ConnectTarget::Inherited(fd)),
        Some(None) => Err(ConnectError::InvalidFd),
        None => {
            if runtime_dir && display {
                Ok(ConnectTarget::Named)
            } else {
                Err(ConnectError::NoCompositor)
            }
        },
    }
}

/// A connection to the compositor.
pub struct Connection<D> {
    backend: Backend<D>,
}

/// A handle to the protocol state of a connection.
pub struct ConnectionHandle<'a, D> {
    pub handle: &'a mut Handle<D>,
}

impl<D> Connection<D> {
    /// The backend of the connection as a value.
    pub closed spec fn backend_value(&self) -> Backend<D> {
        self.backend
    }

    /// Chooses where to connect from a snapshot of the environment: the
    /// value of the socket setting, if set, and whether the runtime
    /// directory and the display name are set.
    pub fn connect_to_env(wayland_socket: Option<&str>, runtime_dir: bool, display: bool) -> (r:
        Result<ConnectTarget, ConnectError>)
        ensures
            r == target_for(
                match wayland_socket {
                    Some(text) => Some(parsed_fd(text@)),
                    None => None,
                },
                runtime_dir,
                display,
            ),
    {
        let socket = match wayland_socket {
            Some(text) => Some(parse_fd(text)),
            None => None,
        };
        choose_target(socket, runtime_dir, display)
    }

    /// A connection over a socket that is open already. `wayland_debug`
    /// is the value of the debug setting of the environment, if set.
    pub fn from_socket(wayland_debug: Option<&str>) -> (r: Result<Connection<D>, ConnectError>)
        ensures
            r matches Ok(connection) && {
                &&& connection.backend_value().state() =~= HandleState::<D>::initial(
                    debug_requested(
                        match wayland_debug {
                            Some(value) => Some(value@),
                            None => None,
                        },
                    ),
                )
                &&& connection.backend_value().state().wf()
                &&& connection.backend_value().prepared_reads() == 0
            },
    {
        match Backend::connect(wayland_debug) {
            Ok(backend) => Ok(Connection { backend }),
            Err(_) => Err(ConnectError::NoWaylandLib),
        }
    }

    /// The connection that `backend` carries.
    pub fn from_backend(backend: Backend<D>) -> (r: Connection<D>)
        ensures
            r.backend_value() == backend,
    {
        Connection { backend }
    }

    /// The backend of the connection.
    pub fn backend(&self) -> (r: &Backend<D>)
        ensures
            *r == self.backend_value(),
    {
        &self.backend
    }

    /// The backend of the connection, to drive it.
    pub fn backend_mut(&mut self) -> (r: &mut Backend<D>)
        ensures
            *r == old(self).backend_value(),
            final(self).backend_value() == *final(r),
    {
        &mut self.backend
    }

    /// Hands the queued requests to the transport, unless an error is
    /// latched.
    pub fn flush(&mut self) -> (r: Result<Vec<Message<u32>>, WaylandError>)
        ensures
            match r {
                Ok(queue) => {
                    &&& old(self).backend_value().state().last_error is None
                    &&& message_views(queue@) == old(self).backend_value().state().outgoing
                    &&& final(self).backend_value().state() =~= (HandleState {
                        outgoing: Seq::empty(),
                        ..old(self).backend_value().state()
                    })
                },
                Err(e) => {
                    &&& old(self).backend_value().state().last_error == Some(e@)
                    &&& final(self).backend_value().state() =~= old(self).backend_value().state()
                },
            },
    {
        self.backend.flush()
    }

    /// Takes a guard for the next round of reading.
    pub fn prepare_read(&mut self) -> (r: Result<ReadEventsGuard, WaylandError>)
        requires
            old(self).backend_value().prepared_reads() < usize::MAX,
        ensures
            r matches Ok(guard) && !guard.done(),
            final(self).backend_value().prepared_reads() == old(
                self,
            ).backend_value().prepared_reads() + 1,
            final(self).backend_value().state() == old(self).backend_value().state(),
    {
        ReadEventsGuard::try_new(&mut self.backend)
    }

    /// What a blocking dispatch returns, given what reading returned once
    /// the socket was readable: a read that would still block means that
    /// another reader was faster, and counts as no event.
    pub fn blocking_dispatch(&self, read: Result<usize, WaylandError>) -> (r: Result<
        usize,
        WaylandError,
    >)
        ensures
            match read {
                Ok(n) => r == Ok::<usize, WaylandError>(n),
                Err(WaylandError::Io(IoError::WouldBlock)) => r == Ok::<usize, WaylandError>(0),
                Err(e) => r == Err::<usize, WaylandError>(e),
            },
    {
        match read {
            Ok(n) => Ok(n),
            Err(WaylandError::Io(IoError::WouldBlock)) => Ok(0),
            Err(e) => Err(e),
        }
    }
}

impl<D> Connection<D> {
    /// A handle to the protocol state of the connection.
    pub fn handle(&mut self) -> (r: ConnectionHandle<'_, D>)
        ensures
            *r.handle == old(self).backend_value().handle_value(),
            final(self).backend_value().handle_value() == *final(r.handle),
    {
        ConnectionHandle { handle: self.backend.handle() }
    }
}

impl<'a, D: ObjectData> ConnectionHandle<'a, D> {
    /// A connection handle over `handle`.
    pub fn from_handle(handle: &'a mut Handle<D>) -> (r: ConnectionHandle<'a, D>)
        ensures
            *r.handle == *old(handle),
            *final(r.handle) == *final(handle),
    {
        ConnectionHandle { handle }
    }

    /// Sends a request; see `Handle::send_request`.
    pub fn send_request(&mut self, msg: Message<ObjectId>, data: Option<Arc<D>>) -> (r: Result<
        ObjectId,
        InvalidId,
    >)
        requires
            old(self).handle@.wf(),
            !(old(self).handle@.send(msg@, data).reply matches Err(SendError::Fault(_))),
        ensures
            final(self).handle@ =~= old(self).handle@.send(msg@, data).next,
            match old(self).handle@.send(msg@, data).reply {
                Ok(Some(child)) => r == Ok::<ObjectId, InvalidId>(child),
                Ok(None) => r == Ok::<ObjectId, InvalidId>(
                    ObjectId { serial: 0, id: 0, interface: anonymous() },
                ),
                Err(_) => r is Err,
            },
    {
        self.handle.send_request(msg, data)
    }

    /// The id of the display.
    pub fn display(&mut self) -> (r: ObjectId)
        ensures
            r == (ObjectId { serial: 0, id: 1, interface: wl_display() }),
            final(self).handle@ == old(self).handle@,
    {
        self.handle.display_id()
    }

    /// A placeholder for the object that the next request creates.
    pub fn placeholder_id(&mut self, spec: Option<(&'static Interface, u32)>) -> (r: ObjectId)
        ensures
            final(self).handle@ =~= if old(self).handle@.last_error is Some {
                old(self).handle@
            } else {
                HandleState { pending_placeholder: spec, ..old(self).handle@ }
            },
            r == (ObjectId {
                serial: 0,
                id: 0,
                interface: match spec {
                    Some((interface, _)) => interface,
                    None => anonymous(),
                },
            }),
    {
        self.handle.placeholder_id(spec)
    }

    /// The null id.
    pub fn null_id(&mut self) -> (r: ObjectId)
        ensures
            r == (ObjectId { serial: 0, id: 0, interface: anonymous() }),
            final(self).handle@ == old(self).handle@,
    {
        self.handle.null_id()
    }

    /// The data attached to a live object.
    pub fn get_object_data(&mut self, id: ObjectId) -> (r: Result<Capability<D>, InvalidId>)
        ensures
            match r {
                Ok(data) => old(self).handle@.live(id) && data == old(
                    self,
                ).handle@.objects[id.id].data.user_data,
                Err(_) => !old(self).handle@.live(id),
            },
            final(self).handle@ == old(self).handle@,
    {
        self.handle.get_data(id)
    }

    /// What is known of a live object.
    pub fn object_info(&mut self, id: ObjectId) -> (r: Result<ObjectInfo, InvalidId>)
        ensures
            match r {
                Ok(info) => old(self).handle@.live(id) && info == (ObjectInfo {
                    id: id.id,
                    interface: old(self).handle@.objects[id.id].interface,
                    version: old(self).handle@.objects[id.id].version,
                }),
                Err(_) => !old(self).handle@.live(id),
            },
            final(self).handle@ == old(self).handle@,
    {
        self.handle.info(id)
    }
}

/// The state once a round trip is under way: a callback with `data` is in
/// the map at the lowest free id, and the `sync` request for it is queued.
pub open spec fn sync_sent<D>(s: HandleState<D>, data: Arc<D>) -> HandleState<D> {
    let id = fresh_client_id(s.objects);
    let created = s.with_child(id, wl_callback(), 1, data);
    HandleState {
        outgoing: s.outgoing.push(
            MessageView { sender_id: 1, opcode: 0, args: seq![Argument::NewId(id)] },
        ),
        ..created
    }
}

impl<D: ObjectData> Connection<D> {
    /// Starts a round trip: asks the display for a callback, to which
    /// `data` is attached. The round trip is over once the event of that
    /// callback has been dispatched. On a connection with an error
    /// latched nothing changes and that error is returned. Where no id is
    /// left for the callback nothing is sent, and the connection counts
    /// as broken.
    pub fn roundtrip(&mut self, data: Arc<D>) -> (r: Result<ObjectId, WaylandError>)
        requires
            old(self).backend_value().state().wf(),
        ensures
            final(self).backend_value().state().wf(),
            ({
                let start = old(self).backend_value().state();
                if start.last_error is Some {
                    &&& r matches Err(e) && Some(e@) == start.last_error
                    &&& final(self).backend_value().state() =~= start
                } else if client_range_full(start.objects) {
                    &&& r == Err::<ObjectId, WaylandError>(WaylandError::Io(IoError::BrokenPipe))
                    &&& final(self).backend_value().state() =~= (HandleState {
                        pending_placeholder: None,
                        ..start
                    })
                } else {
                    &&& r == Ok::<ObjectId, WaylandError>(
                        ObjectId {
                            id: fresh_client_id(start.objects),
                            serial: serial_after(start.last_serial),
                            interface: wl_callback(),
                        },
                    )
                    &&& final(self).backend_value().state() =~= sync_sent(start, data)
                }
            }),
    {
        let handle = self.backend.handle();
        match handle.last_error() {
            Some(e) => {
                return Err(e);
            },
            None => {},
        }
        let display = handle.display_id();
        let placeholder = handle.placeholder_id(None);
        let mut args: Vec<Argument<ObjectId>> = Vec::new();
        args.push(Argument::NewId(placeholder));
        let msg = Message {
            sender_id: display,
            opcode: 0,
            args: ArgList::<ObjectId>::from_vec(args),
        };
        proof {
            lemma_display_sync();
            let s = handle@;
            assert(msg@.args =~= seq![Argument::NewId(placeholder)]);
            if !client_range_full(s.objects) {
                let j = choose|j: u32| 2 <= j < SERVER_ID_LIMIT && !s.objects.contains_key(j);
                lemma_lowest_free_exists(s.objects, j);
                let id = fresh_client_id(s.objects);
                let created = s.with_child(id, wl_callback(), 1, data);
                let desc = &wl_display().requests@[0];
                assert(crate::client::state::lower_args(
                    created.objects,
                    desc,
                    msg@.args,
                    id,
                    1,
                    0,
                ) == Ok::<Seq<Argument<u32>>, SendError>(Seq::empty()));
                assert(crate::client::state::lower_args(
                    created.objects,
                    desc,
                    msg@.args,
                    id,
                    0,
                    0,
                ) == Ok::<Seq<Argument<u32>>, SendError>(
                    seq![Argument::NewId(id)] + Seq::empty(),
                ));
                assert(seq![Argument::<u32>::NewId(id)] + Seq::empty() =~= seq![
                    Argument::NewId(id),
                ]);
            }
        }
        match handle.try_send_request(msg, Some(data)) {
            Ok(callback) => Ok(callback),
            Err(_) => Err(WaylandError::Io(IoError::BrokenPipe)),
        }
    }
}

} // verus!
