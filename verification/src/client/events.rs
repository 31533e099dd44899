//! The rules by which an event from the server changes the state of a
//! connection.

use crate::client::state::{serial_after, Capability, Data, Fault, HandleState};
use crate::map::{Object, SERVER_ID_LIMIT};
use crate::object_id::ObjectId;
use crate::protocol::{
    anonymous, interfaces_match_or_anonymous, Argument, Interface, MessageDesc, MessageView,
    ProtocolErrorView,
};
use crate::text::{decimal_text, utf8_lossy};
use crate::types::WaylandErrorView;
use std::sync::Arc;
use vstd::prelude::*;

verus! {

/// The message of the error for an object that the map does not hold.
pub open spec fn unknown_object_text(id: u32) -> Seq<char> {
    "Unknown object "@ + decimal_text(id as nat) + "."@
}

/// The message of the error for an object of another interface than the
/// event expects.
pub open spec fn wrong_interface_text(id: u32, expected: &Interface, actual: &Interface) -> Seq<
    char,
> {
    "Protocol error: server sent object "@ + decimal_text(id as nat) + " for interface "@
        + expected.name@ + ", but it has interface "@ + actual.name@ + "."@
}

/// The message of the error for a new id that cannot be entered.
pub open spec fn invalid_new_id_text(interface: &Interface, id: u32) -> Seq<char> {
    "Protocol error: server tried to create an object \""@ + interface.name@
        + "\" with invalid id "@ + decimal_text(id as nat) + "."@
}

/// The message of the error for a message that cannot be parsed.
pub open spec fn malformed_text() -> Seq<char> {
    "Malformed Wayland message."@
}

/// The name reported for an object that the map does not hold.
pub open spec fn unknown_interface_name() -> Seq<char> {
    "<unknown>"@
}

/// A protocol error that the client detected: no code, no object.
pub open spec fn detected(message: Seq<char>) -> WaylandErrorView {
    WaylandErrorView::Protocol(
        ProtocolErrorView { code: 0, object_id: 0, object_interface: ""@, message },
    )
}

/// Why an event was not delivered.
pub enum EventError {
    /// The event violates the protocol; the error is latched.
    Failed(WaylandErrorView),
    /// The event cannot be handled without a misuse.
    Fault(Fault),
}

/// What raising one argument leads to.
#[verifier::ext_equal]
pub struct RaisedArg<D> {
    /// The state after the argument.
    pub next: HandleState<D>,
    /// The argument over object ids, the count of object arguments checked,
    /// and the object that the argument created, if any.
    pub result: Result<(Argument<ObjectId>, int, Option<ObjectId>), EventError>,
}

/// What raising the arguments of an event leads to.
#[verifier::ext_equal]
pub struct Raised<D> {
    /// The state after the arguments.
    pub next: HandleState<D>,
    /// The arguments over object ids and the object created last, if any.
    pub result: Result<(Seq<Argument<ObjectId>>, Option<ObjectId>), EventError>,
}

/// What is to be done with an event once its arguments are raised.
pub enum Delivery<D> {
    /// The display took care of the event.
    Handled,
    /// The sender was destroyed by the client: the event is dropped, and
    /// the file descriptors it carried are to be closed.
    Swallowed(Seq<i32>),
    /// The event goes to the data of its sender.
    Deliver {
        data: Arc<D>,
        id: ObjectId,
        message: MessageView<ObjectId>,
        created: Option<ObjectId>,
        destructor: bool,
    },
}

/// What receiving an event leads to, before any callback runs.
#[verifier::ext_equal]
pub struct Received<D> {
    /// The state after the event was prepared.
    pub next: HandleState<D>,
    /// What is to be done with the event.
    pub outcome: Result<Delivery<D>, EventError>,
}

/// What running the callback's result into the state leads to.
#[verifier::ext_equal]
pub struct Finished<D> {
    /// The state after the event.
    pub next: HandleState<D>,
    /// Whether the callback's reply fits the event.
    pub result: Result<(), Fault>,
}

/// The file descriptors among `args`, in order.
pub open spec fn fds_of<Id>(args: Seq<Argument<Id>>) -> Seq<i32>
    decreases args.len(),
{
    if args.len() == 0 {
        Seq::empty()
    } else {
        match args.last() {
            Argument::Fd(fd) => fds_of(args.drop_last()).push(fd),
            _ => fds_of(args.drop_last()),
        }
    }
}

/// `object` with both marks set.
pub open spec fn marked_destroyed<D>(object: Object<Data<D>>) -> Object<Data<D>> {
    Object {
        data: Data { client_destroyed: true, server_destroyed: true, ..object.data },
        ..object
    }
}

/// `object` with the server's mark set.
pub open spec fn marked_by_server<D>(object: Object<Data<D>>) -> Object<Data<D>> {
    Object { data: Data { server_destroyed: true, ..object.data }, ..object }
}

impl<D> HandleState<D> {
    /// The error that stands in the latch once `error` has been met: the
    /// first error sticks, and a later one does not replace it.
    pub open spec fn latched_after(self, error: WaylandErrorView) -> WaylandErrorView {
        match self.last_error {
            Some(first) => first,
            None => error,
        }
    }

    /// The state once `error` has been met: it is latched unless an
    /// error is latched already.
    pub open spec fn latch(self, error: WaylandErrorView) -> Self {
        HandleState { last_error: Some(self.latched_after(error)), ..self }
    }

    /// The record that a server-announced object starts with: the
    /// interface the event names, its parent's version and mark, and no
    /// data yet.
    pub open spec fn announced(
        self,
        receiver: Object<Data<D>>,
        interface: &'static Interface,
    ) -> Object<Data<D>> {
        Object {
            interface,
            version: receiver.version,
            data: Data {
                client_destroyed: receiver.data.client_destroyed,
                server_destroyed: false,
                user_data: Capability::Uninit,
                serial: serial_after(self.last_serial),
            },
        }
    }

    /// The map once a record that the client destroyed has made room at
    /// `id` in the server's range.
    pub open spec fn evicted(self, id: u32) -> Map<u32, Object<Data<D>>> {
        if id >= SERVER_ID_LIMIT && self.objects.contains_key(id)
            && self.objects[id].data.client_destroyed {
            self.objects.remove(id)
        } else {
            self.objects
        }
    }

    /// Raises one argument of an event of `receiver`.
    pub open spec fn raise_arg(
        self,
        receiver: Object<Data<D>>,
        desc: &MessageDesc,
        arg: Argument<u32>,
        k: int,
    ) -> RaisedArg<D> {
        match arg {
            Argument::Int(v) => RaisedArg { next: self, result: Ok((Argument::Int(v), k, None)) },
            Argument::Uint(v) => RaisedArg { next: self, result: Ok((Argument::Uint(v), k, None)) },
            Argument::Fixed(v) => RaisedArg {
                next: self,
                result: Ok((Argument::Fixed(v), k, None)),
            },
            Argument::Str(v) => RaisedArg { next: self, result: Ok((Argument::Str(v), k, None)) },
            Argument::Array(v) => RaisedArg {
                next: self,
                result: Ok((Argument::Array(v), k, None)),
            },
            Argument::Fd(v) => RaisedArg { next: self, result: Ok((Argument::Fd(v), k, None)) },
            Argument::Object(o) => if o == 0 {
                RaisedArg {
                    next: self,
                    result: Ok(
                        (
                            Argument::Object(ObjectId { id: 0, serial: 0, interface: anonymous() }),
                            k,
                            None,
                        ),
                    ),
                }
            } else if !self.objects.contains_key(o) {
                let error = detected(unknown_object_text(o));
                RaisedArg {
                    next: self.latch(error),
                    result: Err(EventError::Failed(self.latched_after(error))),
                }
            } else {
                let object = self.objects[o];
                let raised = Argument::Object(
                    ObjectId { id: o, serial: object.data.serial, interface: object.interface },
                );
                if 0 <= k < desc.arg_interfaces@.len() {
                    if interfaces_match_or_anonymous(desc.arg_interfaces@[k], object.interface) {
                        RaisedArg { next: self, result: Ok((raised, k + 1, None)) }
                    } else {
                        let error = detected(
                            wrong_interface_text(o, desc.arg_interfaces@[k], object.interface),
                        );
                        RaisedArg {
                            next: self.latch(error),
                            result: Err(EventError::Failed(self.latched_after(error))),
                        }
                    }
                } else {
                    RaisedArg { next: self, result: Ok((raised, k, None)) }
                }
            },
            Argument::NewId(new_id) => match desc.child_interface {
                None => RaisedArg {
                    next: self,
                    result: Err(EventError::Fault(Fault::MissingChildInterface)),
                },
                Some(interface) => {
                    let room = self.evicted(new_id);
                    let child = self.announced(receiver, interface);
                    let counted = HandleState {
                        objects: room,
                        last_serial: child.data.serial,
                        ..self
                    };
                    if new_id == 0 || room.contains_key(new_id) {
                        let error = detected(invalid_new_id_text(interface, new_id));
                        RaisedArg {
                            next: counted.latch(error),
                            result: Err(EventError::Failed(self.latched_after(error))),
                        }
                    } else {
                        let id = ObjectId { id: new_id, serial: child.data.serial, interface };
                        RaisedArg {
                            next: HandleState { objects: room.insert(new_id, child), ..counted },
                            result: Ok((Argument::NewId(id), k, Some(id))),
                        }
                    }
                },
            },
        }
    }

    /// Raises the arguments from position `i` on, one after the other, and
    /// stops at the first that fails. `k` counts the object arguments
    /// checked so far, `created` is the object created so far.
    pub open spec fn raise_args(
        self,
        receiver: Object<Data<D>>,
        desc: &MessageDesc,
        args: Seq<Argument<u32>>,
        i: int,
        k: int,
        created: Option<ObjectId>,
    ) -> Raised<D>
        decreases args.len() - i,
    {
        if i < 0 || i >= args.len() {
            Raised { next: self, result: Ok((Seq::empty(), created)) }
        } else {
            let step = self.raise_arg(receiver, desc, args[i], k);
            match step.result {
                Err(e) => Raised { next: step.next, result: Err(e) },
                Ok((arg, k2, c)) => {
                    let rest = step.next.raise_args(
                        receiver,
                        desc,
                        args,
                        i + 1,
                        k2,
                        if c is Some {
                            c
                        } else {
                            created
                        },
                    );
                    match rest.result {
                        Err(e) => rest,
                        Ok((tail, last)) => Raised {
                            next: rest.next,
                            result: Ok((seq![arg] + tail, last)),
                        },
                    }
                },
            }
        }
    }

    /// The state once the server has let go of `id`: the record gets the
    /// server's mark, and leaves if the client destroyed it before.
    pub open spec fn delete_id(self, id: u32) -> Self {
        if !self.objects.contains_key(id) {
            self
        } else if self.objects[id].data.client_destroyed {
            HandleState { objects: self.objects.remove(id), ..self }
        } else {
            HandleState {
                objects: self.objects.insert(id, marked_by_server(self.objects[id])),
                ..self
            }
        }
    }

    /// The error that the server reports of the object at `object`, with
    /// the name of that object's interface, or `<unknown>` where the map
    /// holds no such object.
    pub open spec fn server_error(
        self,
        object: u32,
        code: u32,
        message: Seq<char>,
    ) -> WaylandErrorView {
        WaylandErrorView::Protocol(
            ProtocolErrorView {
                code,
                object_id: object,
                object_interface: if self.objects.contains_key(object) {
                    self.objects[object].interface.name@
                } else {
                    unknown_interface_name()
                },
                message,
            },
        )
    }

    /// What an event of the display leads to: `error` latches what the
    /// server reports, `delete_id` lets go of an id.
    pub open spec fn display_event(self, msg: MessageView<u32>) -> Received<D> {
        if msg.opcode == 0 {
            if msg.args.len() == 3 {
                match (msg.args[0], msg.args[1], msg.args[2]) {
                    (Argument::Object(obj), Argument::Uint(code), Argument::Str(text)) => {
                        let error = self.server_error(obj, code, utf8_lossy(text@));
                        Received {
                            next: self.latch(error),
                            outcome: Err(EventError::Failed(self.latched_after(error))),
                        }
                    },
                    _ => Received {
                        next: self,
                        outcome: Err(EventError::Fault(Fault::MalformedDisplayEvent)),
                    },
                }
            } else {
                Received {
                    next: self,
                    outcome: Err(EventError::Fault(Fault::MalformedDisplayEvent)),
                }
            }
        } else if msg.opcode == 1 {
            if msg.args.len() == 1 {
                match msg.args[0] {
                    Argument::Uint(id) => Received {
                        next: self.delete_id(id),
                        outcome: Ok(Delivery::Handled),
                    },
                    _ => Received {
                        next: self,
                        outcome: Err(EventError::Fault(Fault::MalformedDisplayEvent)),
                    },
                }
            } else {
                Received {
                    next: self,
                    outcome: Err(EventError::Fault(Fault::MalformedDisplayEvent)),
                }
            }
        } else {
            Received { next: self, outcome: Err(EventError::Fault(Fault::MalformedDisplayEvent)) }
        }
    }

    /// What receiving `msg` leads to, up to the point where the callback
    /// of its sender is due.
    pub open spec fn receive(self, msg: MessageView<u32>) -> Received<D> {
        if !self.objects.contains_key(msg.sender_id) {
            Received { next: self, outcome: Err(EventError::Fault(Fault::UnknownObject)) }
        } else {
            let receiver = self.objects[msg.sender_id];
            if msg.opcode >= receiver.interface.events@.len() {
                Received { next: self, outcome: Err(EventError::Fault(Fault::UnknownOpcode)) }
            } else if msg.sender_id == 1 {
                self.display_event(msg)
            } else {
                let desc = &receiver.interface.events@[msg.opcode as int];
                let raised = self.raise_args(receiver, desc, msg.args, 0, 0, None);
                match raised.result {
                    Err(e) => Received { next: raised.next, outcome: Err(e) },
                    Ok((args, created)) => if receiver.data.client_destroyed {
                        Received {
                            next: raised.next,
                            outcome: Ok(Delivery::Swallowed(fds_of(args))),
                        }
                    } else {
                        match receiver.data.user_data {
                            Capability::User(data) => {
                                let id = ObjectId {
                                    id: msg.sender_id,
                                    serial: receiver.data.serial,
                                    interface: receiver.interface,
                                };
                                Received {
                                    next: raised.next,
                                    outcome: Ok(
                                        Delivery::Deliver {
                                            data,
                                            id,
                                            message: MessageView {
                                                sender_id: id,
                                                opcode: msg.opcode,
                                                args,
                                            },
                                            created,
                                            destructor: desc.is_destructor,
                                        },
                                    ),
                                }
                            },
                            _ => Received {
                                next: raised.next,
                                outcome: Err(EventError::Fault(Fault::UninitializedObject)),
                            },
                        }
                    },
                }
            }
        }
    }

    /// The state once a destructor event has ended the object at `id`.
    pub open spec fn destroy(self, id: u32) -> Self {
        HandleState {
            objects: self.objects.insert(id, marked_destroyed(self.objects[id])),
            ..self
        }
    }

    /// What the reply of a callback leads to: a destructor event marks its
    /// sender, and the data returned goes to the object created.
    pub open spec fn finish(
        self,
        sender: u32,
        destructor: bool,
        created: Option<ObjectId>,
        reply: Option<Arc<D>>,
    ) -> Finished<D> {
        if destructor && !self.objects.contains_key(sender) {
            Finished { next: self, result: Err(Fault::UnknownObject) }
        } else {
            let ended = if destructor {
                self.destroy(sender)
            } else {
                self
            };
            match (created, reply) {
                (Some(child), Some(data)) => if ended.objects.contains_key(child.id) {
                    Finished { next: ended.attach(child.id, data), result: Ok(()) }
                } else {
                    Finished { next: ended, result: Err(Fault::UnknownObject) }
                },
                (None, None) => Finished { next: ended, result: Ok(()) },
                (Some(_), None) => Finished { next: ended, result: Err(Fault::MissingChildData) },
                (None, Some(_)) => Finished {
                    next: ended,
                    result: Err(Fault::UnexpectedChildData),
                },
            }
        }
    }
}

/// Raising one argument keeps a state well formed.
pub proof fn lemma_raise_arg_keeps_wf<D>(
    s: HandleState<D>,
    receiver: Object<Data<D>>,
    desc: &MessageDesc,
    arg: Argument<u32>,
    k: int,
)
    requires
        s.wf(),
    ensures
        s.raise_arg(receiver, desc, arg, k).next.wf(),
{
}

/// Raising the arguments of an event keeps a state well formed.
pub proof fn lemma_raise_args_keeps_wf<D>(
    s: HandleState<D>,
    receiver: Object<Data<D>>,
    desc: &MessageDesc,
    args: Seq<Argument<u32>>,
    i: int,
    k: int,
    created: Option<ObjectId>,
)
    requires
        s.wf(),
    ensures
        s.raise_args(receiver, desc, args, i, k, created).next.wf(),
    decreases args.len() - i,
{
    if 0 <= i < args.len() {
        let step = s.raise_arg(receiver, desc, args[i], k);
        lemma_raise_arg_keeps_wf(s, receiver, desc, args[i], k);
        match step.result {
            Err(_) => {},
            Ok((_, k2, c)) => {
                lemma_raise_args_keeps_wf(
                    step.next,
                    receiver,
                    desc,
                    args,
                    i + 1,
                    k2,
                    if c is Some {
                        c
                    } else {
                        created
                    },
                );
            },
        }
    }
}

/// Receiving an event keeps a state well formed: the display stays at
/// id 1 whatever the server sends.
pub proof fn lemma_receive_keeps_wf<D>(s: HandleState<D>, msg: MessageView<u32>)
    requires
        s.wf(),
    ensures
        s.receive(msg).next.wf(),
{
    if s.objects.contains_key(msg.sender_id) {
        let receiver = s.objects[msg.sender_id];
        if msg.opcode < receiver.interface.events@.len() && msg.sender_id != 1 {
            let desc = &receiver.interface.events@[msg.opcode as int];
            lemma_raise_args_keeps_wf(s, receiver, desc, msg.args, 0, 0, None);
        }
    }
}

/// Running the reply of a callback into the state keeps it well formed,
/// as long as the event was not one of the display.
pub proof fn lemma_finish_keeps_wf<D>(
    s: HandleState<D>,
    sender: u32,
    destructor: bool,
    created: Option<ObjectId>,
    reply: Option<Arc<D>>,
)
    requires
        s.wf(),
        sender != 1,
    ensures
        s.finish(sender, destructor, created, reply).next.wf(),
{
}

/// An object that the client destroyed gets no event: what arrives for
/// it is dropped, and the file descriptors among its arguments are handed
/// back for closing.
pub proof fn lemma_destroyed_sender_gets_no_event<D>(s: HandleState<D>, msg: MessageView<u32>)
    requires
        s.objects.contains_key(msg.sender_id),
        s.objects[msg.sender_id].data.client_destroyed,
    ensures
        !(s.receive(msg).outcome matches Ok(Delivery::Deliver { .. })),
        msg.sender_id != 1 && msg.opcode < s.objects[msg.sender_id].interface.events@.len() ==> {
            let receiver = s.objects[msg.sender_id];
            let raised = s.raise_args(
                receiver,
                &receiver.interface.events@[msg.opcode as int],
                msg.args,
                0,
                0,
                None,
            );
            raised.result matches Ok((args, _)) ==> s.receive(msg).outcome == Ok::<
                Delivery<D>,
                EventError,
            >(Delivery::Swallowed(fds_of(args)))
        },
{
}

/// When the server lets go of an id, the record there leaves the map if
/// and only if the client destroyed it before; a record that stays has
/// the server's mark and not the client's.
pub proof fn lemma_delete_id_removes_destroyed<D>(s: HandleState<D>, id: u32)
    requires
        s.objects.contains_key(id),
    ensures
        !s.delete_id(id).objects.contains_key(id) <==> s.objects[id].data.client_destroyed,
        s.delete_id(id).objects.contains_key(id) ==> {
            &&& s.delete_id(id).objects[id].data.server_destroyed
            &&& !s.delete_id(id).objects[id].data.client_destroyed
        },
        forall|other: u32|
            other != id ==> (#[trigger] s.delete_id(id).objects.contains_key(other)
                == s.objects.contains_key(other)),
{
}

/// A new id of the server's range whose slot holds a record that the
/// client destroyed takes the place of that record; one whose slot holds
/// a record that is still in use fails, and the error is latched.
pub proof fn lemma_new_id_eviction<D>(
    s: HandleState<D>,
    receiver: Object<Data<D>>,
    desc: &MessageDesc,
    new_id: u32,
    k: int,
)
    requires
        desc.child_interface is Some,
        s.objects.contains_key(new_id),
    ensures
        ({
            let step = s.raise_arg(receiver, desc, Argument::NewId(new_id), k);
            let stale = s.objects[new_id].data.client_destroyed;
            &&& new_id >= SERVER_ID_LIMIT && stale ==> {
                &&& step.result is Ok
                &&& step.next.objects.contains_key(new_id)
                &&& step.next.objects[new_id] == s.announced(receiver, desc.child_interface->0)
                &&& step.next.last_error == s.last_error
            }
            &&& !stale ==> {
                &&& step.result matches Err(EventError::Failed(e))
                &&& step.next.last_error == Some(e)
                &&& step.next.objects == s.objects
            }
        }),
{
    let step = s.raise_arg(receiver, desc, Argument::NewId(new_id), k);
    if !s.objects[new_id].data.client_destroyed {
        assert(s.evicted(new_id) =~= s.objects);
    }
}

} // verus!
