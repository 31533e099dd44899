//! The state of a connection as a plain value, and the rules by which
//! sending a request changes it.

use crate::core_interfaces::{lemma_display_interface, wl_display};
use crate::map::{
    client_range_full, lemma_lowest_free_unique, lowest_free_client_id, Object, SERVER_ID_LIMIT,
};
use crate::object_id::ObjectId;
use crate::protocol::{
    creates_object, interfaces_match, interfaces_match_or_anonymous, signature_matches, AllowNull,
    Argument, ArgumentType, Interface, MessageDesc, MessageView,
};
use crate::types::WaylandErrorView;
use std::sync::Arc;
use vstd::prelude::*;

verus! {

/// What a record holds for the callbacks of its object.
pub enum Capability<D> {
    /// No callbacks: the display, which is handled by the core itself.
    Null,
    /// An object that the server announced and whose data the callback of
    /// its parent has not supplied yet.
    Uninit,
    /// The data that the user attached.
    User(Arc<D>),
}

/// `Arc::clone`: another handle to the same data.
#[verifier::external_body]
pub(crate) fn share<D>(data: &Arc<D>) -> (r: Arc<D>)
    ensures
        r == *data,
{
    Arc::clone(data)
}

impl<D> Clone for Capability<D> {
    fn clone(&self) -> (r: Self)
        ensures
            r == *self,
    {
        match self {
            Capability::Null => Capability::Null,
            Capability::Uninit => Capability::Uninit,
            Capability::User(data) => Capability::User(share(data)),
        }
    }
}

/// What the core keeps of one object besides its interface and version.
pub struct Data<D> {
    pub client_destroyed: bool,
    pub server_destroyed: bool,
    pub user_data: Capability<D>,
    pub serial: u32,
}

/// A misuse that the caller's program must not commit; the transport layer
/// treats each as fatal.
#[derive(Clone, Copy, Debug, PartialEq, Eq, Structural)]
pub enum Fault {
    /// The opcode names no message of the sender's interface.
    UnknownOpcode,
    /// The arguments do not fit the signature of the message.
    SignatureMismatch,
    /// The placeholder names another interface than the request creates.
    WrongPlaceholderInterface,
    /// The placeholder names another version than the sender has.
    WrongPlaceholderVersion,
    /// A generic constructor was sent without a placeholder that names the
    /// interface.
    GenericConstructor,
    /// A request creates an object and no data was given for it.
    MissingObjectData,
    /// A new-id argument is not a placeholder.
    NotAPlaceholder,
    /// The descriptor lists no interface for an object argument.
    MissingArgumentInterface,
    /// An object argument has another interface than the request expects.
    WrongArgumentInterface,
    /// A null object was given where the request wants an object.
    NullObject,
    /// Every id of the client range is taken.
    IdsExhausted,
    /// The map holds no record where the protocol needs one.
    UnknownObject,
    /// A display event does not have the arguments of its kind.
    MalformedDisplayEvent,
    /// An event creates an object and its descriptor names no interface.
    MissingChildInterface,
    /// An event reached an object that has no user data.
    UninitializedObject,
    /// A callback created an object and returned no data for it.
    MissingChildData,
    /// A callback returned data though its event created no object.
    UnexpectedChildData,
}

/// Why a request was not sent.
#[derive(Clone, Copy, Debug, PartialEq, Eq, Structural)]
pub enum SendError {
    /// An error is latched: the connection is dead and takes no request.
    Latched,
    /// The sender or an object argument is stale, destroyed or unknown.
    InvalidId,
    /// The request is a misuse.
    Fault(Fault),
}

/// The serial after `s`: the counter wraps.
pub open spec fn serial_after(s: u32) -> u32 {
    if s == u32::MAX {
        0
    } else {
        (s + 1) as u32
    }
}

/// The lowest free id of the client range.
pub open spec fn fresh_client_id<Data>(objects: Map<u32, Object<Data>>) -> u32 {
    choose|id: u32| lowest_free_client_id(objects, id)
}

/// There is at most one lowest free id.
pub proof fn lemma_fresh_client_id<Data>(objects: Map<u32, Object<Data>>, id: u32)
    requires
        lowest_free_client_id(objects, id),
    ensures
        fresh_client_id(objects) == id,
{
    lemma_lowest_free_unique(objects, fresh_client_id(objects), id);
}

/// Where an id of the client range is free, one of them is the lowest.
pub proof fn lemma_lowest_free_exists<Data>(objects: Map<u32, Object<Data>>, j: u32)
    requires
        2 <= j < SERVER_ID_LIMIT,
        !objects.contains_key(j),
    ensures
        lowest_free_client_id(objects, fresh_client_id(objects)),
    decreases j,
{
    if forall|i: u32| 2 <= i < j ==> objects.contains_key(i) {
        assert(lowest_free_client_id(objects, j));
    } else {
        let i = choose|i: u32| 2 <= i < j && !objects.contains_key(i);
        lemma_lowest_free_exists(objects, i);
    }
}

/// The state of a connection.
#[verifier::ext_equal]
pub struct HandleState<D> {
    /// The live records, by protocol id.
    pub objects: Map<u32, Object<Data<D>>>,
    /// The first error that stuck, if any.
    pub last_error: Option<WaylandErrorView>,
    /// The serial given to the object created last.
    pub last_serial: u32,
    /// What the last placeholder said of the object to create.
    pub pending_placeholder: Option<(&'static Interface, u32)>,
    /// The requests that wait for the transport, oldest first.
    pub outgoing: Seq<MessageView<u32>>,
    /// Whether messages are traced.
    pub debug: bool,
}

/// What sending a request leads to.
#[verifier::ext_equal]
pub struct Sent<D> {
    /// The state after the call.
    pub next: HandleState<D>,
    /// The id of the object created, `None` where the request creates
    /// none, or why nothing was sent.
    pub reply: Result<Option<ObjectId>, SendError>,
}

/// Whether every new-id argument is a placeholder.
pub open spec fn placeholders_only(args: Seq<Argument<ObjectId>>) -> bool {
    forall|i: int|
        0 <= i < args.len() ==> match #[trigger] args[i] {
            Argument::NewId(p) => p.id == 0,
            _ => true,
        }
}

/// `done` before what is still to come, or the error that is to come.
pub open spec fn after_lowered(
    done: Seq<Argument<u32>>,
    rest: Result<Seq<Argument<u32>>, SendError>,
) -> Result<Seq<Argument<u32>>, SendError> {
    match rest {
        Ok(rest) => Ok(done + rest),
        Err(e) => Err(e),
    }
}

/// Lowers the arguments from position `i` on to their wire form, or gives
/// the first error met. `k` counts the object arguments checked so far;
/// `child` is the id that new-id arguments carry.
pub open spec fn lower_args<D>(
    objects: Map<u32, Object<Data<D>>>,
    desc: &MessageDesc,
    args: Seq<Argument<ObjectId>>,
    child: u32,
    i: int,
    k: int,
) -> Result<Seq<Argument<u32>>, SendError>
    decreases args.len() - i,
{
    if i < 0 || i >= args.len() {
        Ok(Seq::empty())
    } else {
        match lower_arg(objects, desc, args[i], child, i, k) {
            Err(e) => Err(e),
            Ok((arg, k2)) => match lower_args(objects, desc, args, child, i + 1, k2) {
                Err(e) => Err(e),
                Ok(rest) => Ok(seq![arg] + rest),
            },
        }
    }
}

/// Lowers the argument at position `i`, and counts it if it is an object.
pub open spec fn lower_arg<D>(
    objects: Map<u32, Object<Data<D>>>,
    desc: &MessageDesc,
    arg: Argument<ObjectId>,
    child: u32,
    i: int,
    k: int,
) -> Result<(Argument<u32>, int), SendError> {
    match arg {
        Argument::Int(v) => Ok((Argument::Int(v), k)),
        Argument::Uint(v) => Ok((Argument::Uint(v), k)),
        Argument::Fixed(v) => Ok((Argument::Fixed(v), k)),
        Argument::Str(v) => Ok((Argument::Str(v), k)),
        Argument::Array(v) => Ok((Argument::Array(v), k)),
        Argument::Fd(v) => Ok((Argument::Fd(v), k)),
        Argument::NewId(_) => Ok((Argument::NewId(child), k)),
        Argument::Object(o) => if o.id != 0 {
            if !(objects.contains_key(o.id) && objects[o.id].data.serial == o.serial) {
                Err(SendError::InvalidId)
            } else if k >= desc.arg_interfaces@.len() {
                Err(SendError::Fault(Fault::MissingArgumentInterface))
            } else if !interfaces_match_or_anonymous(
                desc.arg_interfaces@[k],
                objects[o.id].interface,
            ) {
                Err(SendError::Fault(Fault::WrongArgumentInterface))
            } else {
                Ok((Argument::Object(o.id), k + 1))
            }
        } else if 0 <= i < desc.signature@.len() && desc.signature@[i] == ArgumentType::Object(
            AllowNull::Yes,
        ) {
            Ok((Argument::Object(0u32), k))
        } else {
            Err(SendError::Fault(Fault::NullObject))
        },
    }
}

impl<D> HandleState<D> {
    /// The state of a fresh connection: the display at id 1, and nothing
    /// else.
    pub open spec fn initial(debug: bool) -> Self {
        HandleState {
            objects: Map::empty().insert(
                1u32,
                Object {
                    interface: wl_display(),
                    version: 1,
                    data: Data {
                        client_destroyed: false,
                        server_destroyed: false,
                        user_data: Capability::Null,
                        serial: 0,
                    },
                },
            ),
            last_error: None,
            last_serial: 0,
            pending_placeholder: None,
            outgoing: Seq::empty(),
            debug,
        }
    }

    /// Whether `id` names a record of the map: one is held at its protocol
    /// id, and its serial is that of `id`.
    pub open spec fn valid(self, id: ObjectId) -> bool {
        self.objects.contains_key(id.id) && self.objects[id.id].data.serial == id.serial
    }

    /// Whether `id` names a record that the client has not destroyed.
    pub open spec fn live(self, id: ObjectId) -> bool {
        self.valid(id) && !self.objects[id.id].data.client_destroyed
    }

    /// The null id holds no record, and id 1 is the display, which the
    /// client cannot destroy.
    pub open spec fn wf(self) -> bool {
        &&& !self.objects.contains_key(0)
        &&& self.objects.contains_key(1)
        &&& self.objects[1].interface == wl_display()
        &&& self.objects[1].version == 1
        &&& self.objects[1].data.serial == 0
        &&& !self.objects[1].data.client_destroyed
    }

    /// What the operations open to callbacks can make of a state: no
    /// record leaves, none changes its interface, version or serial, the
    /// client's mark only ever gets set, the server's mark and the error
    /// latch stay, and the queue of requests only grows.
    pub open spec fn evolves(self, next: Self) -> bool {
        &&& forall|id: u32| #[trigger]
            self.objects.contains_key(id) ==> {
                &&& next.objects.contains_key(id)
                &&& next.objects[id].interface == self.objects[id].interface
                &&& next.objects[id].version == self.objects[id].version
                &&& next.objects[id].data.serial == self.objects[id].data.serial
                &&& next.objects[id].data.server_destroyed
                    == self.objects[id].data.server_destroyed
                &&& self.objects[id].data.client_destroyed
                    ==> next.objects[id].data.client_destroyed
            }
        &&& next.last_error == self.last_error
        &&& next.debug == self.debug
        &&& self.outgoing.len() <= next.outgoing.len()
        &&& next.outgoing.subrange(0, self.outgoing.len() as int) == self.outgoing
        &&& self.wf() ==> next.wf()
    }

    /// The interface and version of the object that a request creates:
    /// `None` where it creates none.
    pub open spec fn child_spec(self, sender_version: u32, desc: &MessageDesc) -> Result<
        Option<(&'static Interface, u32)>,
        Fault,
    > {
        if !creates_object(desc.signature@) {
            Ok(None)
        } else {
            match self.pending_placeholder {
                Some((iface, version)) => match desc.child_interface {
                    Some(child_interface) => if !interfaces_match(child_interface, iface) {
                        Err(Fault::WrongPlaceholderInterface)
                    } else if version != sender_version {
                        Err(Fault::WrongPlaceholderVersion)
                    } else {
                        Ok(Some((iface, version)))
                    },
                    None => Ok(Some((iface, version))),
                },
                None => match desc.child_interface {
                    Some(child_interface) => Ok(Some((child_interface, sender_version))),
                    None => Err(Fault::GenericConstructor),
                },
            }
        }
    }

    /// The state once a fresh object with `data` is in the map at `id`: the
    /// placeholder is used up and the serial counter has moved.
    pub open spec fn with_child(
        self,
        id: u32,
        interface: &'static Interface,
        version: u32,
        data: Arc<D>,
    ) -> Self {
        HandleState {
            objects: self.objects.insert(
                id,
                Object {
                    interface,
                    version,
                    data: Data {
                        client_destroyed: false,
                        server_destroyed: false,
                        user_data: Capability::User(data),
                        serial: serial_after(self.last_serial),
                    },
                },
            ),
            last_serial: serial_after(self.last_serial),
            pending_placeholder: None,
            ..self
        }
    }

    /// The state once `data` is attached to the record at `id`.
    pub open spec fn attach(self, id: u32, data: Arc<D>) -> Self {
        HandleState {
            objects: self.objects.insert(
                id,
                Object {
                    data: Data { user_data: Capability::User(data), ..self.objects[id].data },
                    ..self.objects[id]
                },
            ),
            ..self
        }
    }

    /// The state once the client has marked the record at `id` destroyed.
    pub open spec fn client_destroy(self, id: u32) -> Self {
        HandleState {
            objects: self.objects.insert(
                id,
                Object {
                    data: Data { client_destroyed: true, ..self.objects[id].data },
                    ..self.objects[id]
                },
            ),
            ..self
        }
    }

    /// Lowers the arguments in the state `self`, in which the child, if
    /// any, is in the map already; queues the request; marks the sender
    /// if the request is a destructor.
    pub open spec fn send_lowered(
        self,
        msg: MessageView<ObjectId>,
        desc: &MessageDesc,
        child: Option<ObjectId>,
    ) -> Sent<D> {
        let child_id = match child {
            Some(c) => c.id,
            None => 0u32,
        };
        match lower_args(self.objects, desc, msg.args, child_id, 0, 0) {
            Err(e) => Sent { next: self, reply: Err(e) },
            Ok(args) => {
                let queued = HandleState {
                    outgoing: self.outgoing.push(
                        MessageView { sender_id: msg.sender_id.id, opcode: msg.opcode, args },
                    ),
                    ..self
                };
                Sent {
                    next: if desc.is_destructor {
                        queued.client_destroy(msg.sender_id.id)
                    } else {
                        queued
                    },
                    reply: Ok(child),
                }
            },
        }
    }

    /// What sending `msg` with `data` for the object it creates leads to.
    /// A connection with an error latched takes no request: nothing
    /// changes.
    pub open spec fn send(self, msg: MessageView<ObjectId>, data: Option<Arc<D>>) -> Sent<D> {
        let id = msg.sender_id;
        if self.last_error is Some {
            Sent { next: self, reply: Err(SendError::Latched) }
        } else if !self.live(id) {
            Sent { next: self, reply: Err(SendError::InvalidId) }
        } else {
            let sender = self.objects[id.id];
            if msg.opcode >= sender.interface.requests@.len() {
                Sent { next: self, reply: Err(SendError::Fault(Fault::UnknownOpcode)) }
            } else {
                let desc = &sender.interface.requests@[msg.opcode as int];
                if !signature_matches(desc.signature@, msg.args) {
                    Sent { next: self, reply: Err(SendError::Fault(Fault::SignatureMismatch)) }
                } else if !placeholders_only(msg.args) {
                    Sent { next: self, reply: Err(SendError::Fault(Fault::NotAPlaceholder)) }
                } else {
                    match self.child_spec(sender.version, desc) {
                        Err(f) => Sent { next: self, reply: Err(SendError::Fault(f)) },
                        Ok(None) => self.send_lowered(msg, desc, None),
                        Ok(Some((interface, version))) => match data {
                            None => Sent {
                                next: self,
                                reply: Err(SendError::Fault(Fault::MissingObjectData)),
                            },
                            Some(d) => if client_range_full(self.objects) {
                                Sent {
                                    next: self,
                                    reply: Err(SendError::Fault(Fault::IdsExhausted)),
                                }
                            } else {
                                let child_id = fresh_client_id(self.objects);
                                let created = self.with_child(child_id, interface, version, d);
                                created.send_lowered(
                                    msg,
                                    desc,
                                    Some(
                                        ObjectId {
                                            id: child_id,
                                            serial: serial_after(self.last_serial),
                                            interface,
                                        },
                                    ),
                                )
                            },
                        },
                    }
                }
            }
        }
    }
}

/// Lowering and queueing a request lets the state evolve, as long as a
/// destructor is not sent on the display.
pub proof fn lemma_send_lowered_evolves<D>(
    s: HandleState<D>,
    msg: MessageView<ObjectId>,
    desc: &MessageDesc,
    child: Option<ObjectId>,
)
    requires
        s.objects.contains_key(msg.sender_id.id),
        desc.is_destructor ==> msg.sender_id.id != 1,
    ensures
        s.evolves(s.send_lowered(msg, desc, child).next),
{
    let next = s.send_lowered(msg, desc, child).next;
    assert(next.outgoing.subrange(0, s.outgoing.len() as int) =~= s.outgoing);
}

/// Sending a request lets the state evolve: whatever a callback sends,
/// the records it found stay what they were.
pub proof fn lemma_send_evolves<D>(
    s: HandleState<D>,
    msg: MessageView<ObjectId>,
    data: Option<Arc<D>>,
)
    requires
        s.wf(),
    ensures
        s.evolves(s.send(msg, data).next),
{
    lemma_display_interface();
    lemma_evolves_reflexive(s);
    let id = msg.sender_id;
    if s.last_error is None && s.live(id) {
        let sender = s.objects[id.id];
        if msg.opcode < sender.interface.requests@.len() {
            let desc = &sender.interface.requests@[msg.opcode as int];
            if signature_matches(desc.signature@, msg.args) && placeholders_only(msg.args) {
                match s.child_spec(sender.version, desc) {
                    Err(_) => {},
                    Ok(None) => {
                        lemma_send_lowered_evolves(s, msg, desc, None);
                    },
                    Ok(Some((interface, version))) => {
                        if data is Some && !client_range_full(s.objects) {
                            let j = choose|j: u32|
                                2 <= j < SERVER_ID_LIMIT && !s.objects.contains_key(j);
                            lemma_lowest_free_exists(s.objects, j);
                            let child_id = fresh_client_id(s.objects);
                            let created = s.with_child(child_id, interface, version, data->0);
                            assert(created.outgoing.subrange(0, s.outgoing.len() as int)
                                =~= s.outgoing);
                            assert(s.evolves(created));
                            let child = Some(
                                ObjectId {
                                    id: child_id,
                                    serial: serial_after(s.last_serial),
                                    interface,
                                },
                            );
                            lemma_send_lowered_evolves(created, msg, desc, child);
                            lemma_evolves_transitive(
                                s,
                                created,
                                created.send_lowered(msg, desc, child).next,
                            );
                        }
                    },
                }
            }
        }
    }
}

/// The object that a request creates gets the lowest free id of the client
/// range, and the id returned names it: the record is in the map, with
/// the serial of the id, and it is live.
pub proof fn lemma_created_id_is_lowest_free<D>(
    s: HandleState<D>,
    msg: MessageView<ObjectId>,
    data: Option<Arc<D>>,
)
    requires
        s.send(msg, data).reply matches Ok(Some(_)),
    ensures
        ({
            let child = s.send(msg, data).reply->Ok_0->0;
            &&& lowest_free_client_id(s.objects, child.id)
            &&& child.serial == serial_after(s.last_serial)
            &&& s.send(msg, data).next.live(child)
            &&& s.send(msg, data).next.objects[child.id].interface == child.interface
            &&& data matches Some(d) && s.send(msg, data).next.objects[child.id].data.user_data
                == Capability::User(d)
        }),
{
    let id = msg.sender_id;
    let sender = s.objects[id.id];
    let desc = &sender.interface.requests@[msg.opcode as int];
    let j = choose|j: u32| 2 <= j < SERVER_ID_LIMIT && !s.objects.contains_key(j);
    lemma_lowest_free_exists(s.objects, j);
}

/// A request that goes out leaves its sender in the map, with the server's
/// mark and the data it had; the sender is still live afterwards if and
/// only if the request is no destructor.
pub proof fn lemma_destructor_ends_sender<D>(
    s: HandleState<D>,
    msg: MessageView<ObjectId>,
    data: Option<Arc<D>>,
)
    requires
        s.send(msg, data).reply is Ok,
    ensures
        s.live(msg.sender_id),
        msg.opcode < s.objects[msg.sender_id.id].interface.requests@.len(),
        s.send(msg, data).next.valid(msg.sender_id),
        s.send(msg, data).next.live(msg.sender_id) <==> !s.objects[msg.sender_id.id]
            .interface.requests@[msg.opcode as int].is_destructor,
        s.send(msg, data).next.objects[msg.sender_id.id].data.server_destroyed
            == s.objects[msg.sender_id.id].data.server_destroyed,
        s.send(msg, data).next.objects[msg.sender_id.id].data.user_data
            == s.objects[msg.sender_id.id].data.user_data,
        s.send(msg, data).next.last_error is None,
{
    let id = msg.sender_id;
    let sender = s.objects[id.id];
    let desc = &sender.interface.requests@[msg.opcode as int];
    match s.child_spec(sender.version, desc) {
        Ok(Some((interface, version))) => {
            let j = choose|j: u32| 2 <= j < SERVER_ID_LIMIT && !s.objects.contains_key(j);
            lemma_lowest_free_exists(s.objects, j);
        },
        _ => {},
    }
}

/// Every state evolves to itself.
pub proof fn lemma_evolves_reflexive<D>(s: HandleState<D>)
    ensures
        s.evolves(s),
{
    assert(s.outgoing.subrange(0, s.outgoing.len() as int) =~= s.outgoing);
}

/// What evolves in two steps evolves in one.
pub proof fn lemma_evolves_transitive<D>(a: HandleState<D>, b: HandleState<D>, c: HandleState<D>)
    requires
        a.evolves(b),
        b.evolves(c),
    ensures
        a.evolves(c),
{
    assert(c.outgoing.subrange(0, a.outgoing.len() as int) =~= b.outgoing.subrange(
        0,
        a.outgoing.len() as int,
    ));
    assert forall|id: u32| #[trigger] a.objects.contains_key(id) implies {
        &&& c.objects.contains_key(id)
        &&& c.objects[id].interface == a.objects[id].interface
        &&& c.objects[id].version == a.objects[id].version
        &&& c.objects[id].data.serial == a.objects[id].data.serial
        &&& c.objects[id].data.server_destroyed == a.objects[id].data.server_destroyed
        &&& a.objects[id].data.client_destroyed ==> c.objects[id].data.client_destroyed
    } by {
        assert(b.objects.contains_key(id));
    }
}

} // verus!
