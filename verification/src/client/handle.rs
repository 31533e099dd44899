//! The handle of a connection: the object map, the error latch, the serial
//! counter, the pending placeholder and the queue of requests.

use crate::client::events::{marked_by_server, marked_destroyed};
use crate::client::state::{
    after_lowered, lemma_evolves_reflexive, lemma_fresh_client_id, lemma_send_evolves, lower_arg,
    lower_args, placeholders_only, serial_after, Capability, Data, Fault, HandleState, SendError,
};
use crate::core_interfaces::{wl_display, wl_display_interface};
use crate::map::{Object, ObjectMap};
use crate::object_id::ObjectId;
use crate::protocol::{
    anonymous, anonymous_interface, check_for_signature, same_interface,
    same_interface_or_anonymous, signature_creates_object, AllowNull, ArgList,
    Argument, ArgumentType, Interface, Message, MessageDesc, MessageView, ObjectInfo,
};
use crate::types::{InvalidId, IoError, WaylandError, WaylandErrorView};
use std::sync::Arc;
use vstd::prelude::*;

verus! {

/// The data that a user attaches to an object, with the callbacks that
/// the core invokes on it.
pub trait ObjectData: Sized {
    /// An event has arrived for the object. Where the event creates an
    /// object, the callback returns the data for it, and `None` otherwise.
    ///
    /// The callback works on the handle through its public operations,
    /// which only ever let a state evolve.
    fn event(&self, handle: &mut Handle<Self>, msg: Message<ObjectId>) -> (r: Option<Arc<Self>>)
        requires
            old(handle)@.wf(),
        ensures
            old(handle)@.evolves(final(handle)@),
    ;

    /// The object is gone for good.
    fn destroyed(&self, object_id: ObjectId);
}

/// The protocol state of one connection.
pub struct Handle<D> {
    pub(crate) map: ObjectMap<Data<D>>,
    pub(crate) last_error: Option<WaylandError>,
    pub(crate) last_serial: u32,
    pub(crate) pending_placeholder: Option<(&'static Interface, u32)>,
    pub(crate) debug: bool,
    pub(crate) outgoing: Vec<Message<u32>>,
}

/// The views of the messages of a queue, in order.
pub open spec fn message_views(queue: Seq<Message<u32>>) -> Seq<MessageView<u32>> {
    Seq::new(queue.len(), |i: int| queue[i]@)
}

/// The view of an error slot.
pub open spec fn error_view(slot: Option<WaylandError>) -> Option<WaylandErrorView> {
    match slot {
        Some(e) => Some(e@),
        None => None,
    }
}

/// `object` with `data` attached.
pub open spec fn with_user_data<D>(object: Object<Data<D>>, data: Arc<D>) -> Object<Data<D>> {
    Object { data: Data { user_data: Capability::User(data), ..object.data }, ..object }
}

impl<D> View for Handle<D> {
    type V = HandleState<D>;

    closed spec fn view(&self) -> HandleState<D> {
        HandleState {
            objects: self.map@,
            last_error: error_view(self.last_error),
            last_serial: self.last_serial,
            pending_placeholder: self.pending_placeholder,
            outgoing: message_views(self.outgoing@),
            debug: self.debug,
        }
    }
}

impl<D> Handle<D> {
    /// The handle of a fresh connection.
    pub(crate) fn new(debug: bool) -> (h: Self)
        ensures
            h@ =~= HandleState::<D>::initial(debug),
            h@.wf(),
    {
        let mut map: ObjectMap<Data<D>> = ObjectMap::new();
        let display = Object {
            interface: wl_display_interface(),
            version: 1,
            data: Data {
                client_destroyed: false,
                server_destroyed: false,
                user_data: Capability::Null,
                serial: 0,
            },
        };
        let _ = map.insert_at(1, display);
        Handle {
            map,
            last_error: None,
            last_serial: 0,
            pending_placeholder: None,
            debug,
            outgoing: Vec::new(),
        }
    }

    /// The id of the display.
    pub fn display_id(&self) -> (r: ObjectId)
        ensures
            r == (ObjectId { serial: 0, id: 1, interface: wl_display() }),
    {
        ObjectId { serial: 0, id: 1, interface: wl_display_interface() }
    }

    /// The error that stuck on this connection, if any. Once there is one
    /// the connection is dead.
    pub fn last_error(&self) -> (r: Option<WaylandError>)
        ensures
            error_view(r) == self@.last_error,
    {
        match &self.last_error {
            Some(e) => Some(e.clone()),
            None => None,
        }
    }

    /// Whether messages are traced.
    pub fn debug(&self) -> (r: bool)
        ensures
            r == self@.debug,
    {
        self.debug
    }

    /// What is known of a live object; `InvalidId` where `id` names none.
    pub fn info(&self, id: ObjectId) -> (r: Result<ObjectInfo, InvalidId>)
        ensures
            match r {
                Ok(info) => self@.live(id) && info == (ObjectInfo {
                    id: id.id,
                    interface: self@.objects[id.id].interface,
                    version: self@.objects[id.id].version,
                }),
                Err(_) => !self@.live(id),
            },
    {
        match self.get_object(id) {
            Ok(object) => {
                if object.data.client_destroyed {
                    Err(InvalidId)
                } else {
                    Ok(
                        ObjectInfo {
                            id: id.id,
                            interface: object.interface,
                            version: object.version,
                        },
                    )
                }
            },
            Err(e) => Err(e),
        }
    }

    /// The null id. It names no object, and stands where a request takes
    /// none.
    pub fn null_id(&mut self) -> (r: ObjectId)
        ensures
            r == (ObjectId { serial: 0, id: 0, interface: anonymous() }),
            *final(self) == *old(self),
    {
        ObjectId { serial: 0, id: 0, interface: anonymous_interface() }
    }

    /// A placeholder for the object that the next request creates. `spec`
    /// names its interface and version where the protocol does not; it
    /// replaces what an earlier placeholder said. On a connection with an
    /// error latched nothing is kept, for no request will follow.
    pub fn placeholder_id(&mut self, spec: Option<(&'static Interface, u32)>) -> (r: ObjectId)
        ensures
            final(self)@ =~= if old(self)@.last_error is Some {
                old(self)@
            } else {
                HandleState { pending_placeholder: spec, ..old(self)@ }
            },
            r == (ObjectId {
                serial: 0,
                id: 0,
                interface: match spec {
                    Some((interface, _)) => interface,
                    None => anonymous(),
                },
            }),
            old(self)@.evolves(final(self)@),
    {
        if self.last_error.is_none() {
            self.pending_placeholder = spec;
        }
        proof {
            lemma_evolves_reflexive(old(self)@);
        }
        ObjectId {
            serial: 0,
            id: 0,
            interface: match spec {
                Some((interface, _)) => interface,
                None => anonymous_interface(),
            },
        }
    }

    /// The data attached to a live object; `InvalidId` where `id` names
    /// none.
    pub fn get_data(&self, id: ObjectId) -> (r: Result<Capability<D>, InvalidId>)
        ensures
            match r {
                Ok(data) => self@.live(id) && data == self@.objects[id.id].data.user_data,
                Err(_) => !self@.live(id),
            },
    {
        match self.get_object(id) {
            Ok(object) => {
                if object.data.client_destroyed {
                    Err(InvalidId)
                } else {
                    Ok(object.data.user_data.clone())
                }
            },
            Err(e) => Err(e),
        }
    }

    /// Attaches `data` to a live object; `InvalidId`, changing nothing,
    /// where `id` names none or an error is latched.
    pub fn set_data(&mut self, id: ObjectId, data: Arc<D>) -> (r: Result<(), InvalidId>)
        ensures
            r is Ok <==> old(self)@.last_error is None && old(self)@.live(id),
            r is Ok ==> final(self)@ =~= old(self)@.attach(id.id, data),
            r is Err ==> final(self)@ =~= old(self)@,
            old(self)@.evolves(final(self)@),
    {
        let live = self.last_error.is_none() && match self.get_object(id) {
            Ok(object) => !object.data.client_destroyed,
            Err(_) => false,
        };
        proof {
            lemma_evolves_reflexive(old(self)@);
        }
        if !live {
            return Err(InvalidId);
        }
        let attach = (move |object: Object<Data<D>>| -> (r: (Object<Data<D>>, ()))
            ensures
                r.0 == with_user_data(object, data),
            {
                let mut object = object;
                object.data.user_data = Capability::User(data);
                (object, ())
            });
        let _ = self.map.with(id.id, attach);
        Ok(())
    }

    /// The next serial of the counter, which wraps.
    pub(crate) fn next_serial(&mut self) -> (r: u32)
        ensures
            r == serial_after(old(self)@.last_serial),
            final(self)@ =~= (HandleState { last_serial: r, ..old(self)@ }),
    {
        self.last_serial = self.last_serial.wrapping_add(1);
        self.last_serial
    }

    /// `Err` with the latched error, if there is one.
    pub(crate) fn no_last_error(&self) -> (r: Result<(), WaylandError>)
        ensures
            match r {
                Ok(_) => self@.last_error is None,
                Err(e) => self@.last_error == Some(e@),
            },
    {
        match &self.last_error {
            Some(e) => Err(e.clone()),
            None => Ok(()),
        }
    }

    /// Latches `err` unless an error is latched already, and hands back
    /// the error that the latch holds: the first one sticks.
    pub(crate) fn store_and_return_error(&mut self, err: WaylandError) -> (r: WaylandError)
        ensures
            r@ == old(self)@.latched_after(err@),
            final(self)@ =~= old(self)@.latch(err@),
    {
        match &self.last_error {
            Some(first) => first.clone(),
            None => {
                self.last_error = Some(err.clone());
                err
            },
        }
    }

    /// Latches `e` unless it is the transient would-block condition or an
    /// error is latched already; hands back the would-block error, or
    /// else the error that the latch holds.
    pub(crate) fn store_if_not_wouldblock_and_return_error(&mut self, e: IoError) -> (r:
        WaylandError)
        ensures
            r@ == if e is WouldBlock {
                WaylandErrorView::Io(e)
            } else {
                old(self)@.latched_after(WaylandErrorView::Io(e))
            },
            final(self)@ =~= if e is WouldBlock {
                old(self)@
            } else {
                old(self)@.latch(WaylandErrorView::Io(e))
            },
    {
        if !e.is_would_block() {
            self.store_and_return_error(WaylandError::Io(e))
        } else {
            WaylandError::Io(e)
        }
    }

    /// The record that `id` names: the one at its protocol id, if the
    /// serials agree.
    pub(crate) fn get_object(&self, id: ObjectId) -> (r: Result<&Object<Data<D>>, InvalidId>)
        ensures
            match r {
                Ok(object) => self@.valid(id) && *object == self@.objects[id.id],
                Err(_) => !self@.valid(id),
            },
    {
        match self.map.find(id.id) {
            Some(object) => {
                if object.data.serial != id.serial {
                    Err(InvalidId)
                } else {
                    Ok(object)
                }
            },
            None => Err(InvalidId),
        }
    }
}

/// Whether every new-id argument is a placeholder.
fn all_placeholders(items: &Vec<Argument<ObjectId>>) -> (r: bool)
    ensures
        r == placeholders_only(items@),
{
    let mut i: usize = 0;
    while i < items.len()
        invariant
            i <= items.len(),
            forall|j: int|
                0 <= j < i ==> match #[trigger] items@[j] {
                    Argument::NewId(p) => p.id == 0,
                    _ => true,
                },
        decreases items.len() - i,
    {
        match &items[i] {
            Argument::NewId(p) => {
                if p.id != 0 {
                    return false;
                }
            },
            _ => {},
        }
        i = i + 1;
    }
    true
}

/// `object` with the client's mark set.
pub open spec fn marked_by_client<D>(object: Object<Data<D>>) -> Object<Data<D>> {
    Object { data: Data { client_destroyed: true, ..object.data }, ..object }
}

impl<D: ObjectData> Handle<D> {
    /// The interface and version of the object that a request of `desc`
    /// creates, as the pending placeholder and the descriptor give them.
    fn resolve_child(&self, sender_version: u32, desc: &MessageDesc) -> (r: Result<
        Option<(&'static Interface, u32)>,
        Fault,
    >)
        ensures
            r == self@.child_spec(sender_version, desc),
    {
        if !signature_creates_object(desc.signature) {
            return Ok(None);
        }
        match self.pending_placeholder {
            Some((iface, version)) => match desc.child_interface {
                Some(child_interface) => {
                    if !same_interface(child_interface, iface) {
                        Err(Fault::WrongPlaceholderInterface)
                    } else if version != sender_version {
                        Err(Fault::WrongPlaceholderVersion)
                    } else {
                        Ok(Some((iface, version)))
                    }
                },
                None => Ok(Some((iface, version))),
            },
            None => match desc.child_interface {
                Some(child_interface) => Ok(Some((child_interface, sender_version))),
                None => Err(Fault::GenericConstructor),
            },
        }
    }

    /// Lowers `items` to their wire form, or gives the first error met.
    fn lower(&self, desc: &MessageDesc, items: Vec<Argument<ObjectId>>, child: u32) -> (r: Result<
        Vec<Argument<u32>>,
        SendError,
    >)
        requires
            desc.signature@.len() == items@.len(),
        ensures
            match lower_args(self@.objects, desc, items@, child, 0, 0) {
                Ok(args) => r matches Ok(wire) && wire@ == args,
                Err(e) => r == Err::<Vec<Argument<u32>>, SendError>(e),
            },
    {
        let ghost all = items@;
        let ghost objects = self@.objects;
        let n: usize = items.len();
        let mut wire: Vec<Argument<u32>> = Vec::new();
        let mut i: usize = 0;
        let mut k: usize = 0;
        for arg in it: items
            invariant
                it.seq() == all,
                i == it.index(),
                k <= i,
                all.len() == n,
                desc.signature@.len() == all.len(),
                objects == self@.objects,
                lower_args(objects, desc, all, child, 0, 0) == after_lowered(
                    wire@,
                    lower_args(objects, desc, all, child, i as int, k as int),
                ),
        {
            let ghost before = wire@;
            let ghost k0 = k;
            assert(arg == all[i as int]);
            let lowered = match arg {
                Argument::Int(v) => Argument::Int(v),
                Argument::Uint(v) => Argument::Uint(v),
                Argument::Fixed(v) => Argument::Fixed(v),
                Argument::Str(v) => Argument::Str(v),
                Argument::Array(v) => Argument::Array(v),
                Argument::Fd(v) => Argument::Fd(v),
                Argument::NewId(_) => Argument::NewId(child),
                Argument::Object(o) => {
                    if o.id != 0 {
                        let interface = match self.get_object(o) {
                            Ok(object) => object.interface,
                            Err(_) => {
                                return Err(SendError::InvalidId);
                            },
                        };
                        if k >= desc.arg_interfaces.len() {
                            return Err(SendError::Fault(Fault::MissingArgumentInterface));
                        }
                        if !same_interface_or_anonymous(desc.arg_interfaces[k], interface) {
                            return Err(SendError::Fault(Fault::WrongArgumentInterface));
                        }
                        k = k + 1;
                    } else {
                        match desc.signature[i] {
                            ArgumentType::Object(AllowNull::Yes) => {},
                            _ => {
                                return Err(SendError::Fault(Fault::NullObject));
                            },
                        }
                    }
                    Argument::Object(o.id)
                },
            };
            wire.push(lowered);
            i = i + 1;
            proof {
                assert(lower_arg(objects, desc, all[i - 1], child, i - 1, k0 as int) == Ok::<
                    (Argument<u32>, int),
                    SendError,
                >((lowered, k as int)));
                let rest = lower_args(objects, desc, all, child, i as int, k as int);
                match rest {
                    Ok(rest) => {
                        assert(before + (seq![lowered] + rest) =~= wire@ + rest);
                    },
                    Err(_) => {},
                }
            }
        }
        proof {
            assert(wire@ + Seq::<Argument<u32>>::empty() =~= wire@);
        }
        Ok(wire)
    }

    /// Sends a request, or says why it cannot be sent.
    ///
    /// A connection with an error latched refuses, and nothing changes.
    /// Otherwise the request is checked against the sender's interface, the object
    /// it creates, if any, is entered into the map under the lowest free
    /// id of the client range, the arguments are lowered to their wire
    /// form and the message is queued for the transport. A destructor
    /// marks its sender destroyed and notifies the sender's data.
    pub fn try_send_request(&mut self, msg: Message<ObjectId>, data: Option<Arc<D>>) -> (r: Result<
        ObjectId,
        SendError,
    >)
        requires
            old(self)@.wf(),
        ensures
            final(self)@ =~= old(self)@.send(msg@, data).next,
            match old(self)@.send(msg@, data).reply {
                Ok(Some(child)) => r == Ok::<ObjectId, SendError>(child),
                Ok(None) => r == Ok::<ObjectId, SendError>(
                    ObjectId { serial: 0, id: 0, interface: anonymous() },
                ),
                Err(e) => r == Err::<ObjectId, SendError>(e),
            },
            old(self)@.evolves(final(self)@),
    {
        let ghost start = self@;
        proof {
            lemma_evolves_reflexive(start);
            lemma_send_evolves(start, msg@, data);
        }
        if self.last_error.is_some() {
            return Err(SendError::Latched);
        }
        let Message { sender_id: id, opcode, args } = msg;
        let (interface, version, capability) = match self.get_object(id) {
            Ok(object) => {
                if object.data.client_destroyed {
                    return Err(SendError::InvalidId);
                }
                (object.interface, object.version, object.data.user_data.clone())
            },
            Err(_) => {
                return Err(SendError::InvalidId);
            },
        };
        if opcode as usize >= interface.requests.len() {
            return Err(SendError::Fault(Fault::UnknownOpcode));
        }
        let desc: &MessageDesc = &interface.requests[opcode as usize];
        let items = args.into_vec();
        if !check_for_signature(desc.signature, items.as_slice()) {
            return Err(SendError::Fault(Fault::SignatureMismatch));
        }
        if !all_placeholders(&items) {
            return Err(SendError::Fault(Fault::NotAPlaceholder));
        }
        let child = match self.resolve_child(version, desc) {
            Err(f) => {
                return Err(SendError::Fault(f));
            },
            Ok(None) => None,
            Ok(Some((child_interface, child_version))) => {
                let data = match data {
                    Some(data) => data,
                    None => {
                        return Err(SendError::Fault(Fault::MissingObjectData));
                    },
                };
                let serial: u32 = self.last_serial.wrapping_add(1);
                let record = Object {
                    interface: child_interface,
                    version: child_version,
                    data: Data {
                        client_destroyed: false,
                        server_destroyed: false,
                        user_data: Capability::User(data),
                        serial,
                    },
                };
                match self.map.client_insert_new(record) {
                    None => {
                        return Err(SendError::Fault(Fault::IdsExhausted));
                    },
                    Some(child_id) => {
                        proof {
                            lemma_fresh_client_id(start.objects, child_id);
                        }
                        self.last_serial = serial;
                        self.pending_placeholder = None;
                        Some(ObjectId { id: child_id, serial, interface: child_interface })
                    },
                }
            },
        };
        let ghost created = self@;
        let child_id: u32 = match child {
            Some(c) => c.id,
            None => 0,
        };
        let wire = match self.lower(desc, items, child_id) {
            Ok(wire) => wire,
            Err(e) => {
                return Err(e);
            },
        };
        let message = Message { sender_id: id.id, opcode, args: ArgList::<u32>::from_vec(wire) };
        self.outgoing.push(message);
        proof {
            assert(self@.outgoing =~= created.outgoing.push(message@));
        }
        if desc.is_destructor {
            let mark = (|object: Object<Data<D>>| -> (r: (Object<Data<D>>, ()))
                ensures
                    r.0 == marked_by_client(object),
                {
                    let mut object = object;
                    object.data.client_destroyed = true;
                    (object, ())
                });
            let _ = self.map.with(id.id, mark);
            match capability {
                Capability::User(user_data) => {
                    user_data.destroyed(id);
                },
                _ => {},
            }
        }
        match child {
            Some(c) => Ok(c),
            None => Ok(ObjectId { serial: 0, id: 0, interface: anonymous_interface() }),
        }
    }
}

impl<D: ObjectData> Handle<D> {
    /// Sends a request and returns the id of the object it creates, or the
    /// null id where it creates none; `InvalidId` where the sender or an
    /// object argument is stale, and where an error is latched, in which
    /// case nothing changes.
    ///
    /// The request must be free of misuse: a known opcode, arguments that
    /// fit the signature, a placeholder for the new id, the placeholder's
    /// interface and version in line with the protocol, data for the
    /// object created, object arguments of the interfaces expected.
    pub fn send_request(&mut self, msg: Message<ObjectId>, data: Option<Arc<D>>) -> (r: Result<
        ObjectId,
        InvalidId,
    >)
        requires
            old(self)@.wf(),
            !(old(self)@.send(msg@, data).reply matches Err(SendError::Fault(_))),
        ensures
            final(self)@ =~= old(self)@.send(msg@, data).next,
            match old(self)@.send(msg@, data).reply {
                Ok(Some(child)) => r == Ok::<ObjectId, InvalidId>(child),
                Ok(None) => r == Ok::<ObjectId, InvalidId>(
                    ObjectId { serial: 0, id: 0, interface: anonymous() },
                ),
                Err(_) => r is Err,
            },
            old(self)@.evolves(final(self)@),
    {
        match self.try_send_request(msg, data) {
            Ok(id) => Ok(id),
            Err(_) => Err(InvalidId),
        }
    }
}

impl<D> Handle<D> {
    /// The record at `id`, if there is one.
    pub(crate) fn find(&self, id: u32) -> (r: Option<&Object<Data<D>>>)
        ensures
            match r {
                Some(object) => self@.objects.contains_key(id) && *object == self@.objects[id],
                None => !self@.objects.contains_key(id),
            },
    {
        self.map.find(id)
    }

    /// Makes room at `id` where a record of the server's range that the
    /// client destroyed is in the way.
    pub(crate) fn evict(&mut self, id: u32)
        ensures
            final(self)@ =~= (HandleState { objects: old(self)@.evicted(id), ..old(self)@ }),
    {
        if id >= crate::map::SERVER_ID_LIMIT {
            let stale = match self.map.find(id) {
                Some(object) => object.data.client_destroyed,
                None => false,
            };
            if stale {
                self.map.remove(id);
            }
        }
    }

    /// Enters `record` at `id`; fails, changing nothing, where `id` is
    /// null or taken.
    pub(crate) fn announce(&mut self, id: u32, record: Object<Data<D>>) -> (r: Result<(), ()>)
        ensures
            r is Ok <==> id != 0 && !old(self)@.objects.contains_key(id),
            r is Ok ==> final(self)@ =~= (HandleState {
                objects: old(self)@.objects.insert(id, record),
                ..old(self)@
            }),
            r is Err ==> final(self)@ =~= old(self)@,
    {
        self.map.insert_at(id, record)
    }

    /// Lets go of `id` as the server asked.
    pub(crate) fn delete_id(&mut self, id: u32)
        ensures
            final(self)@ =~= old(self)@.delete_id(id),
    {
        let mark = (|object: Object<Data<D>>| -> (r: (Object<Data<D>>, bool))
            ensures
                r.0 == marked_by_server(object),
                r.1 == object.data.client_destroyed,
            {
                let mut object = object;
                object.data.server_destroyed = true;
                let gone = object.data.client_destroyed;
                (object, gone)
            });
        let client_destroyed = match self.map.with(id, mark) {
            Ok(gone) => gone,
            Err(_) => false,
        };
        if client_destroyed {
            self.map.remove(id);
        }
    }

    /// Sets both marks on the record at `id`; `false`, changing nothing,
    /// where there is none.
    pub(crate) fn destroy(&mut self, id: u32) -> (r: bool)
        ensures
            r == old(self)@.objects.contains_key(id),
            final(self)@ =~= if r {
                old(self)@.destroy(id)
            } else {
                old(self)@
            },
    {
        let mark = (|object: Object<Data<D>>| -> (r: (Object<Data<D>>, ()))
            ensures
                r.0 == marked_destroyed(object),
            {
                let mut object = object;
                object.data.server_destroyed = true;
                object.data.client_destroyed = true;
                (object, ())
            });
        self.map.with(id, mark).is_ok()
    }

    /// Attaches `data` to the record at `id`; `false`, changing nothing,
    /// where there is none.
    pub(crate) fn attach(&mut self, id: u32, data: Arc<D>) -> (r: bool)
        ensures
            r == old(self)@.objects.contains_key(id),
            final(self)@ =~= if r {
                old(self)@.attach(id, data)
            } else {
                old(self)@
            },
    {
        let attach = (move |object: Object<Data<D>>| -> (r: (Object<Data<D>>, ()))
            ensures
                r.0 == with_user_data(object, data),
            {
                let mut object = object;
                object.data.user_data = Capability::User(data);
                (object, ())
            });
        self.map.with(id, attach).is_ok()
    }

    /// Hands out the queued requests, oldest first, and empties the queue.
    pub(crate) fn take_outgoing(&mut self) -> (r: Vec<Message<u32>>)
        ensures
            message_views(r@) == old(self)@.outgoing,
            final(self)@ =~= (HandleState { outgoing: Seq::empty(), ..old(self)@ }),
    {
        let mut queue: Vec<Message<u32>> = Vec::new();
        std::mem::swap(&mut queue, &mut self.outgoing);
        queue
    }
}

} // verus!
