//! Receiving an event: raising its arguments to object ids, entering the
//! objects it announces, and running the reply of the callback into the
//! state.

use crate::client::events::{
    detected, fds_of, invalid_new_id_text, malformed_text, unknown_object_text,
    wrong_interface_text, Delivery, EventError, Raised,
};
use crate::client::handle::{Handle, ObjectData};
use crate::client::state::{Capability, Data, Fault};
use crate::map::Object;
use crate::object_id::ObjectId;
use crate::protocol::{
    anonymous_interface, same_interface_or_anonymous, ArgList, Argument, Interface, Message,
    MessageDesc, ProtocolError,
};
use crate::text::{decimal, join, string_from_utf8_lossy};
use crate::types::WaylandError;
use std::sync::Arc;
use vstd::prelude::*;
use vstd::string::StringExecFns;

verus! {

/// What is to be done with an event once its arguments are raised.
pub enum Prepared<D> {
    /// The display took care of the event.
    Handled,
    /// The sender was destroyed by the client: the event is dropped, and
    /// these file descriptors are to be closed.
    Swallowed(Vec<i32>),
    /// The event goes to the data of its sender.
    Deliver {
        data: Arc<D>,
        id: ObjectId,
        message: Message<ObjectId>,
        created: Option<ObjectId>,
        destructor: bool,
    },
}

/// Why an event was not delivered.
pub enum EventFailure {
    /// The event violates the protocol; the error is latched.
    Failed(WaylandError),
    /// The event cannot be handled without a misuse.
    Fault(Fault),
}

impl<D> View for Prepared<D> {
    type V = Delivery<D>;

    open spec fn view(&self) -> Delivery<D> {
        match self {
            Prepared::Handled => Delivery::Handled,
            Prepared::Swallowed(fds) => Delivery::Swallowed(fds@),
            Prepared::Deliver { data, id, message, created, destructor } => Delivery::Deliver {
                data: *data,
                id: *id,
                message: message@,
                created: *created,
                destructor: *destructor,
            },
        }
    }
}

impl View for EventFailure {
    type V = EventError;

    open spec fn view(&self) -> EventError {
        match self {
            EventFailure::Failed(e) => EventError::Failed(e@),
            EventFailure::Fault(f) => EventError::Fault(*f),
        }
    }
}

/// The view of what preparing an event gave.
pub open spec fn outcome_view<D>(r: Result<Prepared<D>, EventFailure>) -> Result<
    Delivery<D>,
    EventError,
> {
    match r {
        Ok(p) => Ok(p@),
        Err(e) => Err(e@),
    }
}

/// `done` before what is still to come, or the failure that is to come.
pub open spec fn after_raised<D>(done: Seq<Argument<ObjectId>>, rest: Raised<D>) -> Raised<D> {
    match rest.result {
        Ok((tail, last)) => Raised { next: rest.next, result: Ok((done + tail, last)) },
        Err(_) => rest,
    }
}

/// A protocol error that the client detected, with `message`.
fn detected_error(message: String) -> (e: WaylandError)
    ensures
        e@ == detected(message@),
{
    WaylandError::Protocol(
        ProtocolError {
            code: 0,
            object_id: 0,
            object_interface: String::from_str(""),
            message,
        },
    )
}

/// The error for an object that the map does not hold.
fn unknown_object_error(id: u32) -> (e: WaylandError)
    ensures
        e@ == detected(unknown_object_text(id)),
{
    let number = decimal(id);
    let text = join(join(String::from_str("Unknown object "), number.as_str()), ".");
    detected_error(text)
}

/// The error for an object of another interface than the event expects.
fn wrong_interface_error(id: u32, expected: &'static Interface, actual: &'static Interface) -> (e:
    WaylandError)
    ensures
        e@ == detected(wrong_interface_text(id, expected, actual)),
{
    let number = decimal(id);
    let text = join(String::from_str("Protocol error: server sent object "), number.as_str());
    let text = join(text, " for interface ");
    let text = join(text, expected.name);
    let text = join(text, ", but it has interface ");
    let text = join(text, actual.name);
    let text = join(text, ".");
    detected_error(text)
}

/// The error for a new id that cannot be entered.
fn invalid_new_id_error(interface: &'static Interface, id: u32) -> (e: WaylandError)
    ensures
        e@ == detected(invalid_new_id_text(interface, id)),
{
    let number = decimal(id);
    let text = join(
        String::from_str("Protocol error: server tried to create an object \""),
        interface.name,
    );
    let text = join(text, "\" with invalid id ");
    let text = join(text, number.as_str());
    let text = join(text, ".");
    detected_error(text)
}

/// The error for a message that cannot be parsed.
pub fn malformed_error() -> (e: WaylandError)
    ensures
        e@ == detected(malformed_text()),
{
    detected_error(String::from_str("Malformed Wayland message."))
}

/// The file descriptors among `args`, in order.
fn collect_fds(args: &Vec<Argument<ObjectId>>) -> (fds: Vec<i32>)
    ensures
        fds@ == fds_of(args@),
{
    let mut fds: Vec<i32> = Vec::new();
    let mut i: usize = 0;
    while i < args.len()
        invariant
            i <= args.len(),
            fds@ == fds_of(args@.subrange(0, i as int)),
        decreases args.len() - i,
    {
        proof {
            let upto = args@.subrange(0, i + 1);
            assert(upto.drop_last() =~= args@.subrange(0, i as int));
            assert(upto.last() == args@[i as int]);
        }
        match &args[i] {
            Argument::Fd(fd) => {
                fds.push(*fd);
            },
            _ => {},
        }
        i = i + 1;
    }
    proof {
        assert(args@.subrange(0, args@.len() as int) =~= args@);
    }
    fds
}

impl<D> Handle<D> {
    /// Raises the arguments of an event of `receiver` to object ids, and
    /// enters the objects that the event announces. Stops at the first
    /// argument that fails, with the error latched.
    fn raise(
        &mut self,
        Ghost(receiver): Ghost<Object<Data<D>>>,
        version: u32,
        client_destroyed: bool,
        desc: &MessageDesc,
        items: Vec<Argument<u32>>,
    ) -> (r: Result<(Vec<Argument<ObjectId>>, Option<ObjectId>), EventFailure>)
        requires
            version == receiver.version,
            client_destroyed == receiver.data.client_destroyed,
        ensures
            final(self)@ =~= old(self)@.raise_args(receiver, desc, items@, 0, 0, None).next,
            match old(self)@.raise_args(receiver, desc, items@, 0, 0, None).result {
                Ok((args, created)) => r matches Ok(raised) && raised.0@ == args && raised.1
                    == created,
                Err(e) => r matches Err(failure) && failure@ == e,
            },
    {
        let ghost all = items@;
        let ghost start = self@;
        let n: usize = items.len();
        let mut out: Vec<Argument<ObjectId>> = Vec::new();
        let mut created: Option<ObjectId> = None;
        let mut i: usize = 0;
        let mut k: usize = 0;
        for arg in it: items
            invariant
                it.seq() == all,
                i == it.index(),
                k <= i,
                all.len() == n,
                start == old(self)@,
                version == receiver.version,
                client_destroyed == receiver.data.client_destroyed,
                start.raise_args(receiver, desc, all, 0, 0, None) == after_raised(
                    out@,
                    self@.raise_args(receiver, desc, all, i as int, k as int, created),
                ),
        {
            let ghost before = out@;
            let ghost here = self@;
            let ghost k0 = k;
            let ghost created0 = created;
            assert(arg == all[i as int]);
            let raised = match arg {
                Argument::Int(v) => Argument::Int(v),
                Argument::Uint(v) => Argument::Uint(v),
                Argument::Fixed(v) => Argument::Fixed(v),
                Argument::Str(v) => Argument::Str(v),
                Argument::Array(v) => Argument::Array(v),
                Argument::Fd(v) => Argument::Fd(v),
                Argument::Object(o) => {
                    if o != 0 {
                        let found = match self.find(o) {
                            Some(object) => Some((object.interface, object.data.serial)),
                            None => None,
                        };
                        let (interface, serial) = match found {
                            Some(pair) => pair,
                            None => {
                                let error = self.store_and_return_error(unknown_object_error(o));
                                proof {
                                    let step = here.raise_arg(
                                        receiver,
                                        desc,
                                        all[i as int],
                                        k as int,
                                    );
                                    assert(step.next =~= self@);
                                    assert(step.result == Err::<
                                        (Argument<ObjectId>, int, Option<ObjectId>),
                                        EventError,
                                    >(EventError::Failed(error@)));
                                }
                                return Err(EventFailure::Failed(error));
                            },
                        };
                        if k < desc.arg_interfaces.len() {
                            let expected = desc.arg_interfaces[k];
                            if !same_interface_or_anonymous(expected, interface) {
                                let error = self.store_and_return_error(
                                    wrong_interface_error(o, expected, interface),
                                );
                                proof {
                                    let step = here.raise_arg(
                                        receiver,
                                        desc,
                                        all[i as int],
                                        k as int,
                                    );
                                    assert(step.next =~= self@);
                                    assert(step.result == Err::<
                                        (Argument<ObjectId>, int, Option<ObjectId>),
                                        EventError,
                                    >(EventError::Failed(error@)));
                                }
                                return Err(EventFailure::Failed(error));
                            }
                            k = k + 1;
                        }
                        Argument::Object(ObjectId { id: o, serial, interface })
                    } else {
                        Argument::Object(
                            ObjectId { id: 0, serial: 0, interface: anonymous_interface() },
                        )
                    }
                },
                Argument::NewId(new_id) => {
                    let interface = match desc.child_interface {
                        Some(interface) => interface,
                        None => {
                            proof {
                                let step = here.raise_arg(receiver, desc, all[i as int], k as int);
                                assert(step.next =~= self@);
                            }
                            return Err(EventFailure::Fault(Fault::MissingChildInterface));
                        },
                    };
                    self.evict(new_id);
                    let serial: u32 = self.next_serial();
                    let child = Object {
                        interface,
                        version,
                        data: Data {
                            client_destroyed,
                            server_destroyed: false,
                            user_data: Capability::Uninit,
                            serial,
                        },
                    };
                    let id = ObjectId { id: new_id, serial, interface };
                    if self.announce(new_id, child).is_err() {
                        let error = self.store_and_return_error(
                            invalid_new_id_error(interface, new_id),
                        );
                        proof {
                            let step = here.raise_arg(receiver, desc, all[i as int], k as int);
                            assert(step.next =~= self@);
                            assert(step.result == Err::<
                                (Argument<ObjectId>, int, Option<ObjectId>),
                                EventError,
                            >(EventError::Failed(error@)));
                        }
                        return Err(EventFailure::Failed(error));
                    }
                    created = Some(id);
                    Argument::NewId(id)
                },
            };
            out.push(raised);
            i = i + 1;
            proof {
                let step = here.raise_arg(receiver, desc, all[i - 1], k0 as int);
                assert(step.next =~= self@);
                assert(step.result matches Ok((a, k2, c)) && a == raised && k2 == k && (if c
                    is Some {
                    c
                } else {
                    created0
                }) == created);
                let rest = self@.raise_args(receiver, desc, all, i as int, k as int, created);
                match rest.result {
                    Ok((tail, _)) => {
                        assert(before + (seq![raised] + tail) =~= out@ + tail);
                    },
                    Err(_) => {},
                }
            }
        }
        proof {
            assert(out@ + Seq::<Argument<ObjectId>>::empty() =~= out@);
        }
        Ok((out, created))
    }

    /// Latches the error that the server reports of the object at
    /// `object`, unless an error is latched already, and hands back the
    /// error that the latch holds. The error carries the name of the
    /// object's interface, or `<unknown>` where the map holds no such
    /// object.
    pub(crate) fn latch_display_error(&mut self, object: u32, code: u32, message: String) -> (r:
        WaylandError)
        ensures
            r@ == old(self)@.latched_after(old(self)@.server_error(object, code, message@)),
            final(self)@ =~= old(self)@.latch(old(self)@.server_error(object, code, message@)),
    {
        let name: &'static str = match self.find(object) {
            Some(record) => record.interface.name,
            None => "<unknown>",
        };
        let error = WaylandError::Protocol(
            ProtocolError {
                code,
                object_id: object,
                object_interface: String::from_str(name),
                message,
            },
        );
        self.store_and_return_error(error)
    }

    /// Handles an event of the display: `error` latches what the server
    /// reports, `delete_id` lets go of an id.
    pub(crate) fn handle_display_event(&mut self, message: Message<u32>) -> (r: Result<
        (),
        EventFailure,
    >)
        ensures
            final(self)@ =~= old(self)@.display_event(message@).next,
            match old(self)@.display_event(message@).outcome {
                Ok(_) => r is Ok,
                Err(e) => r matches Err(failure) && failure@ == e,
            },
    {
        let opcode: u16 = message.opcode;
        let args = message.args.as_slice();
        if opcode == 0 {
            if args.len() != 3 {
                return Err(EventFailure::Fault(Fault::MalformedDisplayEvent));
            }
            match (&args[0], &args[1], &args[2]) {
                (Argument::Object(obj), Argument::Uint(code), Argument::Str(text)) => {
                    let message = string_from_utf8_lossy(text);
                    Err(EventFailure::Failed(self.latch_display_error(*obj, *code, message)))
                },
                _ => Err(EventFailure::Fault(Fault::MalformedDisplayEvent)),
            }
        } else if opcode == 1 {
            if args.len() != 1 {
                return Err(EventFailure::Fault(Fault::MalformedDisplayEvent));
            }
            match &args[0] {
                Argument::Uint(id) => {
                    self.delete_id(*id);
                    Ok(())
                },
                _ => Err(EventFailure::Fault(Fault::MalformedDisplayEvent)),
            }
        } else {
            Err(EventFailure::Fault(Fault::MalformedDisplayEvent))
        }
    }

    /// Prepares an event for its sender: the display's events are handled
    /// here, the arguments of the others are raised to object ids and the
    /// objects they announce are entered into the map. An event for an
    /// object that the client destroyed is dropped, and the file
    /// descriptors it carried are handed back for closing.
    pub(crate) fn receive_event(&mut self, msg: Message<u32>) -> (r: Result<
        Prepared<D>,
        EventFailure,
    >)
        ensures
            final(self)@ =~= old(self)@.receive(msg@).next,
            outcome_view(r) == old(self)@.receive(msg@).outcome,
    {
        let sender: u32 = msg.sender_id;
        let opcode: u16 = msg.opcode;
        let found = match self.find(sender) {
            Some(object) => Some(
                (
                    object.interface,
                    object.version,
                    object.data.client_destroyed,
                    object.data.serial,
                    object.data.user_data.clone(),
                ),
            ),
            None => None,
        };
        let ghost receiver = self@.objects[sender];
        let (interface, version, client_destroyed, serial, capability) = match found {
            Some(parts) => parts,
            None => {
                return Err(EventFailure::Fault(Fault::UnknownObject));
            },
        };
        if opcode as usize >= interface.events.len() {
            return Err(EventFailure::Fault(Fault::UnknownOpcode));
        }
        if sender == 1 {
            return match self.handle_display_event(msg) {
                Ok(_) => Ok(Prepared::Handled),
                Err(e) => Err(e),
            };
        }
        let desc: &MessageDesc = &interface.events[opcode as usize];
        let items = msg.args.into_vec();
        let (args, created) = match self.raise(
            Ghost(receiver),
            version,
            client_destroyed,
            desc,
            items,
        ) {
            Ok(raised) => raised,
            Err(e) => {
                return Err(e);
            },
        };
        if client_destroyed {
            return Ok(Prepared::Swallowed(collect_fds(&args)));
        }
        match capability {
            Capability::User(data) => {
                let id = ObjectId { id: sender, serial, interface };
                Ok(
                    Prepared::Deliver {
                        data,
                        id,
                        message: Message {
                            sender_id: id,
                            opcode,
                            args: ArgList::<ObjectId>::from_vec(args),
                        },
                        created,
                        destructor: desc.is_destructor,
                    },
                )
            },
            _ => Err(EventFailure::Fault(Fault::UninitializedObject)),
        }
    }

}

impl<D: ObjectData> Handle<D> {
    /// Runs the reply of a callback into the state: a destructor event
    /// marks its sender destroyed and notifies `data`, and the data
    /// returned goes to the object that the event created. A reply that
    /// does not fit the event is a misuse.
    pub(crate) fn finish_event(
        &mut self,
        data: &Arc<D>,
        sender: ObjectId,
        destructor: bool,
        created: Option<ObjectId>,
        reply: Option<Arc<D>>,
    ) -> (r: Result<(), Fault>)
        ensures
            final(self)@ =~= old(self)@.finish(sender.id, destructor, created, reply).next,
            r == old(self)@.finish(sender.id, destructor, created, reply).result,
    {
        if destructor {
            if !self.destroy(sender.id) {
                return Err(Fault::UnknownObject);
            }
            data.destroyed(sender);
        }
        match (created, reply) {
            (Some(child), Some(data)) => {
                if self.attach(child.id, data) {
                    Ok(())
                } else {
                    Err(Fault::UnknownObject)
                }
            },
            (None, None) => Ok(()),
            (Some(_), None) => Err(Fault::MissingChildData),
            (None, Some(_)) => Err(Fault::UnexpectedChildData),
        }
    }
}

} // verus!
