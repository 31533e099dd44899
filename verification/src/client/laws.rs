//! Laws of the connection that hold for every state and every message:
//! what a misuse, a protocol violation, a dropped event and the reply of a
//! callback lead to.

use crate::client::events::{
    detected, fds_of, invalid_new_id_text, unknown_object_text, Delivery, EventError, Received,
};
use crate::client::state::{
    placeholders_only, serial_after, Capability, Data, Fault, HandleState, SendError, Sent,
};
use crate::core_interfaces::wl_display;
use crate::map::{Object, SERVER_ID_LIMIT};
use crate::object_id::ObjectId;
use crate::protocol::{
    anonymous, creates_object, signature_matches, Argument, MessageDesc, MessageView,
};
use crate::text::utf8_lossy;
use crate::types::WaylandErrorView;
use std::sync::Arc;
use vstd::prelude::*;

verus! {

/// An argument that names no object: raising it reads and changes nothing.
pub open spec fn is_plain(arg: Argument<u32>) -> bool {
    match arg {
        Argument::NewId(_) => false,
        Argument::Object(o) => o == 0,
        _ => true,
    }
}

/// Whether the arguments from `i` up to `j` name no object.
pub open spec fn plain_between(args: Seq<Argument<u32>>, i: int, j: int) -> bool {
    forall|m: int| i <= m < j ==> is_plain(#[trigger] args[m])
}

/// What an argument that names no object is raised to.
pub open spec fn raised_plain(arg: Argument<u32>) -> Argument<ObjectId> {
    match arg {
        Argument::Int(v) => Argument::Int(v),
        Argument::Uint(v) => Argument::Uint(v),
        Argument::Fixed(v) => Argument::Fixed(v),
        Argument::Str(v) => Argument::Str(v),
        Argument::Array(v) => Argument::Array(v),
        Argument::Fd(v) => Argument::Fd(v),
        _ => Argument::Object(ObjectId { id: 0, serial: 0, interface: anonymous() }),
    }
}

/// What the arguments from `i` up to `j` are raised to, where they name no
/// object.
pub open spec fn plain_raised(args: Seq<Argument<u32>>, i: int, j: int) -> Seq<
    Argument<ObjectId>,
> {
    Seq::new((j - i) as nat, |m: int| raised_plain(args[i + m]))
}

/// Arguments that name no object pass: raising from `i` is raising them,
/// and then raising from `j` in the same state.
pub proof fn lemma_plain_arguments_pass<D>(
    s: HandleState<D>,
    receiver: Object<Data<D>>,
    desc: &MessageDesc,
    args: Seq<Argument<u32>>,
    i: int,
    j: int,
    k: int,
    created: Option<ObjectId>,
)
    requires
        0 <= i <= j <= args.len(),
        plain_between(args, i, j),
    ensures
        ({
            let whole = s.raise_args(receiver, desc, args, i, k, created);
            let rest = s.raise_args(receiver, desc, args, j, k, created);
            &&& whole.next == rest.next
            &&& match rest.result {
                Err(e) => whole.result == Err::<
                    (Seq<Argument<ObjectId>>, Option<ObjectId>),
                    EventError,
                >(e),
                Ok((tail, last)) => whole.result == Ok::<
                    (Seq<Argument<ObjectId>>, Option<ObjectId>),
                    EventError,
                >((plain_raised(args, i, j) + tail, last)),
            }
        }),
    decreases j - i,
{
    let rest = s.raise_args(receiver, desc, args, j, k, created);
    if i < j {
        assert(is_plain(args[i]));
        let step = s.raise_arg(receiver, desc, args[i], k);
        assert(step.next == s);
        assert(step.result == Ok::<(Argument<ObjectId>, int, Option<ObjectId>), EventError>(
            (raised_plain(args[i]), k, None),
        ));
        lemma_plain_arguments_pass(s, receiver, desc, args, i + 1, j, k, created);
        match rest.result {
            Ok((tail, _)) => {
                assert(seq![raised_plain(args[i])] + (plain_raised(args, i + 1, j) + tail)
                    =~= plain_raised(args, i, j) + tail);
            },
            Err(_) => {},
        }
    } else {
        match rest.result {
            Ok((tail, _)) => {
                assert(plain_raised(args, i, j) + tail =~= tail);
            },
            Err(_) => {},
        }
    }
}

/// An event that names an object which the map does not hold is a
/// protocol violation, wherever among arguments that name no object the
/// name stands: the error with the text for that id is latched unless one
/// is latched already, and nothing else changes.
pub proof fn lemma_unknown_object_is_refused<D>(
    s: HandleState<D>,
    receiver: Object<Data<D>>,
    desc: &MessageDesc,
    args: Seq<Argument<u32>>,
    j: int,
    o: u32,
)
    requires
        0 <= j < args.len(),
        plain_between(args, 0, j),
        args[j] == Argument::<u32>::Object(o),
        o != 0,
        !s.objects.contains_key(o),
    ensures
        ({
            let error = detected(unknown_object_text(o));
            let whole = s.raise_args(receiver, desc, args, 0, 0, None);
            &&& whole.next == s.latch(error)
            &&& whole.result == Err::<(Seq<Argument<ObjectId>>, Option<ObjectId>), EventError>(
                EventError::Failed(s.latched_after(error)),
            )
        }),
{
    lemma_plain_arguments_pass(s, receiver, desc, args, 0, j, 0, None);
}

/// The state once the serial counter has moved for an object that the
/// server announced.
pub open spec fn counted<D>(s: HandleState<D>) -> HandleState<D> {
    HandleState { last_serial: serial_after(s.last_serial), ..s }
}

/// A new id whose slot is taken by a record in use, or by any record of
/// the client's range, or which is null, is a protocol violation,
/// wherever among arguments that name no object it stands: the error that
/// names the interface and the id is latched unless one is latched
/// already, and every record stays.
pub proof fn lemma_new_id_on_taken_slot_is_refused<D>(
    s: HandleState<D>,
    receiver: Object<Data<D>>,
    desc: &MessageDesc,
    args: Seq<Argument<u32>>,
    j: int,
    n: u32,
)
    requires
        0 <= j < args.len(),
        plain_between(args, 0, j),
        args[j] == Argument::<u32>::NewId(n),
        desc.child_interface is Some,
        n == 0 || (s.objects.contains_key(n) && !(n >= SERVER_ID_LIMIT
            && s.objects[n].data.client_destroyed)),
    ensures
        ({
            let error = detected(invalid_new_id_text(desc.child_interface->0, n));
            let whole = s.raise_args(receiver, desc, args, 0, 0, None);
            &&& whole.next =~= counted(s).latch(error)
            &&& whole.next.objects == s.objects
            &&& whole.result == Err::<(Seq<Argument<ObjectId>>, Option<ObjectId>), EventError>(
                EventError::Failed(s.latched_after(error)),
            )
        }),
{
    lemma_plain_arguments_pass(s, receiver, desc, args, 0, j, 0, None);
    assert(s.evicted(n) =~= s.objects);
}

/// A new id whose slot is free, or holds a record of the server's range
/// that the client destroyed, is entered, wherever among arguments that
/// name no object it stands: the slot then holds a record with the
/// interface that the event names, the version and the client's mark of
/// the parent, the next serial, no server mark and no data yet; no other
/// record changes and no error is latched.
pub proof fn lemma_new_id_takes_the_slot<D>(
    s: HandleState<D>,
    receiver: Object<Data<D>>,
    desc: &MessageDesc,
    args: Seq<Argument<u32>>,
    j: int,
    n: u32,
)
    requires
        0 <= j < args.len(),
        plain_between(args, 0, j),
        plain_between(args, j + 1, args.len() as int),
        args[j] == Argument::<u32>::NewId(n),
        desc.child_interface is Some,
        n != 0,
        !s.objects.contains_key(n) || (n >= SERVER_ID_LIMIT && s.objects[n].data.client_destroyed),
    ensures
        ({
            let interface = desc.child_interface->0;
            let id = ObjectId { id: n, serial: serial_after(s.last_serial), interface };
            let whole = s.raise_args(receiver, desc, args, 0, 0, None);
            &&& whole.next =~= (HandleState {
                objects: s.objects.insert(n, s.announced(receiver, interface)),
                ..counted(s)
            })
            &&& whole.result matches Ok((out, last))
            &&& last == Some(id)
            &&& out.len() == args.len()
            &&& out[j] == Argument::NewId(id)
        }),
{
    let interface = desc.child_interface->0;
    let id = ObjectId { id: n, serial: serial_after(s.last_serial), interface };
    let after = HandleState {
        objects: s.evicted(n).insert(n, s.announced(receiver, interface)),
        ..counted(s)
    };
    let len = args.len() as int;
    lemma_plain_arguments_pass(s, receiver, desc, args, 0, j, 0, None);
    lemma_plain_arguments_pass(after, receiver, desc, args, j + 1, len, 0, Some(id));
    let step = s.raise_arg(receiver, desc, args[j], 0);
    assert(step.next =~= after);
    assert(after.objects =~= s.objects.insert(n, s.announced(receiver, interface)));
    let rest = s.raise_args(receiver, desc, args, j, 0, None);
    assert(rest.result matches Ok((tail, last)) && last == Some(id) && tail == seq![
        Argument::NewId(id),
    ] + (plain_raised(args, j + 1, len) + Seq::empty()));
}

/// The event descriptor by which `msg` is taken in the state `s`.
pub open spec fn event_desc<D>(s: HandleState<D>, msg: MessageView<u32>) -> &'static MessageDesc {
    &s.objects[msg.sender_id].interface.events@[msg.opcode as int]
}

/// Whether `msg` is an event of an object of the map other than the
/// display, with an opcode of that object's interface.
pub open spec fn addressed<D>(s: HandleState<D>, msg: MessageView<u32>) -> bool {
    &&& msg.sender_id != 1
    &&& s.objects.contains_key(msg.sender_id)
    &&& msg.opcode < s.objects[msg.sender_id].interface.events@.len()
}

/// An event that names an unknown object ends the round with the
/// protocol error for that id: no callback is due, whatever the state of
/// its sender, and nothing but the latch changes.
pub proof fn lemma_event_with_unknown_object<D>(
    s: HandleState<D>,
    msg: MessageView<u32>,
    j: int,
    o: u32,
)
    requires
        addressed(s, msg),
        0 <= j < msg.args.len(),
        plain_between(msg.args, 0, j),
        msg.args[j] == Argument::<u32>::Object(o),
        o != 0,
        !s.objects.contains_key(o),
    ensures
        ({
            let error = detected(unknown_object_text(o));
            s.receive(msg) == (Received {
                next: s.latch(error),
                outcome: Err(EventError::Failed(s.latched_after(error))),
            })
        }),
{
    lemma_unknown_object_is_refused(
        s,
        s.objects[msg.sender_id],
        event_desc(s, msg),
        msg.args,
        j,
        o,
    );
}

/// An event that announces an object at a slot that is taken ends the
/// round with the protocol error that names the interface and the id: no
/// callback is due, and every record stays.
pub proof fn lemma_event_on_taken_slot<D>(
    s: HandleState<D>,
    msg: MessageView<u32>,
    j: int,
    n: u32,
)
    requires
        addressed(s, msg),
        0 <= j < msg.args.len(),
        plain_between(msg.args, 0, j),
        msg.args[j] == Argument::<u32>::NewId(n),
        event_desc(s, msg).child_interface is Some,
        n == 0 || (s.objects.contains_key(n) && !(n >= SERVER_ID_LIMIT
            && s.objects[n].data.client_destroyed)),
    ensures
        ({
            let error = detected(invalid_new_id_text(event_desc(s, msg).child_interface->0, n));
            &&& s.receive(msg).next =~= counted(s).latch(error)
            &&& s.receive(msg).next.objects == s.objects
            &&& s.receive(msg).outcome == Err::<Delivery<D>, EventError>(
                EventError::Failed(s.latched_after(error)),
            )
        }),
{
    lemma_new_id_on_taken_slot_is_refused(
        s,
        s.objects[msg.sender_id],
        event_desc(s, msg),
        msg.args,
        j,
        n,
    );
}

/// An event of a live object that announces an object at a slot that is
/// free, or holds a record of the server's range that the client
/// destroyed, is due to its sender's data with the new object entered:
/// the slot holds the record that the event announces, in place of the
/// stale one, and no error is latched.
pub proof fn lemma_event_takes_the_slot<D>(
    s: HandleState<D>,
    msg: MessageView<u32>,
    j: int,
    n: u32,
    data: Arc<D>,
)
    requires
        addressed(s, msg),
        !s.objects[msg.sender_id].data.client_destroyed,
        s.objects[msg.sender_id].data.user_data == Capability::User(data),
        0 <= j < msg.args.len(),
        plain_between(msg.args, 0, j),
        plain_between(msg.args, j + 1, msg.args.len() as int),
        msg.args[j] == Argument::<u32>::NewId(n),
        event_desc(s, msg).child_interface is Some,
        n != 0,
        !s.objects.contains_key(n) || (n >= SERVER_ID_LIMIT && s.objects[n].data.client_destroyed),
    ensures
        ({
            let receiver = s.objects[msg.sender_id];
            let interface = event_desc(s, msg).child_interface->0;
            let child = ObjectId { id: n, serial: serial_after(s.last_serial), interface };
            let received = s.receive(msg);
            &&& received.next =~= (HandleState {
                objects: s.objects.insert(n, s.announced(receiver, interface)),
                ..counted(s)
            })
            &&& received.outcome matches Ok(
                Delivery::Deliver { data: due, id, message, created, destructor },
            )
            &&& due == data
            &&& id == (ObjectId {
                id: msg.sender_id,
                serial: receiver.data.serial,
                interface: receiver.interface,
            })
            &&& created == Some(child)
            &&& message.args.len() == msg.args.len()
            &&& message.args[j] == Argument::NewId(child)
            &&& destructor == event_desc(s, msg).is_destructor
        }),
{
    lemma_new_id_takes_the_slot(
        s,
        s.objects[msg.sender_id],
        event_desc(s, msg),
        msg.args,
        j,
        n,
    );
}

/// The file descriptors of arguments that name no object are those of
/// what they are raised to.
pub proof fn lemma_plain_arguments_keep_their_fds(args: Seq<Argument<u32>>, j: int)
    requires
        0 <= j <= args.len(),
        plain_between(args, 0, j),
    ensures
        fds_of(plain_raised(args, 0, j)) == fds_of(args.subrange(0, j)),
    decreases j,
{
    if j > 0 {
        lemma_plain_arguments_keep_their_fds(args, j - 1);
        assert(plain_raised(args, 0, j).drop_last() =~= plain_raised(args, 0, j - 1));
        assert(args.subrange(0, j).drop_last() =~= args.subrange(0, j - 1));
        assert(is_plain(args[j - 1]));
    }
}

/// An event for an object that the client destroyed, with arguments that
/// name no object, is dropped: no callback is due, nothing changes, and
/// exactly the file descriptors of the event are handed back for closing.
pub proof fn lemma_dropped_event_changes_nothing<D>(s: HandleState<D>, msg: MessageView<u32>)
    requires
        msg.sender_id != 1,
        s.objects.contains_key(msg.sender_id),
        s.objects[msg.sender_id].data.client_destroyed,
        msg.opcode < s.objects[msg.sender_id].interface.events@.len(),
        plain_between(msg.args, 0, msg.args.len() as int),
    ensures
        s.receive(msg) == (Received {
            next: s,
            outcome: Ok(Delivery::Swallowed(fds_of(msg.args))),
        }),
{
    let receiver = s.objects[msg.sender_id];
    let desc = &receiver.interface.events@[msg.opcode as int];
    let len = msg.args.len() as int;
    lemma_plain_arguments_pass(s, receiver, desc, msg.args, 0, len, 0, None);
    lemma_plain_arguments_keep_their_fds(msg.args, len);
    assert(msg.args.subrange(0, len) =~= msg.args);
    assert(plain_raised(msg.args, 0, len) + Seq::empty() =~= plain_raised(msg.args, 0, len));
}

/// The `error` event of the display ends the connection: the error that
/// the server reports, with its code, the object it blames, the name of
/// that object's interface and the message, is latched unless one is
/// latched already, no callback is due, and no record changes.
pub proof fn lemma_display_error_is_latched<D>(
    s: HandleState<D>,
    object: u32,
    code: u32,
    text: Vec<u8>,
)
    requires
        s.wf(),
    ensures
        ({
            let msg = MessageView {
                sender_id: 1u32,
                opcode: 0u16,
                args: seq![Argument::Object(object), Argument::Uint(code), Argument::Str(text)],
            };
            let error = s.server_error(object, code, utf8_lossy(text@));
            s.receive(msg) == (Received {
                next: s.latch(error),
                outcome: Err(EventError::Failed(s.latched_after(error))),
            })
        }),
{
    assert(wl_display().events@.len() == 2);
}

/// A destructor event ends its sender whatever the callback did: after
/// the reply is run into the state, the record is still in the map, with
/// both marks set and with the interface, version and serial it had when
/// the event was prepared.
pub proof fn lemma_destructor_event_ends_sender<D>(
    before: HandleState<D>,
    mid: HandleState<D>,
    sender: u32,
    created: Option<ObjectId>,
    reply: Option<Arc<D>>,
)
    requires
        before.objects.contains_key(sender),
        before.evolves(mid),
    ensures
        ({
            let finished = mid.finish(sender, true, created, reply);
            let record = finished.next.objects[sender];
            &&& finished.next.objects.contains_key(sender)
            &&& record.data.client_destroyed
            &&& record.data.server_destroyed
            &&& record.data.serial == before.objects[sender].data.serial
            &&& record.interface == before.objects[sender].interface
            &&& record.version == before.objects[sender].version
            &&& finished.next.last_error == before.last_error
        }),
{
}

/// The data that a callback returns goes to the object that its event
/// created, whatever else the callback did: the record keeps the
/// interface, version, serial and server mark it was announced with.
pub proof fn lemma_reply_goes_to_the_child<D>(
    before: HandleState<D>,
    mid: HandleState<D>,
    sender: u32,
    destructor: bool,
    child: ObjectId,
    data: Arc<D>,
)
    requires
        before.objects.contains_key(sender),
        before.objects.contains_key(child.id),
        before.evolves(mid),
    ensures
        ({
            let finished = mid.finish(sender, destructor, Some(child), Some(data));
            let record = finished.next.objects[child.id];
            &&& finished.result is Ok
            &&& finished.next.objects.contains_key(child.id)
            &&& record.data.user_data == Capability::User(data)
            &&& record.interface == before.objects[child.id].interface
            &&& record.version == before.objects[child.id].version
            &&& record.data.serial == before.objects[child.id].data.serial
            &&& child.id != sender ==> record.data.server_destroyed
                == before.objects[child.id].data.server_destroyed
        }),
{
}

/// A generic constructor sent without a placeholder that names the
/// interface is a misuse, and changes nothing.
pub proof fn lemma_generic_constructor_needs_a_spec<D>(
    s: HandleState<D>,
    msg: MessageView<ObjectId>,
    data: Option<Arc<D>>,
)
    requires
        s.last_error is None,
        s.live(msg.sender_id),
        s.pending_placeholder is None,
        msg.opcode < s.objects[msg.sender_id.id].interface.requests@.len(),
        ({
            let desc = s.objects[msg.sender_id.id].interface.requests@[msg.opcode as int];
            &&& signature_matches(desc.signature@, msg.args)
            &&& placeholders_only(msg.args)
            &&& creates_object(desc.signature@)
            &&& desc.child_interface is None
        }),
    ensures
        s.send(msg, data) == (Sent {
            next: s,
            reply: Err(SendError::Fault(Fault::GenericConstructor)),
        }),
{
}

/// A connection with an error latched takes no request: whatever is
/// sent, nothing changes.
pub proof fn lemma_latched_connection_takes_no_request<D>(
    s: HandleState<D>,
    msg: MessageView<ObjectId>,
    data: Option<Arc<D>>,
)
    requires
        s.last_error is Some,
    ensures
        s.send(msg, data) == (Sent { next: s, reply: Err(SendError::Latched) }),
{
}

/// The first error sticks: once an error is latched, meeting another one
/// changes nothing.
pub proof fn lemma_first_error_sticks<D>(
    s: HandleState<D>,
    first: WaylandErrorView,
    second: WaylandErrorView,
)
    ensures
        s.latch(first).latch(second) == s.latch(first),
        s.last_error is Some ==> s.latch(second) == s,
        s.latch(first).last_error is Some,
{
}

} // verus!
