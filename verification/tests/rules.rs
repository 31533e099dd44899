use std::sync::atomic::{AtomicBool, AtomicUsize, Ordering};
use std::sync::{Arc, Mutex};

use wayland_backend::client::{
    Backend, Capability, DispatchAction, Dispatched, EventFailure, Fault, Handle, InvalidId,
    IoError, ObjectData, ObjectId, Prepared, ReadEventsGuard, ReadTurn, SendError, SocketEvent,
    WaylandError,
};
use wayland_backend::core_interfaces::{
    wl_callback_interface, wl_display_interface, wl_registry_interface,
};
use wayland_backend::cx::{choose_target, ConnectError, ConnectTarget, Connection, ConnectionHandle};
use wayland_backend::map::{Object, ObjectMap, SERVER_ID_LIMIT};
use wayland_backend::protocol::{
    anonymous_interface, check_for_signature, same_interface, same_interface_or_anonymous,
    signature_creates_object, AllowNull, ArgList, Argument, ArgumentType, Interface, Message,
    MessageDesc, ProtocolError,
};
use wayland_backend::sync_data::SyncData;
use wayland_backend::text::{decimal, join, str_eq};

struct Probe {
    events: Mutex<Vec<(u32, u16, usize)>>,
    destroyed: AtomicUsize,
    children: Mutex<Vec<Arc<Probe>>>,
}

impl Probe {
    fn new() -> Arc<Probe> {
        Arc::new(Probe {
            events: Mutex::new(Vec::new()),
            destroyed: AtomicUsize::new(0),
            children: Mutex::new(Vec::new()),
        })
    }

    fn with_child(child: Arc<Probe>) -> Arc<Probe> {
        let probe = Probe::new();
        probe.children.lock().unwrap().push(child);
        probe
    }

    fn seen(&self) -> usize {
        self.events.lock().unwrap().len()
    }

    fn gone(&self) -> usize {
        self.destroyed.load(Ordering::SeqCst)
    }
}

impl ObjectData for Probe {
    fn event(&self, _handle: &mut Handle<Probe>, msg: Message<ObjectId>) -> Option<Arc<Probe>> {
        self.events.lock().unwrap().push((
            msg.sender_id.protocol_id(),
            msg.opcode,
            msg.args.as_slice().len(),
        ));
        self.children.lock().unwrap().pop()
    }

    fn destroyed(&self, _object_id: ObjectId) {
        self.destroyed.fetch_add(1, Ordering::SeqCst);
    }
}

fn widget_stub() -> &'static Interface {
    &Interface { name: "test_widget", version: 2, requests: &[], events: &[] }
}

/// Requests: 0 destroy (destructor), 1 attach(object?, int), 2 set_parent
/// (object), 3 loose(object) without listed interface, 4 create(new_id).
/// Events: 0 enter(object?, fd), 1 offer(new_id), 2 leave(object) with a
/// listed interface, 3 broken(new_id) without child interface, 4 closed
/// (destructor).
fn widget_interface() -> &'static Interface {
    &Interface {
        name: "test_widget",
        version: 2,
        requests: &[
            MessageDesc {
                name: "destroy",
                signature: &[],
                since: 1,
                is_destructor: true,
                child_interface: None,
                arg_interfaces: &[],
            },
            MessageDesc {
                name: "attach",
                signature: &[ArgumentType::Object(AllowNull::Yes), ArgumentType::Int],
                since: 1,
                is_destructor: false,
                child_interface: None,
                arg_interfaces: &[&Interface {
                    name: "test_widget",
                    version: 2,
                    requests: &[],
                    events: &[],
                }],
            },
            MessageDesc {
                name: "set_parent",
                signature: &[ArgumentType::Object(AllowNull::No)],
                since: 1,
                is_destructor: false,
                child_interface: None,
                arg_interfaces: &[&Interface {
                    name: "<anonymous>",
                    version: 0,
                    requests: &[],
                    events: &[],
                }],
            },
            MessageDesc {
                name: "loose",
                signature: &[ArgumentType::Object(AllowNull::No)],
                since: 1,
                is_destructor: false,
                child_interface: None,
                arg_interfaces: &[],
            },
            MessageDesc {
                name: "create",
                signature: &[ArgumentType::NewId(AllowNull::No)],
                since: 1,
                is_destructor: false,
                child_interface: Some(&Interface {
                    name: "test_widget",
                    version: 2,
                    requests: &[MessageDesc {
                        name: "destroy",
                        signature: &[],
                        since: 1,
                        is_destructor: true,
                        child_interface: None,
                        arg_interfaces: &[],
                    }],
                    events: &[],
                }),
                arg_interfaces: &[],
            },
        ],
        events: &[
            MessageDesc {
                name: "enter",
                signature: &[ArgumentType::Object(AllowNull::Yes), ArgumentType::Fd],
                since: 1,
                is_destructor: false,
                child_interface: None,
                arg_interfaces: &[],
            },
            MessageDesc {
                name: "offer",
                signature: &[ArgumentType::NewId(AllowNull::No)],
                since: 1,
                is_destructor: false,
                child_interface: Some(&Interface {
                    name: "test_offer",
                    version: 2,
                    requests: &[],
                    events: &[MessageDesc {
                        name: "ping",
                        signature: &[],
                        since: 1,
                        is_destructor: false,
                        child_interface: None,
                        arg_interfaces: &[],
                    }],
                }),
                arg_interfaces: &[],
            },
            MessageDesc {
                name: "leave",
                signature: &[ArgumentType::Object(AllowNull::No)],
                since: 1,
                is_destructor: false,
                child_interface: None,
                arg_interfaces: &[&Interface {
                    name: "test_widget",
                    version: 2,
                    requests: &[],
                    events: &[],
                }],
            },
            MessageDesc {
                name: "broken",
                signature: &[ArgumentType::NewId(AllowNull::No)],
                since: 1,
                is_destructor: false,
                child_interface: None,
                arg_interfaces: &[],
            },
            MessageDesc {
                name: "closed",
                signature: &[],
                since: 1,
                is_destructor: true,
                child_interface: None,
                arg_interfaces: &[],
            },
        ],
    }
}

fn connect() -> Backend<Probe> {
    Backend::connect(None).unwrap()
}

fn request(sender: ObjectId, opcode: u16, args: Vec<Argument<ObjectId>>) -> Message<ObjectId> {
    Message { sender_id: sender, opcode, args: ArgList::<ObjectId>::from_vec(args) }
}

fn event(sender: u32, opcode: u16, args: Vec<Argument<u32>>) -> Message<u32> {
    Message { sender_id: sender, opcode, args: ArgList::<u32>::from_vec(args) }
}

fn registry(backend: &mut Backend<Probe>) -> ObjectId {
    let handle = backend.handle();
    let display = handle.display_id();
    let placeholder = handle.placeholder_id(None);
    handle
        .send_request(request(display, 1, vec![Argument::NewId(placeholder)]), Some(Probe::new()))
        .unwrap()
}

fn bind_widget(backend: &mut Backend<Probe>, registry: ObjectId, data: Arc<Probe>) -> ObjectId {
    let handle = backend.handle();
    let placeholder = handle.placeholder_id(Some((widget_interface(), 2)));
    handle
        .send_request(
            request(
                registry,
                0,
                vec![
                    Argument::Uint(1),
                    Argument::Str(b"test_widget".to_vec()),
                    Argument::Uint(2),
                    Argument::NewId(placeholder),
                ],
            ),
            Some(data),
        )
        .unwrap()
}

/// A backend with the registry at id 2 and a widget at id 3.
fn with_widget(data: Arc<Probe>) -> (Backend<Probe>, ObjectId, ObjectId) {
    let mut backend = connect();
    let reg = registry(&mut backend);
    let widget = bind_widget(&mut backend, reg, data);
    assert_eq!(reg.protocol_id(), 2);
    assert_eq!(widget.protocol_id(), 3);
    (backend, reg, widget)
}

fn sync_fault(spec: Option<(&'static Interface, u32)>, data: Option<Arc<Probe>>) -> SendError {
    let mut backend = connect();
    let handle = backend.handle();
    let display = handle.display_id();
    let placeholder = handle.placeholder_id(spec);
    let result =
        handle.try_send_request(request(display, 0, vec![Argument::NewId(placeholder)]), data);
    assert!(backend.flush().unwrap().is_empty());
    result.unwrap_err()
}

fn detected(message: &str) -> WaylandError {
    WaylandError::Protocol(ProtocolError {
        code: 0,
        object_id: 0,
        object_interface: String::new(),
        message: message.to_string(),
    })
}

fn returned_error(action: DispatchAction) -> WaylandError {
    match action {
        DispatchAction::Return(Err(e)) => e,
        _ => panic!("the round should end with an error"),
    }
}

fn fault(action: DispatchAction) -> Fault {
    match action {
        DispatchAction::Fault(f) => f,
        _ => panic!("the step should report a fault"),
    }
}

#[test]
fn decimal_renders_every_length() {
    assert_eq!(decimal(0), "0");
    assert_eq!(decimal(7), "7");
    assert_eq!(decimal(10), "10");
    assert_eq!(decimal(4096), "4096");
    assert_eq!(decimal(268435456), "268435456");
    assert_eq!(decimal(u32::MAX), "4294967295");
}

#[test]
fn str_eq_compares_by_content() {
    assert!(str_eq("", ""));
    assert!(str_eq("wl_display", "wl_display"));
    assert!(!str_eq("wl_display", "wl_displaz"));
    assert!(!str_eq("wl", "wl_display"));
    assert!(str_eq("é", "é"));
    assert_eq!(join(String::from("ab"), "cd"), "abcd");
}

#[test]
fn interfaces_match_by_name() {
    assert!(same_interface(widget_interface(), widget_stub()));
    assert!(!same_interface(widget_interface(), wl_display_interface()));
    assert!(same_interface_or_anonymous(anonymous_interface(), wl_display_interface()));
    assert!(same_interface_or_anonymous(widget_stub(), widget_interface()));
    assert!(!same_interface_or_anonymous(widget_stub(), anonymous_interface()));
    assert_eq!(anonymous_interface().name, "<anonymous>");
    assert_eq!(wl_registry_interface().requests[0].signature.len(), 4);
}

#[test]
fn signatures_are_checked_by_kind() {
    let signature = [ArgumentType::Object(AllowNull::Yes), ArgumentType::Int];
    let fits: [Argument<u32>; 2] = [Argument::Object(0), Argument::Int(-4)];
    let wrong: [Argument<u32>; 2] = [Argument::NewId(0), Argument::Int(-4)];
    let short: [Argument<u32>; 1] = [Argument::Object(0)];
    assert!(check_for_signature(&signature, &fits));
    assert!(!check_for_signature(&signature, &wrong));
    assert!(!check_for_signature(&signature, &short));
    assert!(check_for_signature::<u32>(&[], &[]));
    assert_eq!(Argument::<u32>::Fixed(1).get_type(), ArgumentType::Fixed);
    assert_eq!(Argument::<u32>::NewId(1).get_type(), ArgumentType::NewId(AllowNull::No));
    assert!(ArgumentType::Object(AllowNull::Yes).is_same_type(ArgumentType::Object(AllowNull::No)));
    assert!(!ArgumentType::Str.is_same_type(ArgumentType::Array));
    assert!(signature_creates_object(&[ArgumentType::Uint, ArgumentType::NewId(AllowNull::No)]));
    assert!(!signature_creates_object(&signature));
}

#[test]
fn argument_lists_keep_their_items_in_order() {
    let items = vec![Argument::Uint(1), Argument::Str(b"x".to_vec()), Argument::Fd(3)];
    let list = ArgList::<u32>::from_vec(items.clone());
    assert_eq!(list.as_slice(), &items[..]);
    assert_eq!(list.into_vec(), items);
    let many: Vec<Argument<u32>> = (0..9).map(Argument::Uint).collect();
    let list = ArgList::<u32>::from_vec(many.clone());
    assert_eq!(list.as_slice().len(), 9);
    assert_eq!(list.into_vec(), many);
    let ids = vec![Argument::Object(ObjectId::null()), Argument::Int(5)];
    let list = ArgList::<ObjectId>::from_vec(ids.clone());
    assert_eq!(list.as_slice(), &ids[..]);
    assert_eq!(list.into_vec(), ids);
}

#[test]
fn object_ids_compare_by_id_serial_and_interface_name() {
    let a = ObjectId { serial: 4, id: 9, interface: widget_interface() };
    assert!(a == ObjectId { serial: 4, id: 9, interface: widget_stub() });
    assert!(a != ObjectId { serial: 5, id: 9, interface: widget_interface() });
    assert!(a != ObjectId { serial: 4, id: 8, interface: widget_interface() });
    assert!(a != ObjectId { serial: 4, id: 9, interface: wl_display_interface() });
    assert_eq!(a.to_string(), "test_widget@9");
    assert!(ObjectId::null().is_null());
    assert!(!a.is_null());
    assert!(ObjectId { serial: 7, id: 0, interface: widget_interface() }.is_null());
    assert_eq!(a.interface().name, "test_widget");
    assert_eq!(a.protocol_id(), 9);
}

#[test]
fn object_map_allocates_the_lowest_free_client_id() {
    let record = |version: u32| Object { interface: widget_interface(), version, data: version };
    let mut map: ObjectMap<u32> = ObjectMap::new();
    assert_eq!(map.insert_at(1, record(1)), Ok(()));
    assert_eq!(map.insert_at(1, record(9)), Err(()));
    assert_eq!(map.insert_at(0, record(9)), Err(()));
    assert_eq!(map.client_insert_new(record(2)), Some(2));
    assert_eq!(map.client_insert_new(record(3)), Some(3));
    assert_eq!(map.client_insert_new(record(4)), Some(4));
    map.remove(3);
    assert!(map.find(3).is_none());
    assert_eq!(map.client_insert_new(record(30)), Some(3));
    assert_eq!(map.find(3).unwrap().data, 30);
    map.remove(2);
    map.remove(4);
    assert_eq!(map.client_insert_new(record(20)), Some(2));
    assert_eq!(map.client_insert_new(record(40)), Some(4));
    assert_eq!(map.client_insert_new(record(50)), Some(5));
    assert_eq!(map.insert_at(SERVER_ID_LIMIT, record(7)), Ok(()));
    assert!(map.contains(SERVER_ID_LIMIT));
    assert_eq!(map.client_insert_new(record(60)), Some(6));
    map.remove(1);
    assert_eq!(map.client_insert_new(record(70)), Some(7));
    assert!(!map.contains(1));
    let bumped = map.with(5, |mut object| {
        object.data += 1;
        let seen = object.data;
        (object, seen)
    });
    assert_eq!(bumped, Ok(51));
    assert_eq!(map.find(5).unwrap().data, 51);
    assert_eq!(map.with(99, |object| (object, ())), Err(()));
    map.remove(0);
    map.remove(99);
    assert!(map.find(0).is_none());
}

#[test]
fn freed_client_ids_are_reused_after_the_server_lets_go() {
    let (mut backend, _reg, widget) = with_widget(Probe::new());
    let handle = backend.handle();
    let p = handle.placeholder_id(None);
    let second = handle.send_request(request(widget, 4, vec![Argument::NewId(p)]), Some(Probe::new()));
    assert_eq!(second.unwrap().protocol_id(), 4);
    let p = handle.placeholder_id(None);
    let third = handle
        .send_request(request(widget, 4, vec![Argument::NewId(p)]), Some(Probe::new()))
        .unwrap();
    assert_eq!(third.protocol_id(), 5);

    // Destroying alone frees nothing: the server has not let go yet.
    handle.send_request(request(widget, 0, vec![]), None).unwrap();
    let p = handle.placeholder_id(None);
    let fourth =
        handle.send_request(request(third, 0, vec![]), None).and_then(|_| Ok(p)).unwrap();
    assert!(fourth.is_null());
    assert!(matches!(
        backend.dispatch_events(SocketEvent::Parsed(event(1, 1, vec![Argument::Uint(3)]))),
        DispatchAction::Parse
    ));
    let reg = ObjectId { serial: 1, id: 2, interface: wl_registry_interface() };
    let again = bind_widget(&mut backend, reg, Probe::new());
    assert_eq!(again.protocol_id(), 3);
    assert!(again.serial != widget.serial);
    assert_eq!(backend.handle().info(widget), Err(InvalidId));
    assert_eq!(backend.handle().info(again).unwrap().version, 2);
    let next = bind_widget(&mut backend, reg, Probe::new());
    assert_eq!(next.protocol_id(), 6);
}

#[test]
fn send_faults_name_the_misuse() {
    assert_eq!(sync_fault(None, None), SendError::Fault(Fault::MissingObjectData));
    assert_eq!(
        sync_fault(Some((widget_interface(), 1)), Some(Probe::new())),
        SendError::Fault(Fault::WrongPlaceholderInterface)
    );
    assert_eq!(
        sync_fault(Some((wl_callback_interface(), 2)), Some(Probe::new())),
        SendError::Fault(Fault::WrongPlaceholderVersion)
    );

    let mut backend = connect();
    let handle = backend.handle();
    let display = handle.display_id();
    assert_eq!(
        handle.try_send_request(request(display, 5, vec![]), None),
        Err(SendError::Fault(Fault::UnknownOpcode))
    );
    assert_eq!(
        handle.try_send_request(request(display, 0, vec![Argument::Uint(1)]), None),
        Err(SendError::Fault(Fault::SignatureMismatch))
    );
    assert_eq!(
        handle.try_send_request(request(display, 0, vec![]), None),
        Err(SendError::Fault(Fault::SignatureMismatch))
    );
    let forged = ObjectId { serial: 0, id: 5, interface: wl_callback_interface() };
    assert_eq!(
        handle.try_send_request(request(display, 0, vec![Argument::NewId(forged)]), Some(Probe::new())),
        Err(SendError::Fault(Fault::NotAPlaceholder))
    );
    assert!(backend.flush().unwrap().is_empty());
}

#[test]
fn object_arguments_are_checked_against_the_descriptor() {
    let (mut backend, reg, widget) = with_widget(Probe::new());
    let handle = backend.handle();
    let display = handle.display_id();
    let null = handle.null_id();

    assert_eq!(
        handle.try_send_request(request(widget, 1, vec![Argument::Object(display), Argument::Int(1)]), None),
        Err(SendError::Fault(Fault::WrongArgumentInterface))
    );
    assert_eq!(
        handle.try_send_request(request(widget, 2, vec![Argument::Object(null)]), None),
        Err(SendError::Fault(Fault::NullObject))
    );
    assert_eq!(
        handle.try_send_request(request(widget, 3, vec![Argument::Object(reg)]), None),
        Err(SendError::Fault(Fault::MissingArgumentInterface))
    );
    let stale = ObjectId { serial: widget.serial.wrapping_add(3), ..widget };
    assert_eq!(
        handle.try_send_request(request(widget, 1, vec![Argument::Object(stale), Argument::Int(1)]), None),
        Err(SendError::InvalidId)
    );
    assert_eq!(
        handle.send_request(request(stale, 1, vec![Argument::Object(null), Argument::Int(1)]), None),
        Err(InvalidId)
    );

    let before = backend.flush().unwrap().len();
    assert_eq!(before, 2);
    let handle = backend.handle();
    assert!(handle
        .send_request(request(widget, 1, vec![Argument::Object(null), Argument::Int(-2)]), None)
        .unwrap()
        .is_null());
    assert!(handle
        .send_request(request(widget, 1, vec![Argument::Object(widget), Argument::Int(8)]), None)
        .unwrap()
        .is_null());
    assert!(handle
        .send_request(request(widget, 2, vec![Argument::Object(display)]), None)
        .unwrap()
        .is_null());
    let queued = backend.flush().unwrap();
    assert_eq!(queued.len(), 3);
    assert_eq!(queued[0].sender_id, 3);
    assert_eq!(queued[0].opcode, 1);
    assert_eq!(queued[0].args.as_slice(), &[Argument::Object(0), Argument::Int(-2)]);
    assert_eq!(queued[1].args.as_slice(), &[Argument::Object(3), Argument::Int(8)]);
    assert_eq!(queued[2].args.as_slice(), &[Argument::Object(1)]);
    assert!(backend.flush().unwrap().is_empty());
}

#[test]
fn placeholder_is_used_up_by_the_request_that_creates() {
    let (mut backend, reg, widget) = with_widget(Probe::new());
    let handle = backend.handle();
    let hinted = handle.placeholder_id(Some((widget_interface(), 2)));
    assert_eq!(hinted.interface().name, "test_widget");
    assert!(hinted.is_null());
    let plain = handle.placeholder_id(None);
    assert_eq!(plain.interface().name, "<anonymous>");
    assert_eq!(plain, handle.null_id());

    // A request that creates nothing leaves the placeholder alone.
    let _ = handle.placeholder_id(Some((widget_interface(), 2)));
    let null = handle.null_id();
    handle.send_request(request(widget, 1, vec![Argument::Object(null), Argument::Int(0)]), None).unwrap();
    let child = handle
        .send_request(
            request(
                reg,
                0,
                vec![
                    Argument::Uint(4),
                    Argument::Str(b"test_widget".to_vec()),
                    Argument::Uint(2),
                    Argument::NewId(null),
                ],
            ),
            Some(Probe::new()),
        )
        .unwrap();
    assert_eq!(child.protocol_id(), 4);
    assert_eq!(child.serial, widget.serial + 1);
    // Used up: the next generic constructor has nothing to go by.
    assert_eq!(
        handle.try_send_request(
            request(
                reg,
                0,
                vec![
                    Argument::Uint(4),
                    Argument::Str(b"test_widget".to_vec()),
                    Argument::Uint(2),
                    Argument::NewId(null),
                ],
            ),
            Some(Probe::new()),
        ),
        Err(SendError::Fault(Fault::GenericConstructor))
    );
}

#[test]
fn event_faults_name_the_misuse() {
    let (mut backend, _reg, widget) = with_widget(Probe::new());
    let k = widget.protocol_id();
    assert_eq!(
        fault(backend.dispatch_events(SocketEvent::Parsed(event(99, 0, vec![])))),
        Fault::UnknownObject
    );
    assert_eq!(
        fault(backend.dispatch_events(SocketEvent::Parsed(event(k, 9, vec![])))),
        Fault::UnknownOpcode
    );
    assert_eq!(
        fault(backend.dispatch_events(SocketEvent::Parsed(event(1, 2, vec![])))),
        Fault::UnknownOpcode
    );
    assert_eq!(
        fault(backend.dispatch_events(SocketEvent::Parsed(event(1, 1, vec![Argument::Int(3)])))),
        Fault::MalformedDisplayEvent
    );
    assert_eq!(
        fault(backend.dispatch_events(SocketEvent::Parsed(event(1, 1, vec![])))),
        Fault::MalformedDisplayEvent
    );
    assert_eq!(
        fault(backend.dispatch_events(SocketEvent::Parsed(event(
            1,
            0,
            vec![Argument::Uint(1), Argument::Uint(1), Argument::Str(Vec::new())]
        )))),
        Fault::MalformedDisplayEvent
    );
    assert_eq!(
        fault(backend.dispatch_events(SocketEvent::Parsed(event(k, 3, vec![Argument::NewId(40)])))),
        Fault::MissingChildInterface
    );
    assert_eq!(backend.handle().last_error(), None);
    assert_eq!(backend.dispatched_count(), 0);
}

#[test]
fn callback_replies_must_fit_the_event() {
    // The event creates an object and the callback returns nothing.
    let parent = Probe::new();
    let (mut backend, _reg, widget) = with_widget(parent.clone());
    let k = widget.protocol_id();
    let action =
        backend.dispatch_events(SocketEvent::Parsed(event(k, 1, vec![Argument::NewId(SERVER_ID_LIMIT)])));
    assert_eq!(fault(action), Fault::MissingChildData);
    assert_eq!(parent.seen(), 1);
    // The child is still without data: an event for it cannot be delivered.
    let action = backend.dispatch_events(SocketEvent::Parsed(event(SERVER_ID_LIMIT, 0, vec![])));
    assert_eq!(fault(action), Fault::UninitializedObject);

    // The event creates nothing and the callback returns data.
    let parent = Probe::with_child(Probe::new());
    let (mut backend, _reg, widget) = with_widget(parent.clone());
    let action = backend.dispatch_events(SocketEvent::Parsed(event(
        widget.protocol_id(),
        0,
        vec![Argument::Object(0), Argument::Fd(3)],
    )));
    assert_eq!(fault(action), Fault::UnexpectedChildData);
    assert_eq!(backend.dispatched_count(), 0);
}

#[test]
fn announced_objects_get_the_data_that_the_callback_returns() {
    let child = Probe::new();
    let parent = Probe::with_child(child.clone());
    let (mut backend, _reg, widget) = with_widget(parent.clone());
    let k = widget.protocol_id();
    assert!(matches!(backend.dispatch_events(SocketEvent::Begin), DispatchAction::Parse));
    let action =
        backend.dispatch_events(SocketEvent::Parsed(event(k, 1, vec![Argument::NewId(SERVER_ID_LIMIT)])));
    assert!(matches!(action, DispatchAction::Parse));
    assert_eq!(backend.dispatched_count(), 1);
    let offer = ObjectId {
        serial: widget.serial + 1,
        id: SERVER_ID_LIMIT,
        interface: &Interface { name: "test_offer", version: 2, requests: &[], events: &[] },
    };
    let info = backend.handle().info(offer).unwrap();
    assert_eq!(info.id, SERVER_ID_LIMIT);
    assert_eq!(info.version, 2);
    assert_eq!(info.interface.name, "test_offer");
    match backend.handle().get_data(offer).unwrap() {
        Capability::User(d) => assert!(Arc::ptr_eq(&d, &child)),
        _ => panic!("the offer has the data returned"),
    }
    let action = backend.dispatch_events(SocketEvent::Parsed(event(SERVER_ID_LIMIT, 0, vec![])));
    assert!(matches!(action, DispatchAction::Parse));
    assert_eq!(child.seen(), 1);
    assert_eq!(backend.dispatched_count(), 2);
    assert!(matches!(
        backend.dispatch_events(SocketEvent::FillFailed(IoError::WouldBlock)),
        DispatchAction::Return(Ok(2))
    ));
}

#[test]
fn protocol_violations_are_latched_with_their_message() {
    let (mut backend, _reg, widget) = with_widget(Probe::new());
    let k = widget.protocol_id();
    let e = returned_error(
        backend.dispatch_events(SocketEvent::Parsed(event(k, 2, vec![Argument::Object(1)]))),
    );
    assert_eq!(
        e,
        detected(
            "Protocol error: server sent object 1 for interface test_widget, but it has interface wl_display."
        )
    );
    assert_eq!(backend.handle().last_error(), Some(e));

    let (mut backend, _reg, widget) = with_widget(Probe::new());
    let e = returned_error(backend.dispatch_events(SocketEvent::Parsed(event(
        widget.protocol_id(),
        1,
        vec![Argument::NewId(2)],
    ))));
    assert_eq!(
        e,
        detected("Protocol error: server tried to create an object \"test_offer\" with invalid id 2.")
    );
    assert_eq!(backend.flush(), Err(e));

    let (mut backend, _reg, widget) = with_widget(Probe::new());
    let e = returned_error(backend.dispatch_events(SocketEvent::Parsed(event(
        widget.protocol_id(),
        1,
        vec![Argument::NewId(0)],
    ))));
    assert_eq!(
        e,
        detected("Protocol error: server tried to create an object \"test_offer\" with invalid id 0.")
    );

    let mut backend = connect();
    let e = returned_error(backend.dispatch_events(SocketEvent::Malformed));
    assert_eq!(e, detected("Malformed Wayland message."));
    assert_eq!(backend.handle().last_error(), Some(e.clone()));
    assert_eq!(backend.wake(5), Some(Err(e)));
}

#[test]
fn events_may_name_live_objects_of_the_expected_interface() {
    let data = Probe::new();
    let (mut backend, _reg, widget) = with_widget(data.clone());
    let k = widget.protocol_id();
    assert!(matches!(
        backend.dispatch_events(SocketEvent::Parsed(event(k, 2, vec![Argument::Object(k)]))),
        DispatchAction::Parse
    ));
    assert!(matches!(
        backend.dispatch_events(SocketEvent::Parsed(event(
            k,
            0,
            vec![Argument::Object(1), Argument::Fd(4)]
        ))),
        DispatchAction::Parse
    ));
    assert_eq!(data.events.lock().unwrap().clone(), vec![(k, 2, 1), (k, 0, 2)]);
    assert_eq!(backend.dispatched_count(), 2);
}

#[test]
fn stale_server_slot_is_evicted_and_live_slot_is_an_error() {
    let first = Probe::new();
    let (mut backend, reg, widget) = with_widget(first.clone());
    let second_data = Probe::with_child(Probe::new());
    let second = bind_widget(&mut backend, reg, second_data.clone());
    let slot = SERVER_ID_LIMIT + 2;

    // The first widget is destroyed by the client; what the server still
    // announces through it is born destroyed.
    backend.handle().send_request(request(widget, 0, vec![]), None).unwrap();
    let action = backend
        .dispatch_events(SocketEvent::Parsed(event(widget.protocol_id(), 1, vec![Argument::NewId(slot)])));
    assert!(matches!(action, DispatchAction::Close(fds) if fds.is_empty()));
    assert_eq!(first.seen(), 0);
    assert_eq!(backend.event_signature(slot, 0), Some(&[][..]));
    let stale = ObjectId {
        serial: second.serial + 1,
        id: slot,
        interface: &Interface { name: "test_offer", version: 2, requests: &[], events: &[] },
    };
    assert_eq!(backend.handle().info(stale), Err(InvalidId));

    // The slot is taken over by a live announcement.
    let action = backend
        .dispatch_events(SocketEvent::Parsed(event(second.protocol_id(), 1, vec![Argument::NewId(slot)])));
    assert!(matches!(action, DispatchAction::Parse));
    let fresh = ObjectId { serial: second.serial + 2, ..stale };
    assert_eq!(backend.handle().info(fresh).unwrap().id, slot);
    assert_eq!(backend.handle().last_error(), None);

    // A second announcement of the slot, now live, is a protocol error.
    second_data.children.lock().unwrap().push(Probe::new());
    let e = returned_error(backend.dispatch_events(SocketEvent::Parsed(event(
        second.protocol_id(),
        1,
        vec![Argument::NewId(slot)],
    ))));
    assert_eq!(
        e,
        detected(
            "Protocol error: server tried to create an object \"test_offer\" with invalid id 4278190082."
        )
    );
    assert_eq!(backend.handle().info(fresh).unwrap().id, slot);
}

#[test]
fn records_leave_only_when_both_sides_are_done() {
    let data = Probe::new();
    let (mut backend, _reg, widget) = with_widget(data.clone());
    let k = widget.protocol_id();

    // The server lets go first: the record stays until the client is done.
    assert!(matches!(
        backend.dispatch_events(SocketEvent::Parsed(event(1, 1, vec![Argument::Uint(k)]))),
        DispatchAction::Parse
    ));
    assert_eq!(backend.handle().info(widget).unwrap().id, k);
    backend.handle().send_request(request(widget, 0, vec![]), None).unwrap();
    assert!(backend.event_signature(k, 0).is_some());
    assert_eq!(backend.handle().info(widget), Err(InvalidId));
    assert!(matches!(
        backend.dispatch_events(SocketEvent::Parsed(event(1, 1, vec![Argument::Uint(k)]))),
        DispatchAction::Parse
    ));
    assert!(backend.event_signature(k, 0).is_none());

    // Letting go of an id that holds nothing, and of the display, changes nothing.
    assert!(matches!(
        backend.dispatch_events(SocketEvent::Parsed(event(1, 1, vec![Argument::Uint(77)]))),
        DispatchAction::Parse
    ));
    assert!(matches!(
        backend.dispatch_events(SocketEvent::Parsed(event(1, 1, vec![Argument::Uint(1)]))),
        DispatchAction::Parse
    ));
    let display = backend.handle().display_id();
    assert_eq!(backend.handle().info(display).unwrap().interface.name, "wl_display");
    assert_eq!(data.gone(), 1);
}

#[test]
fn destructor_event_ends_the_object_once() {
    let data = Probe::new();
    let (mut backend, _reg, widget) = with_widget(data.clone());
    let k = widget.protocol_id();
    assert!(matches!(backend.dispatch_events(SocketEvent::Begin), DispatchAction::Parse));
    assert!(matches!(
        backend.dispatch_events(SocketEvent::Parsed(event(k, 4, vec![]))),
        DispatchAction::Parse
    ));
    assert_eq!(data.seen(), 1);
    assert_eq!(data.gone(), 1);
    assert_eq!(backend.handle().info(widget), Err(InvalidId));
    // Later events are dropped, and the object is not told again.
    assert!(matches!(
        backend.dispatch_events(SocketEvent::Parsed(event(
            k,
            0,
            vec![Argument::Object(0), Argument::Fd(11)]
        ))),
        DispatchAction::Close(fds) if fds == vec![11]
    ));
    assert!(matches!(
        backend.dispatch_events(SocketEvent::Parsed(event(k, 4, vec![]))),
        DispatchAction::Close(fds) if fds.is_empty()
    ));
    assert_eq!(data.seen(), 1);
    assert_eq!(data.gone(), 1);
    assert_eq!(backend.dispatched_count(), 1);
    assert!(matches!(
        backend.dispatch_events(SocketEvent::Parsed(event(1, 1, vec![Argument::Uint(k)]))),
        DispatchAction::Parse
    ));
    assert!(backend.event_signature(k, 0).is_none());
}

#[test]
fn dispatch_message_reports_what_became_of_the_event() {
    let data = Probe::new();
    let (mut backend, _reg, widget) = with_widget(data.clone());
    let k = widget.protocol_id();
    assert!(matches!(
        backend.dispatch_message(event(k, 0, vec![Argument::Object(0), Argument::Fd(2)])),
        Ok(Dispatched::Delivered)
    ));
    assert!(matches!(
        backend.dispatch_message(event(1, 1, vec![Argument::Uint(50)])),
        Ok(Dispatched::Handled)
    ));
    backend.handle().send_request(request(widget, 0, vec![]), None).unwrap();
    assert!(matches!(
        backend.dispatch_message(event(k, 0, vec![Argument::Object(0), Argument::Fd(2)])),
        Ok(Dispatched::Swallowed(fds)) if fds == vec![2]
    ));
    assert!(matches!(
        backend.dispatch_message(event(70, 0, vec![])),
        Err(EventFailure::Fault(Fault::UnknownObject))
    ));
    assert!(matches!(
        backend.dispatch_message(event(2, 0, vec![Argument::Object(70)])),
        Err(EventFailure::Failed(WaylandError::Protocol(_)))
    ));
}

#[test]
fn io_failures_latch_unless_they_would_block() {
    let mut backend = connect();
    assert_eq!(backend.flush_failed(IoError::WouldBlock), WaylandError::Io(IoError::WouldBlock));
    assert_eq!(backend.handle().last_error(), None);
    assert!(backend.flush().is_ok());
    assert_eq!(backend.flush_failed(IoError::Os(104)), WaylandError::Io(IoError::Os(104)));
    assert_eq!(backend.handle().last_error(), Some(WaylandError::Io(IoError::Os(104))));
    assert_eq!(backend.flush(), Err(WaylandError::Io(IoError::Os(104))));

    let mut backend = connect();
    backend.write_failed(IoError::WouldBlock);
    assert_eq!(backend.flush(), Err(WaylandError::Io(IoError::WouldBlock)));

    let mut backend = connect();
    assert!(matches!(backend.dispatch_events(SocketEvent::Begin), DispatchAction::Parse));
    assert!(matches!(backend.dispatch_events(SocketEvent::MissingFd), DispatchAction::Fill));
    assert!(matches!(backend.dispatch_events(SocketEvent::Filled), DispatchAction::Parse));
    assert!(matches!(
        backend.dispatch_events(SocketEvent::FillFailed(IoError::Other)),
        DispatchAction::Return(Err(WaylandError::Io(IoError::Other)))
    ));
    assert!(matches!(
        backend.dispatch_events(SocketEvent::Begin),
        DispatchAction::Return(Err(WaylandError::Io(IoError::Other)))
    ));
    assert!(IoError::WouldBlock.is_would_block());
    assert!(!IoError::BrokenPipe.is_would_block());
}

#[test]
fn latched_error_leaves_the_queue_alone() {
    let mut backend = connect();
    let reg = registry(&mut backend);
    assert_eq!(reg.protocol_id(), 2);
    backend.write_failed(IoError::BrokenPipe);
    assert_eq!(backend.flush(), Err(WaylandError::Io(IoError::BrokenPipe)));
    assert_eq!(backend.flush(), Err(WaylandError::Io(IoError::BrokenPipe)));
    assert_eq!(backend.handle().info(reg).unwrap().id, 2);
    assert_eq!(backend.dispatched_count(), 0);
}

#[test]
fn cancelling_the_last_guard_ends_the_round() {
    let mut backend = connect();
    let a = ReadEventsGuard::try_new(&mut backend).unwrap();
    let mut b = ReadEventsGuard::try_new(&mut backend).unwrap();
    let mut c = ReadEventsGuard::try_new(&mut backend).unwrap();
    assert_eq!(backend.prepared_read_count(), 3);
    assert!(!c.cancel(&mut backend));
    assert!(!c.cancel(&mut backend));
    assert_eq!(backend.prepared_read_count(), 2);
    assert_eq!(a.read(&mut backend), ReadTurn::Wait(0));
    assert_eq!(backend.wake(0), None);
    assert!(b.cancel(&mut backend));
    assert_eq!(backend.prepared_read_count(), 0);
    assert_eq!(backend.wake(0), Some(Ok(0)));

    let d = ReadEventsGuard::try_new(&mut backend).unwrap();
    assert_eq!(d.read(&mut backend), ReadTurn::Drain);
    backend.finish_read();
    assert_eq!(backend.wake(1), Some(Ok(0)));
    assert_eq!(backend.wake(2), None);
}

#[test]
fn debug_setting_is_read_at_connect() {
    assert!(Backend::<Probe>::connect(Some("1")).unwrap().handle().debug());
    assert!(Backend::<Probe>::connect(Some("client")).unwrap().handle().debug());
    assert!(!Backend::<Probe>::connect(Some("server")).unwrap().handle().debug());
    assert!(!Backend::<Probe>::connect(Some("")).unwrap().handle().debug());
    assert!(!Backend::<Probe>::connect(None).unwrap().handle().debug());
}

#[test]
fn lossy_text_replaces_invalid_bytes() {
    let mut backend = connect();
    let e = returned_error(backend.dispatch_events(SocketEvent::Parsed(event(
        1,
        0,
        vec![Argument::Object(1), Argument::Uint(2), Argument::Str(vec![b'o', 0xFF, b'k'])],
    ))));
    assert_eq!(
        e,
        WaylandError::Protocol(ProtocolError {
            code: 2,
            object_id: 1,
            object_interface: "wl_display".to_string(),
            message: "o\u{FFFD}k".to_string(),
        })
    );
}

#[test]
fn connect_target_follows_the_environment() {
    assert_eq!(Connection::<Probe>::connect_to_env(Some("5"), false, false), Ok(ConnectTarget::Inherited(5)));
    assert_eq!(Connection::<Probe>::connect_to_env(Some("-1"), true, true), Ok(ConnectTarget::Inherited(-1)));
    assert_eq!(Connection::<Probe>::connect_to_env(Some("five"), true, true), Err(ConnectError::InvalidFd));
    assert_eq!(
        Connection::<Probe>::connect_to_env(Some("99999999999"), true, true),
        Err(ConnectError::InvalidFd)
    );
    assert_eq!(Connection::<Probe>::connect_to_env(None, true, true), Ok(ConnectTarget::Named));
    assert_eq!(Connection::<Probe>::connect_to_env(None, false, true), Err(ConnectError::NoCompositor));
    assert_eq!(Connection::<Probe>::connect_to_env(None, true, false), Err(ConnectError::NoCompositor));
    assert_eq!(choose_target(Some(None), true, true), Err(ConnectError::InvalidFd));
    assert_eq!(ConnectError::NoWaylandLib.to_string(), "The wayland library could not be loaded");
    assert_eq!(ConnectError::NoCompositor.to_string(), "Could not find wayland compositor");
    assert_eq!(ConnectError::InvalidFd.to_string(), "WAYLAND_SOCKET was set but contained garbage");
}

#[test]
fn connection_forwards_to_its_backend() {
    let mut connection = Connection::<Probe>::from_socket(Some("client")).unwrap();
    assert_eq!(connection.backend().prepared_read_count(), 0);
    let data = Probe::new();
    let (display, reg) = {
        let mut handle = connection.handle();
        let display = handle.display();
        let placeholder = handle.placeholder_id(None);
        let reg = handle
            .send_request(request(display, 1, vec![Argument::NewId(placeholder)]), Some(data.clone()))
            .unwrap();
        assert!(handle.null_id().is_null());
        assert_eq!(handle.object_info(reg).unwrap().interface.name, "wl_registry");
        assert!(matches!(handle.get_object_data(reg), Ok(Capability::User(_))));
        assert!(matches!(handle.get_object_data(display), Ok(Capability::Null)));
        (display, reg)
    };
    assert_eq!(display.protocol_id(), 1);
    assert_eq!(reg.protocol_id(), 2);
    assert_eq!(connection.flush().unwrap().len(), 1);
    let guard = connection.prepare_read().unwrap();
    assert_eq!(connection.backend().prepared_read_count(), 1);
    assert_eq!(guard.read(connection.backend_mut()), ReadTurn::Drain);
    assert_eq!(connection.blocking_dispatch(Ok(4)), Ok(4));
    assert_eq!(connection.blocking_dispatch(Err(WaylandError::Io(IoError::WouldBlock))), Ok(0));
    assert_eq!(
        connection.blocking_dispatch(Err(WaylandError::Io(IoError::Other))),
        Err(WaylandError::Io(IoError::Other))
    );
    let mut backend = Backend::<Probe>::connect(None).unwrap();
    {
        let mut handle = ConnectionHandle::from_handle(backend.handle());
        assert_eq!(handle.display().protocol_id(), 1);
    }
    let connection = Connection::from_backend(backend);
    assert!(!connection.backend().event_signature(1, 0).is_none());
}

#[test]
fn roundtrip_ends_when_the_callback_fires() {
    let mut connection = Connection::<SyncData>::from_socket(None).unwrap();
    let done = Arc::new(AtomicBool::new(false));
    let data = Arc::new(SyncData::new(done.clone()));
    let callback = connection.roundtrip(data.clone()).unwrap();
    assert_eq!(callback.protocol_id(), 2);
    assert_eq!(callback.serial, 1);
    assert_eq!(callback.interface().name, "wl_callback");
    let queued = connection.flush().unwrap();
    assert_eq!(queued.len(), 1);
    assert_eq!(queued[0].sender_id, 1);
    assert_eq!(queued[0].opcode, 0);
    assert_eq!(queued[0].args.as_slice(), &[Argument::NewId(2)]);
    assert!(!data.is_done());
    let backend = connection.backend_mut();
    assert!(matches!(backend.dispatch_events(SocketEvent::Begin), DispatchAction::Parse));
    assert!(matches!(
        backend.dispatch_events(SocketEvent::Parsed(event(2, 0, vec![Argument::Uint(1)]))),
        DispatchAction::Parse
    ));
    assert!(data.is_done());
    assert!(done.load(Ordering::SeqCst));
}

#[test]
fn callbacks_may_send_requests() {
    struct Echo;
    impl ObjectData for Echo {
        fn event(&self, handle: &mut Handle<Echo>, msg: Message<ObjectId>) -> Option<Arc<Echo>> {
            let display = handle.display_id();
            let placeholder = handle.placeholder_id(None);
            let args = ArgList::<ObjectId>::from_vec(vec![Argument::NewId(placeholder)]);
            let sent = handle
                .send_request(Message { sender_id: display, opcode: 0, args }, Some(Arc::new(Echo)))
                .unwrap();
            assert_eq!(sent.protocol_id(), 3);
            assert_eq!(handle.info(msg.sender_id), Ok(handle.info(msg.sender_id).unwrap()));
            None
        }

        fn destroyed(&self, _object_id: ObjectId) {}
    }
    let mut backend: Backend<Echo> = Backend::connect(None).unwrap();
    let handle = backend.handle();
    let display = handle.display_id();
    let placeholder = handle.placeholder_id(None);
    let args = ArgList::<ObjectId>::from_vec(vec![Argument::NewId(placeholder)]);
    let first = handle
        .send_request(Message { sender_id: display, opcode: 0, args }, Some(Arc::new(Echo)))
        .unwrap();
    assert_eq!(backend.flush().unwrap().len(), 1);
    assert!(matches!(
        backend.dispatch_events(SocketEvent::Parsed(event(
            first.protocol_id(),
            0,
            vec![Argument::Uint(0)]
        ))),
        DispatchAction::Parse
    ));
    let queued = backend.flush().unwrap();
    assert_eq!(queued.len(), 1);
    assert_eq!(queued[0].args.as_slice(), &[Argument::NewId(3)]);
    assert_eq!(backend.handle().info(first), Err(InvalidId));
}

#[test]
fn events_are_prepared_and_finished_in_two_steps() {
    let data = Probe::new();
    let (mut backend, _reg, widget) = with_widget(data.clone());
    let k = widget.protocol_id();

    // An event that announces an object: the object is in the map before
    // any callback runs, without data.
    let prepared = backend.prepare_event(event(k, 1, vec![Argument::NewId(SERVER_ID_LIMIT + 7)]));
    let (sender_data, id, created, destructor) = match prepared {
        Ok(Prepared::Deliver { data, id, message, created, destructor }) => {
            assert_eq!(message.sender_id, widget);
            assert_eq!(message.opcode, 1);
            assert_eq!(message.args.as_slice().len(), 1);
            assert!(matches!(
                message.args.as_slice()[0],
                Argument::NewId(child) if Some(child) == created
            ));
            (data, id, created, destructor)
        }
        _ => panic!("the event is due to the widget"),
    };
    assert!(Arc::ptr_eq(&sender_data, &data));
    assert_eq!(id, widget);
    assert!(!destructor);
    let child = created.unwrap();
    assert_eq!(child.protocol_id(), SERVER_ID_LIMIT + 7);
    assert_eq!(child.serial, widget.serial + 1);
    assert_eq!(child.interface().name, "test_offer");
    assert!(matches!(backend.handle().get_data(child), Ok(Capability::Uninit)));
    assert_eq!(data.seen(), 0);

    // No data for the object created: a misuse, and the object stays as it is.
    assert_eq!(
        backend.finish_event(&sender_data, id, false, created, None),
        Err(Fault::MissingChildData)
    );
    assert!(matches!(backend.handle().get_data(child), Ok(Capability::Uninit)));
    // Data for it: attached.
    let child_data = Probe::new();
    assert_eq!(backend.finish_event(&sender_data, id, false, created, Some(child_data.clone())), Ok(()));
    match backend.handle().get_data(child).unwrap() {
        Capability::User(d) => assert!(Arc::ptr_eq(&d, &child_data)),
        _ => panic!("the child has the data given"),
    }
    // Data where nothing was created: a misuse.
    assert_eq!(
        backend.finish_event(&sender_data, id, false, None, Some(Probe::new())),
        Err(Fault::UnexpectedChildData)
    );
    assert_eq!(backend.finish_event(&sender_data, id, false, None, None), Ok(()));
    assert_eq!(data.gone(), 0);
    assert_eq!(backend.handle().info(widget).unwrap().id, k);

    // A destructor marks the sender and tells its data, once.
    assert_eq!(backend.finish_event(&sender_data, id, true, None, None), Ok(()));
    assert_eq!(data.gone(), 1);
    assert_eq!(backend.handle().info(widget), Err(InvalidId));
    assert!(backend.event_signature(k, 0).is_some());

    // A sender or a child that the map does not hold.
    let ghost = ObjectId { id: 4000, ..widget };
    assert_eq!(backend.finish_event(&sender_data, ghost, true, None, None), Err(Fault::UnknownObject));
    assert_eq!(
        backend.finish_event(&sender_data, id, false, Some(ghost), Some(Probe::new())),
        Err(Fault::UnknownObject)
    );
    assert_eq!(data.gone(), 1);

    // What the display sends is handled in the first step.
    assert!(matches!(
        backend.prepare_event(event(1, 1, vec![Argument::Uint(k)])),
        Ok(Prepared::Handled)
    ));
    assert!(backend.event_signature(k, 0).is_none());
    assert!(matches!(
        backend.prepare_event(event(SERVER_ID_LIMIT + 7, 0, vec![])),
        Ok(Prepared::Deliver { created: None, destructor: false, .. })
    ));
    assert!(matches!(
        backend.prepare_event(event(1, 0, vec![])),
        Err(EventFailure::Fault(Fault::MalformedDisplayEvent))
    ));
}

#[test]
fn latched_connection_takes_no_request() {
    let data = Probe::new();
    let (mut backend, reg, widget) = with_widget(data.clone());
    assert_eq!(backend.flush().unwrap().len(), 2);
    backend.write_failed(IoError::Os(32));
    let latched = WaylandError::Io(IoError::Os(32));

    let handle = backend.handle();
    let display = handle.display_id();
    let placeholder = handle.placeholder_id(Some((widget_interface(), 2)));
    assert!(placeholder.is_null());
    // A valid request that would create an object: refused, nothing entered.
    let null = handle.null_id();
    assert_eq!(
        handle.try_send_request(request(display, 0, vec![Argument::NewId(null)]), Some(Probe::new())),
        Err(SendError::Latched)
    );
    assert_eq!(
        handle.try_send_request(
            request(
                reg,
                0,
                vec![
                    Argument::Uint(1),
                    Argument::Str(b"test_widget".to_vec()),
                    Argument::Uint(2),
                    Argument::NewId(placeholder),
                ],
            ),
            Some(Probe::new())
        ),
        Err(SendError::Latched)
    );
    // A destructor: refused, the object stays live and is not told.
    assert_eq!(handle.send_request(request(widget, 0, vec![]), None), Err(InvalidId));
    assert_eq!(data.gone(), 0);
    assert_eq!(handle.info(widget).unwrap().id, 3);
    // A misuse is not even looked at.
    assert_eq!(handle.try_send_request(request(display, 9, vec![]), None), Err(SendError::Latched));
    assert_eq!(handle.set_data(widget, Probe::new()), Err(InvalidId));
    match handle.get_data(widget).unwrap() {
        Capability::User(d) => assert!(Arc::ptr_eq(&d, &data)),
        _ => panic!("the widget keeps its data"),
    }
    assert_eq!(handle.last_error(), Some(latched.clone()));
    assert!(backend.event_signature(4, 0).is_none());
    assert_eq!(backend.flush(), Err(latched.clone()));

    let mut connection = Connection::<Probe>::from_backend(backend);
    assert_eq!(connection.roundtrip(Probe::new()), Err(latched.clone()));
    assert!(connection.backend().event_signature(4, 0).is_none());
    assert_eq!(connection.flush(), Err(latched));
}

#[test]
fn first_error_sticks() {
    let mut backend = connect();
    backend.write_failed(IoError::Os(5));
    backend.write_failed(IoError::Os(6));
    let first = WaylandError::Io(IoError::Os(5));
    assert_eq!(backend.handle().last_error(), Some(first.clone()));
    assert_eq!(backend.flush_failed(IoError::BrokenPipe), first);
    assert_eq!(backend.flush_failed(IoError::WouldBlock), WaylandError::Io(IoError::WouldBlock));
    assert_eq!(backend.handle().last_error(), Some(first.clone()));
    assert_eq!(backend.latch_display_error(1, 3, "late".to_string()), first);
    assert_eq!(returned_error(backend.dispatch_events(SocketEvent::Malformed)), first);
    assert_eq!(
        returned_error(backend.dispatch_events(SocketEvent::FillFailed(IoError::Other))),
        first
    );
    assert_eq!(
        returned_error(backend.dispatch_events(SocketEvent::Parsed(event(
            1,
            0,
            vec![Argument::Object(1), Argument::Uint(2), Argument::Str(b"x".to_vec())]
        )))),
        first
    );
    assert_eq!(backend.handle().last_error(), Some(first.clone()));
    assert_eq!(backend.flush(), Err(first.clone()));
    assert_eq!(backend.wake(9), Some(Err(first)));
}

#[test]
fn display_error_is_latched_from_its_text() {
    let (mut backend, _reg, widget) = with_widget(Probe::new());
    let k = widget.protocol_id();
    let e = backend.latch_display_error(k, 7, "bad".to_string());
    assert_eq!(
        e,
        WaylandError::Protocol(ProtocolError {
            code: 7,
            object_id: k,
            object_interface: "test_widget".to_string(),
            message: "bad".to_string(),
        })
    );
    assert_eq!(backend.handle().last_error(), Some(e.clone()));
    assert_eq!(backend.flush(), Err(e));

    let mut backend = connect();
    let e = backend.latch_display_error(40, 0, String::new());
    assert_eq!(
        e,
        WaylandError::Protocol(ProtocolError {
            code: 0,
            object_id: 40,
            object_interface: "<unknown>".to_string(),
            message: String::new(),
        })
    );
    assert_eq!(backend.handle().last_error(), Some(e));
}

#[test]
fn socket_descriptor_is_read_in_base_ten_with_a_sign() {
    let read = |text: &str| Connection::<Probe>::connect_to_env(Some(text), true, true);
    assert_eq!(read("0"), Ok(ConnectTarget::Inherited(0)));
    assert_eq!(read("+5"), Ok(ConnectTarget::Inherited(5)));
    assert_eq!(read("-0"), Ok(ConnectTarget::Inherited(0)));
    assert_eq!(read("007"), Ok(ConnectTarget::Inherited(7)));
    assert_eq!(read("00000000000000000000012"), Ok(ConnectTarget::Inherited(12)));
    assert_eq!(read("2147483647"), Ok(ConnectTarget::Inherited(i32::MAX)));
    assert_eq!(read("-2147483648"), Ok(ConnectTarget::Inherited(i32::MIN)));
    for garbage in [
        "", "+", "-", "+-1", "--1", " 5", "5 ", "5\n", "1_0", "0x10", "1.0", "2147483648",
        "-2147483649", "99999999999999999999", "\u{0663}", "five",
    ] {
        assert_eq!(read(garbage), Err(ConnectError::InvalidFd), "{:?}", garbage);
    }
}

#[test]
fn violations_are_found_among_other_arguments() {
    // An unknown object after arguments that name none.
    let data = Probe::new();
    let (mut backend, _reg, widget) = with_widget(data.clone());
    let k = widget.protocol_id();
    let e = returned_error(backend.dispatch_events(SocketEvent::Parsed(event(
        k,
        0,
        vec![Argument::Object(0), Argument::Fd(9), Argument::Int(-1), Argument::Object(600)],
    ))));
    assert_eq!(e, detected("Unknown object 600."));
    assert_eq!(data.seen(), 0);
    assert_eq!(backend.dispatched_count(), 0);
    assert_eq!(backend.handle().info(widget).unwrap().id, k);

    // A new id on a slot in use, after other arguments: the record stays.
    let (mut backend, reg, widget) = with_widget(Probe::new());
    let e = returned_error(backend.dispatch_events(SocketEvent::Parsed(event(
        widget.protocol_id(),
        1,
        vec![Argument::Uint(4), Argument::Str(b"s".to_vec()), Argument::NewId(2)],
    ))));
    assert_eq!(
        e,
        detected("Protocol error: server tried to create an object \"test_offer\" with invalid id 2.")
    );
    assert_eq!(backend.handle().info(reg).unwrap().interface.name, "wl_registry");

    // A new id on a free slot, between other arguments.
    let child = Probe::new();
    let parent = Probe::with_child(child.clone());
    let (mut backend, _reg, widget) = with_widget(parent.clone());
    assert!(matches!(backend.dispatch_events(SocketEvent::Begin), DispatchAction::Parse));
    let action = backend.dispatch_events(SocketEvent::Parsed(event(
        widget.protocol_id(),
        1,
        vec![Argument::Fd(1), Argument::NewId(SERVER_ID_LIMIT + 1), Argument::Uint(2)],
    )));
    assert!(matches!(action, DispatchAction::Parse));
    assert_eq!(parent.events.lock().unwrap().clone(), vec![(3, 1, 3)]);
    let offer = ObjectId {
        serial: widget.serial + 1,
        id: SERVER_ID_LIMIT + 1,
        interface: &Interface { name: "test_offer", version: 2, requests: &[], events: &[] },
    };
    match backend.handle().get_data(offer).unwrap() {
        Capability::User(d) => assert!(Arc::ptr_eq(&d, &child)),
        _ => panic!("the offer has the data returned"),
    }
    assert_eq!(backend.handle().info(offer).unwrap().version, 2);
    assert!(matches!(
        backend.dispatch_events(SocketEvent::FillFailed(IoError::WouldBlock)),
        DispatchAction::Return(Ok(1))
    ));

    // A dropped event hands back every descriptor it carried, in order.
    let (mut backend, _reg, widget) = with_widget(Probe::new());
    backend.handle().send_request(request(widget, 0, vec![]), None).unwrap();
    let action = backend.dispatch_events(SocketEvent::Parsed(event(
        widget.protocol_id(),
        0,
        vec![Argument::Fd(4), Argument::Object(0), Argument::Fd(8), Argument::Uint(1), Argument::Fd(6)],
    )));
    assert!(matches!(action, DispatchAction::Close(fds) if fds == vec![4, 8, 6]));
    assert_eq!(backend.handle().last_error(), None);
}
