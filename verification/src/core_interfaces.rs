//! The interfaces that every connection starts from.

use crate::protocol::{AllowNull, ArgumentType, Interface, MessageDesc};
use vstd::prelude::*;

verus! {

/// The name of the display interface.
pub open spec fn display_name() -> Seq<char> {
    "wl_display"@
}

/// Whether `i` can stand for the display: it has the display's name and no
/// request of it ends the object's life.
pub open spec fn is_display_interface(i: &Interface) -> bool {
    &&& i.name@ == display_name()
    &&& forall|k: int| 0 <= k < i.requests@.len() ==> !(#[trigger] i.requests@[k]).is_destructor
}

/// The callback interface as a value.
pub open spec fn wl_callback() -> &'static Interface {
    &Interface {
        name: "wl_callback",
        version: 1,
        requests: &[],
        events: &[
            MessageDesc {
                name: "done",
                signature: &[ArgumentType::Uint],
                since: 1,
                is_destructor: true,
                child_interface: None,
                arg_interfaces: &[],
            },
        ],
    }
}

/// The registry interface as a value.
pub open spec fn wl_registry() -> &'static Interface {
    &Interface {
        name: "wl_registry",
        version: 1,
        requests: &[
            MessageDesc {
                name: "bind",
                signature: &[
                    ArgumentType::Uint,
                    ArgumentType::Str,
                    ArgumentType::Uint,
                    ArgumentType::NewId(AllowNull::No),
                ],
                since: 1,
                is_destructor: false,
                child_interface: None,
                arg_interfaces: &[],
            },
        ],
        events: &[
            MessageDesc {
                name: "global",
                signature: &[ArgumentType::Uint, ArgumentType::Str, ArgumentType::Uint],
                since: 1,
                is_destructor: false,
                child_interface: None,
                arg_interfaces: &[],
            },
            MessageDesc {
                name: "global_remove",
                signature: &[ArgumentType::Uint],
                since: 1,
                is_destructor: false,
                child_interface: None,
                arg_interfaces: &[],
            },
        ],
    }
}

/// The display interface as a value.
pub open spec fn wl_display() -> &'static Interface {
    &Interface {
        name: "wl_display",
        version: 1,
        requests: &[
            MessageDesc {
                name: "sync",
                signature: &[ArgumentType::NewId(AllowNull::No)],
                since: 1,
                is_destructor: false,
                child_interface: Some(
                    &Interface {
                        name: "wl_callback",
                        version: 1,
                        requests: &[],
                        events: &[
                            MessageDesc {
                                name: "done",
                                signature: &[ArgumentType::Uint],
                                since: 1,
                                is_destructor: true,
                                child_interface: None,
                                arg_interfaces: &[],
                            },
                        ],
                    },
                ),
                arg_interfaces: &[],
            },
            MessageDesc {
                name: "get_registry",
                signature: &[ArgumentType::NewId(AllowNull::No)],
                since: 1,
                is_destructor: false,
                child_interface: Some(
                    &Interface {
                        name: "wl_registry",
                        version: 1,
                        requests: &[
                            MessageDesc {
                                name: "bind",
                                signature: &[
                                    ArgumentType::Uint,
                                    ArgumentType::Str,
                                    ArgumentType::Uint,
                                    ArgumentType::NewId(AllowNull::No),
                                ],
                                since: 1,
                                is_destructor: false,
                                child_interface: None,
                                arg_interfaces: &[],
                            },
                        ],
                        events: &[
                            MessageDesc {
                                name: "global",
                                signature: &[
                                    ArgumentType::Uint,
                                    ArgumentType::Str,
                                    ArgumentType::Uint,
                                ],
                                since: 1,
                                is_destructor: false,
                                child_interface: None,
                                arg_interfaces: &[],
                            },
                            MessageDesc {
                                name: "global_remove",
                                signature: &[ArgumentType::Uint],
                                since: 1,
                                is_destructor: false,
                                child_interface: None,
                                arg_interfaces: &[],
                            },
                        ],
                    },
                ),
                arg_interfaces: &[],
            },
        ],
        events: &[
            MessageDesc {
                name: "error",
                signature: &[
                    ArgumentType::Object(AllowNull::No),
                    ArgumentType::Uint,
                    ArgumentType::Str,
                ],
                since: 1,
                is_destructor: false,
                child_interface: None,
                arg_interfaces: &[],
            },
            MessageDesc {
                name: "delete_id",
                signature: &[ArgumentType::Uint],
                since: 1,
                is_destructor: false,
                child_interface: None,
                arg_interfaces: &[],
            },
        ],
    }
}

/// The display interface is its own kind: no request of it is a destructor.
pub proof fn lemma_display_interface()
    ensures
        is_display_interface(wl_display()),
{
    reveal_strlit("wl_display");
    assert(wl_display().requests@.len() == 2);
    assert(!wl_display().requests@[0].is_destructor);
    assert(!wl_display().requests@[1].is_destructor);
}

/// The first request of the display, `sync`, creates a callback.
pub proof fn lemma_display_sync()
    ensures
        wl_display().requests@.len() == 2,
        wl_display().requests@[0].signature@ == seq![ArgumentType::NewId(AllowNull::No)],
        wl_display().requests@[0].child_interface == Some(wl_callback()),
        wl_display().requests@[0].arg_interfaces@.len() == 0,
        !wl_display().requests@[0].is_destructor,
        wl_display().version == 1,
{
    assert(wl_display().requests@[0].signature@ =~= seq![ArgumentType::NewId(AllowNull::No)]);
}

/// The callback interface: one event, `done`, which ends the object.
pub fn wl_callback_interface() -> (r: &'static Interface)
    ensures
        r == wl_callback(),
        r.name@ == "wl_callback"@,
        r.version == 1,
        r.requests@.len() == 0,
        r.events@.len() == 1,
        r.events@[0].is_destructor,
        r.events@[0].signature@ == seq![ArgumentType::Uint],
        r.events@[0].child_interface is None,
{
    let r: &'static Interface = &Interface {
        name: "wl_callback",
        version: 1,
        requests: &[],
        events: &[
            MessageDesc {
                name: "done",
                signature: &[ArgumentType::Uint],
                since: 1,
                is_destructor: true,
                child_interface: None,
                arg_interfaces: &[],
            },
        ],
    };
    assert(r.events@[0].signature@ =~= seq![ArgumentType::Uint]);
    r
}

/// The registry interface: the generic constructor `bind`, and the events
/// `global` and `global_remove`.
pub fn wl_registry_interface() -> (r: &'static Interface)
    ensures
        r == wl_registry(),
        r.name@ == "wl_registry"@,
        r.version == 1,
        r.requests@.len() == 1,
        !r.requests@[0].is_destructor,
        r.requests@[0].child_interface is None,
        r.requests@[0].signature@ == seq![
            ArgumentType::Uint,
            ArgumentType::Str,
            ArgumentType::Uint,
            ArgumentType::NewId(AllowNull::No),
        ],
        r.events@.len() == 2,
{
    let r: &'static Interface = &Interface {
        name: "wl_registry",
        version: 1,
        requests: &[
            MessageDesc {
                name: "bind",
                signature: &[
                    ArgumentType::Uint,
                    ArgumentType::Str,
                    ArgumentType::Uint,
                    ArgumentType::NewId(AllowNull::No),
                ],
                since: 1,
                is_destructor: false,
                child_interface: None,
                arg_interfaces: &[],
            },
        ],
        events: &[
            MessageDesc {
                name: "global",
                signature: &[ArgumentType::Uint, ArgumentType::Str, ArgumentType::Uint],
                since: 1,
                is_destructor: false,
                child_interface: None,
                arg_interfaces: &[],
            },
            MessageDesc {
                name: "global_remove",
                signature: &[ArgumentType::Uint],
                since: 1,
                is_destructor: false,
                child_interface: None,
                arg_interfaces: &[],
            },
        ],
    };
    assert(r.requests@[0].signature@ =~= seq![
        ArgumentType::Uint,
        ArgumentType::Str,
        ArgumentType::Uint,
        ArgumentType::NewId(AllowNull::No),
    ]);
    r
}

/// The display interface: the requests `sync` and `get_registry`, and the
/// events `error` and `delete_id`.
pub fn wl_display_interface() -> (r: &'static Interface)
    ensures
        r == wl_display(),
        is_display_interface(r),
        r.version == 1,
        r.requests@.len() == 2,
        r.requests@[0].signature@ == seq![ArgumentType::NewId(AllowNull::No)],
        r.requests@[0].child_interface matches Some(c) && c.name@ == "wl_callback"@,
        r.requests@[1].signature@ == seq![ArgumentType::NewId(AllowNull::No)],
        r.requests@[1].child_interface matches Some(c) && c.name@ == "wl_registry"@,
        r.events@.len() == 2,
        r.events@[0].signature@ == seq![
            ArgumentType::Object(AllowNull::No),
            ArgumentType::Uint,
            ArgumentType::Str,
        ],
        r.events@[1].signature@ == seq![ArgumentType::Uint],
{
    let r: &'static Interface = &Interface {
        name: "wl_display",
        version: 1,
        requests: &[
            MessageDesc {
                name: "sync",
                signature: &[ArgumentType::NewId(AllowNull::No)],
                since: 1,
                is_destructor: false,
                child_interface: Some(
                    &Interface {
                        name: "wl_callback",
                        version: 1,
                        requests: &[],
                        events: &[
                            MessageDesc {
                                name: "done",
                                signature: &[ArgumentType::Uint],
                                since: 1,
                                is_destructor: true,
                                child_interface: None,
                                arg_interfaces: &[],
                            },
                        ],
                    },
                ),
                arg_interfaces: &[],
            },
            MessageDesc {
                name: "get_registry",
                signature: &[ArgumentType::NewId(AllowNull::No)],
                since: 1,
                is_destructor: false,
                child_interface: Some(
                    &Interface {
                        name: "wl_registry",
                        version: 1,
                        requests: &[
                            MessageDesc {
                                name: "bind",
                                signature: &[
                                    ArgumentType::Uint,
                                    ArgumentType::Str,
                                    ArgumentType::Uint,
                                    ArgumentType::NewId(AllowNull::No),
                                ],
                                since: 1,
                                is_destructor: false,
                                child_interface: None,
                                arg_interfaces: &[],
                            },
                        ],
                        events: &[
                            MessageDesc {
                                name: "global",
                                signature: &[
                                    ArgumentType::Uint,
                                    ArgumentType::Str,
                                    ArgumentType::Uint,
                                ],
                                since: 1,
                                is_destructor: false,
                                child_interface: None,
                                arg_interfaces: &[],
                            },
                            MessageDesc {
                                name: "global_remove",
                                signature: &[ArgumentType::Uint],
                                since: 1,
                                is_destructor: false,
                                child_interface: None,
                                arg_interfaces: &[],
                            },
                        ],
                    },
                ),
                arg_interfaces: &[],
            },
        ],
        events: &[
            MessageDesc {
                name: "error",
                signature: &[
                    ArgumentType::Object(AllowNull::No),
                    ArgumentType::Uint,
                    ArgumentType::Str,
                ],
                since: 1,
                is_destructor: false,
                child_interface: None,
                arg_interfaces: &[],
            },
            MessageDesc {
                name: "delete_id",
                signature: &[ArgumentType::Uint],
                since: 1,
                is_destructor: false,
                child_interface: None,
                arg_interfaces: &[],
            },
        ],
    };
    assert(r.requests@[0].signature@ =~= seq![ArgumentType::NewId(AllowNull::No)]);
    assert(r.requests@[1].signature@ =~= seq![ArgumentType::NewId(AllowNull::No)]);
    assert(r.events@[0].signature@ =~= seq![
        ArgumentType::Object(AllowNull::No),
        ArgumentType::Uint,
        ArgumentType::Str,
    ]);
    assert(r.events@[1].signature@ =~= seq![ArgumentType::Uint]);
    r
}

} // verus!
