//! The client core: object ids, the connection handle, the backend with its
//! dispatch steps, and the guard that coordinates readers.

pub mod backend;
pub mod dispatch;
pub mod events;
pub mod handle;
pub mod laws;
pub mod state;

pub use crate::client::backend::{
    Backend, DispatchAction, Dispatched, ReadEventsGuard, ReadTurn, SocketEvent,
};
pub use crate::client::dispatch::{EventFailure, Prepared};
pub use crate::client::handle::{Handle, ObjectData};
pub use crate::client::state::{Capability, Data, Fault, HandleState, SendError};
pub use crate::object_id::ObjectId;
pub use crate::types::{InvalidId, IoError, NoWaylandLib, WaylandError};
