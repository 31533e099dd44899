//! The data of the callback that ends a round trip.

use crate::client::handle::{Handle, ObjectData};
use crate::client::state::lemma_evolves_reflexive;
use crate::object_id::ObjectId;
use crate::protocol::Message;
use std::sync::atomic::{AtomicBool, Ordering};
use std::sync::Arc;
use vstd::prelude::*;

verus! {

/// Data for the callback of a `sync` request: raises a flag once the
/// server has answered.
pub struct SyncData {
    done: Arc<AtomicBool>,
}

impl SyncData {
    /// The flag that this data raises.
    pub closed spec fn flag(&self) -> Arc<AtomicBool> {
        self.done
    }

    /// Data that raises `done`.
    pub fn new(done: Arc<AtomicBool>) -> (r: SyncData)
        ensures
            r.flag() == done,
    {
        SyncData { done }
    }

    /// Whether the server has answered.
    pub fn is_done(&self) -> bool {
        self.done.load(Ordering::Acquire)
    }
}

impl ObjectData for SyncData {
    /// Raises the flag; the handle is left as it is, and no data is
    /// returned, for the event of a callback creates nothing.
    fn event(&self, handle: &mut Handle<SyncData>, msg: Message<ObjectId>) -> (r: Option<
        Arc<SyncData>,
    >)
        ensures
            r is None,
            *final(handle) == *old(handle),
    {
        proof {
            lemma_evolves_reflexive(handle@);
        }
        self.done.store(true, Ordering::Release);
        None
    }

    /// Nothing is left to do when the callback is gone.
    fn destroyed(&self, object_id: ObjectId) {
    }
}

} // verus!
