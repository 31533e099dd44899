//! Object ids: the handles by which callers name protocol objects.

use crate::protocol::{
    anonymous, anonymous_interface, anonymous_name, interfaces_match, same_interface, ArgList,
    Argument, Interface, Message, MessageView,
};
use crate::text::{decimal, decimal_text, join};
use smallvec::SmallVec;
use vstd::prelude::*;
use vstd::std_specs::cmp::PartialEqSpecImpl;
use vstd::string::StringExecFns;

verus! {

/// An id of a protocol object: the protocol id, the generation serial that
/// tells a recycled id from the one before it, and the interface.
#[derive(Clone, Copy, Debug)]
pub struct ObjectId {
    pub serial: u32,
    pub id: u32,
    pub interface: &'static Interface,
}

impl PartialEq for ObjectId {
    fn eq(&self, other: &ObjectId) -> (r: bool) {
        self.id == other.id && self.serial == other.serial && same_interface(
            self.interface,
            other.interface,
        )
    }
}

impl Eq for ObjectId {

}

impl PartialEqSpecImpl for ObjectId {
    open spec fn obeys_eq_spec() -> bool {
        true
    }

    open spec fn eq_spec(&self, other: &ObjectId) -> bool {
        self.id == other.id && self.serial == other.serial && interfaces_match(
            self.interface,
            other.interface,
        )
    }
}

impl ObjectId {
    /// The null id: protocol id 0, serial 0, anonymous interface.
    pub open spec fn is_null_id(self) -> bool {
        self.id == 0 && self.serial == 0 && self.interface.name@ == anonymous_name()
    }

    /// Whether this is the null id.
    pub fn is_null(&self) -> (r: bool)
        ensures
            r == (self.id == 0),
    {
        self.id == 0
    }

    /// The interface of the object.
    pub fn interface(&self) -> (r: &'static Interface)
        ensures
            r == self.interface,
    {
        self.interface
    }

    /// The protocol id of the object. Protocol ids are reused once an
    /// object is gone, so this alone does not name an object.
    pub fn protocol_id(&self) -> (r: u32)
        ensures
            r == self.id,
    {
        self.id
    }

    /// The null id.
    pub fn null() -> (r: ObjectId)
        ensures
            r == (ObjectId { serial: 0, id: 0, interface: anonymous() }),
            r.is_null_id(),
    {
        ObjectId { serial: 0, id: 0, interface: anonymous_interface() }
    }

    /// The text `interface@id`.
    pub open spec fn text(self) -> Seq<char> {
        self.interface.name@ + "@"@ + decimal_text(self.id as nat)
    }

    /// Renders the id as `interface@id`.
    pub fn to_string(&self) -> (s: String)
        ensures
            s@ == self.text(),
    {
        let s = join(String::from_str(self.interface.name), "@");
        let d = decimal(self.id);
        join(s, d.as_str())
    }
}

/// The arguments that an argument list over object ids holds, in order.
pub uninterp spec fn object_args(list: ArgList<ObjectId>) -> Seq<Argument<ObjectId>>;

/// `SmallVec::from_vec`: the small vector holds the items of `items`, in
/// their order.
#[verifier::external_body]
fn object_list_from_vec(items: Vec<Argument<ObjectId>>) -> (list: ArgList<ObjectId>)
    ensures
        object_args(list) == items@,
{
    ArgList { items: SmallVec::from_vec(items) }
}

/// `SmallVec::as_slice`: the slice shows the items of the small vector, in
/// their order.
#[verifier::external_body]
fn object_list_as_slice(list: &ArgList<ObjectId>) -> (items: &[Argument<ObjectId>])
    ensures
        items@ == object_args(*list),
{
    list.items.as_slice()
}

/// `SmallVec::into_vec`: the vector holds the items of the small vector, in
/// their order.
#[verifier::external_body]
fn object_list_into_vec(list: ArgList<ObjectId>) -> (items: Vec<Argument<ObjectId>>)
    ensures
        items@ == object_args(list),
{
    list.items.into_vec()
}

impl View for ArgList<ObjectId> {
    type V = Seq<Argument<ObjectId>>;

    open spec fn view(&self) -> Seq<Argument<ObjectId>> {
        object_args(*self)
    }
}

impl View for Message<ObjectId> {
    type V = MessageView<ObjectId>;

    open spec fn view(&self) -> MessageView<ObjectId> {
        MessageView { sender_id: self.sender_id, opcode: self.opcode, args: self.args@ }
    }
}

impl ArgList<ObjectId> {
    /// An argument list with the items of `items`.
    pub fn from_vec(items: Vec<Argument<ObjectId>>) -> (list: Self)
        ensures
            list@ == items@,
    {
        object_list_from_vec(items)
    }

    /// The arguments as a slice.
    pub fn as_slice(&self) -> (items: &[Argument<ObjectId>])
        ensures
            items@ == self@,
    {
        object_list_as_slice(self)
    }

    /// The arguments as a vector.
    pub fn into_vec(self) -> (items: Vec<Argument<ObjectId>>)
        ensures
            items@ == self@,
    {
        object_list_into_vec(self)
    }
}

} // verus!
