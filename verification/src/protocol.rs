//! Protocol vocabulary: interface descriptors, argument types, messages.

use crate::text::str_eq;
use smallvec::SmallVec;
use vstd::prelude::*;

verus! {

/// Number of arguments a message stores without a heap allocation.
pub const INLINE_ARGS: usize = 4;

/// Whether an object or new-id argument may be null.
#[derive(Clone, Copy, Debug, PartialEq, Eq, Structural)]
pub enum AllowNull {
    Yes,
    No,
}

/// The type of one message argument, as a signature lists it.
#[derive(Clone, Copy, Debug, PartialEq, Eq, Structural)]
pub enum ArgumentType {
    Int,
    Uint,
    Fixed,
    Str,
    Object(AllowNull),
    NewId(AllowNull),
    Array,
    Fd,
}

impl ArgumentType {
    /// Same kind of argument, nullability aside.
    pub open spec fn same_type(self, other: ArgumentType) -> bool {
        match (self, other) {
            (ArgumentType::Int, ArgumentType::Int) => true,
            (ArgumentType::Uint, ArgumentType::Uint) => true,
            (ArgumentType::Fixed, ArgumentType::Fixed) => true,
            (ArgumentType::Str, ArgumentType::Str) => true,
            (ArgumentType::Object(_), ArgumentType::Object(_)) => true,
            (ArgumentType::NewId(_), ArgumentType::NewId(_)) => true,
            (ArgumentType::Array, ArgumentType::Array) => true,
            (ArgumentType::Fd, ArgumentType::Fd) => true,
            _ => false,
        }
    }

    /// Whether two argument types agree, nullability aside.
    pub fn is_same_type(self, other: ArgumentType) -> (r: bool)
        ensures
            r == self.same_type(other),
    {
        match (self, other) {
            (ArgumentType::Int, ArgumentType::Int) => true,
            (ArgumentType::Uint, ArgumentType::Uint) => true,
            (ArgumentType::Fixed, ArgumentType::Fixed) => true,
            (ArgumentType::Str, ArgumentType::Str) => true,
            (ArgumentType::Object(_), ArgumentType::Object(_)) => true,
            (ArgumentType::NewId(_), ArgumentType::NewId(_)) => true,
            (ArgumentType::Array, ArgumentType::Array) => true,
            (ArgumentType::Fd, ArgumentType::Fd) => true,
            _ => false,
        }
    }
}

/// The static description of one request or event.
#[derive(Debug, PartialEq, Eq)]
pub struct MessageDesc {
    pub name: &'static str,
    pub signature: &'static [ArgumentType],
    pub since: u32,
    pub is_destructor: bool,
    pub child_interface: Option<&'static Interface>,
    pub arg_interfaces: &'static [&'static Interface],
}

/// The static description of a class of protocol objects.
#[derive(Debug, PartialEq, Eq)]
pub struct Interface {
    pub name: &'static str,
    pub version: u32,
    pub requests: &'static [MessageDesc],
    pub events: &'static [MessageDesc],
}

/// The name of the anonymous interface.
pub open spec fn anonymous_name() -> Seq<char> {
    "<anonymous>"@
}

/// The anonymous interface as a value.
pub open spec fn anonymous() -> &'static Interface {
    &Interface { name: "<anonymous>", version: 0, requests: &[], events: &[] }
}

/// The interface of the null object and of untyped placeholders.
pub fn anonymous_interface() -> (r: &'static Interface)
    ensures
        r == anonymous(),
        r.name@ == anonymous_name(),
        r.version == 0,
        r.requests@.len() == 0,
        r.events@.len() == 0,
{
    &Interface { name: "<anonymous>", version: 0, requests: &[], events: &[] }
}

/// Two interfaces are the same when they carry the same name.
pub open spec fn interfaces_match(a: &Interface, b: &Interface) -> bool {
    a.name@ == b.name@
}

/// As `interfaces_match`, and an anonymous `a` matches everything.
pub open spec fn interfaces_match_or_anonymous(a: &Interface, b: &Interface) -> bool {
    a.name@ == anonymous_name() || a.name@ == b.name@
}

/// Whether `a` and `b` describe the same interface.
pub fn same_interface(a: &'static Interface, b: &'static Interface) -> (r: bool)
    ensures
        r == interfaces_match(a, b),
{
    str_eq(a.name, b.name)
}

/// Whether `a` is anonymous or the same interface as `b`.
pub fn same_interface_or_anonymous(a: &'static Interface, b: &'static Interface) -> (r: bool)
    ensures
        r == interfaces_match_or_anonymous(a, b),
{
    str_eq(a.name, "<anonymous>") || str_eq(a.name, b.name)
}

/// One argument of a message; `Id` is how objects are named in it.
#[derive(Clone, Debug, PartialEq, Eq)]
pub enum Argument<Id> {
    Int(i32),
    Uint(u32),
    Fixed(i32),
    Str(Vec<u8>),
    Object(Id),
    NewId(Id),
    Array(Vec<u8>),
    Fd(i32),
}

impl<Id> Argument<Id> {
    /// Whether the argument is of the kind that `t` names.
    pub open spec fn has_type(self, t: ArgumentType) -> bool {
        match (self, t) {
            (Argument::Int(_), ArgumentType::Int) => true,
            (Argument::Uint(_), ArgumentType::Uint) => true,
            (Argument::Fixed(_), ArgumentType::Fixed) => true,
            (Argument::Str(_), ArgumentType::Str) => true,
            (Argument::Object(_), ArgumentType::Object(_)) => true,
            (Argument::NewId(_), ArgumentType::NewId(_)) => true,
            (Argument::Array(_), ArgumentType::Array) => true,
            (Argument::Fd(_), ArgumentType::Fd) => true,
            _ => false,
        }
    }

    /// The type of this argument; objects and new ids count as
    /// non-nullable.
    pub open spec fn type_of(self) -> ArgumentType {
        match self {
            Argument::Int(_) => ArgumentType::Int,
            Argument::Uint(_) => ArgumentType::Uint,
            Argument::Fixed(_) => ArgumentType::Fixed,
            Argument::Str(_) => ArgumentType::Str,
            Argument::Object(_) => ArgumentType::Object(AllowNull::No),
            Argument::NewId(_) => ArgumentType::NewId(AllowNull::No),
            Argument::Array(_) => ArgumentType::Array,
            Argument::Fd(_) => ArgumentType::Fd,
        }
    }

    /// The type of this argument; objects and new ids count as non-nullable.
    pub fn get_type(&self) -> (t: ArgumentType)
        ensures
            t == self.type_of(),
            forall|u: ArgumentType| self.has_type(u) <==> t.same_type(u),
    {
        match self {
            Argument::Int(_) => ArgumentType::Int,
            Argument::Uint(_) => ArgumentType::Uint,
            Argument::Fixed(_) => ArgumentType::Fixed,
            Argument::Str(_) => ArgumentType::Str,
            Argument::Object(_) => ArgumentType::Object(AllowNull::No),
            Argument::NewId(_) => ArgumentType::NewId(AllowNull::No),
            Argument::Array(_) => ArgumentType::Array,
            Argument::Fd(_) => ArgumentType::Fd,
        }
    }
}

/// Whether `args` has one argument of the right kind for each entry of
/// `signature`.
pub open spec fn signature_matches<Id>(
    signature: Seq<ArgumentType>,
    args: Seq<Argument<Id>>,
) -> bool {
    &&& signature.len() == args.len()
    &&& forall|i: int| 0 <= i < args.len() ==> (#[trigger] args[i]).has_type(signature[i])
}

/// Checks an argument list against a signature.
pub fn check_for_signature<Id>(signature: &[ArgumentType], args: &[Argument<Id>]) -> (r: bool)
    ensures
        r == signature_matches(signature@, args@),
{
    if signature.len() != args.len() {
        return false;
    }
    let mut i: usize = 0;
    while i < args.len()
        invariant
            i <= args.len(),
            signature.len() == args.len(),
            forall|j: int| 0 <= j < i ==> (#[trigger] args@[j]).has_type(signature@[j]),
        decreases args.len() - i,
    {
        if !args[i].get_type().is_same_type(signature[i]) {
            assert(!args@[i as int].has_type(signature@[i as int]));
            return false;
        }
        i = i + 1;
    }
    true
}

/// Whether a signature holds a new-id entry.
pub open spec fn creates_object(signature: Seq<ArgumentType>) -> bool {
    exists|i: int| 0 <= i < signature.len() && #[trigger] signature[i] is NewId
}

/// Whether a message of this signature creates an object.
pub fn signature_creates_object(signature: &[ArgumentType]) -> (r: bool)
    ensures
        r == creates_object(signature@),
{
    let mut i: usize = 0;
    while i < signature.len()
        invariant
            i <= signature.len(),
            forall|j: int| 0 <= j < i ==> !(#[trigger] signature@[j] is NewId),
        decreases signature.len() - i,
    {
        match signature[i] {
            ArgumentType::NewId(_) => {
                return true;
            },
            _ => {},
        }
        i = i + 1;
    }
    false
}

/// The argument list of a message: a `smallvec::SmallVec` that keeps up to
/// `INLINE_ARGS` arguments inline. The verifier sees the list only through
/// `wire_args` and `object_args`, which name what it holds.
#[verifier::external_body]
#[verifier::reject_recursive_types(Id)]
#[derive(Debug, PartialEq, Eq)]
pub struct ArgList<Id> {
    pub(crate) items: SmallVec<[Argument<Id>; INLINE_ARGS]>,
}

/// A protocol message.
#[verifier::reject_recursive_types(Id)]
#[derive(Debug, PartialEq, Eq)]
pub struct Message<Id> {
    pub sender_id: Id,
    pub opcode: u16,
    pub args: ArgList<Id>,
}

/// A message as a plain value: its sender, its opcode and its arguments in
/// order.
pub struct MessageView<Id> {
    pub sender_id: Id,
    pub opcode: u16,
    pub args: Seq<Argument<Id>>,
}

/// The arguments that a wire-level argument list holds, in order.
pub uninterp spec fn wire_args(list: ArgList<u32>) -> Seq<Argument<u32>>;

/// `SmallVec::from_vec`: the small vector holds the items of `items`, in
/// their order.
#[verifier::external_body]
fn wire_list_from_vec(items: Vec<Argument<u32>>) -> (list: ArgList<u32>)
    ensures
        wire_args(list) == items@,
{
    ArgList { items: SmallVec::from_vec(items) }
}

/// `SmallVec::as_slice`: the slice shows the items of the small vector, in
/// their order.
#[verifier::external_body]
fn wire_list_as_slice(list: &ArgList<u32>) -> (items: &[Argument<u32>])
    ensures
        items@ == wire_args(*list),
{
    list.items.as_slice()
}

/// `SmallVec::into_vec`: the vector holds the items of the small vector, in
/// their order.
#[verifier::external_body]
fn wire_list_into_vec(list: ArgList<u32>) -> (items: Vec<Argument<u32>>)
    ensures
        items@ == wire_args(list),
{
    list.items.into_vec()
}

impl View for ArgList<u32> {
    type V = Seq<Argument<u32>>;

    open spec fn view(&self) -> Seq<Argument<u32>> {
        wire_args(*self)
    }
}

impl ArgList<u32> {
    /// An argument list with the items of `items`.
    pub fn from_vec(items: Vec<Argument<u32>>) -> (list: Self)
        ensures
            list@ == items@,
    {
        wire_list_from_vec(items)
    }

    /// The arguments as a slice.
    pub fn as_slice(&self) -> (items: &[Argument<u32>])
        ensures
            items@ == self@,
    {
        wire_list_as_slice(self)
    }

    /// The arguments as a vector.
    pub fn into_vec(self) -> (items: Vec<Argument<u32>>)
        ensures
            items@ == self@,
    {
        wire_list_into_vec(self)
    }
}

impl View for Message<u32> {
    type V = MessageView<u32>;

    open spec fn view(&self) -> MessageView<u32> {
        MessageView { sender_id: self.sender_id, opcode: self.opcode, args: self.args@ }
    }
}

/// What `info` reports of a live object.
#[derive(Clone, Copy, Debug, PartialEq, Eq)]
pub struct ObjectInfo {
    pub id: u32,
    pub interface: &'static Interface,
    pub version: u32,
}

/// A protocol error, reported by the server or detected on its messages.
#[derive(Debug, PartialEq, Eq)]
pub struct ProtocolError {
    pub code: u32,
    pub object_id: u32,
    pub object_interface: String,
    pub message: String,
}

/// A protocol error as a plain value.
pub struct ProtocolErrorView {
    pub code: u32,
    pub object_id: u32,
    pub object_interface: Seq<char>,
    pub message: Seq<char>,
}

impl View for ProtocolError {
    type V = ProtocolErrorView;

    open spec fn view(&self) -> ProtocolErrorView {
        ProtocolErrorView {
            code: self.code,
            object_id: self.object_id,
            object_interface: self.object_interface@,
            message: self.message@,
        }
    }
}

impl Clone for ProtocolError {
    fn clone(&self) -> (r: Self)
        ensures
            r == *self,
    {
        ProtocolError {
            code: self.code,
            object_id: self.object_id,
            object_interface: self.object_interface.clone(),
            message: self.message.clone(),
        }
    }
}

} // verus!
