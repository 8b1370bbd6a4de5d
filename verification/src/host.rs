//! The host-value model: what the single-threaded host hands to an operation and
//! what an operation hands back to it.
//!
//! Values that only the host can interpret (functions, boxed sessions) appear here
//! by their kind alone; the caller keeps the real handles.

use vstd::prelude::*;

verus! {

/// The kinds of session handle that the host can hold.
#[derive(Clone, Copy, Debug, PartialEq, Eq, Structural)]
pub enum SessionKind {
    /// A raw key-value client: shared, read-only, no lock.
    Raw,
    /// A transactional client: shared, read-only, no lock.
    TransactionClient,
    /// One transaction: mutable state behind the session lock.
    Transaction,
    /// One snapshot: mutable state behind the session lock.
    Snapshot,
}

impl SessionKind {
    /// Whether commands against a session of this kind serialize through its lock.
    pub open spec fn mutable(self) -> bool {
        self is Transaction || self is Snapshot
    }

    /// Whether commands against a session of this kind must take its lock.
    pub fn is_mutable(&self) -> (r: bool)
        ensures
            r == self.mutable(),
    {
        match self {
            SessionKind::Transaction => true,
            SessionKind::Snapshot => true,
            SessionKind::Raw => false,
            SessionKind::TransactionClient => false,
        }
    }
}

/// The host classes from which an error object is constructed.
#[derive(Clone, Copy, Debug, PartialEq, Eq, Structural)]
pub enum ErrorClass {
    OperationAfterCommit,
    Undetermined,
    WriteConflict,
    AlreadyExist,
    Deadlock,
    /// The host's own generic error.
    Generic,
}

/// A host value, as contracts see it.
pub enum Value {
    Undefined,
    Null,
    Boolean(bool),
    Number(u64),
    Text(Seq<char>),
    Bytes(Seq<u8>),
    Array(Seq<Value>),
    Function,
    Session(SessionKind),
    Error { class: ErrorClass, args: Seq<Seq<char>> },
    Other,
}

/// A host value.
///
/// Numbers cross the boundary as unsigned integers. A byte sequence that is not
/// valid text is kept as `Bytes`.
#[derive(Debug, PartialEq, Eq)]
pub enum HostValue {
    /// The "no value" sentinel.
    Undefined,
    /// The "no error" sentinel.
    Null,
    Boolean(bool),
    Number(u64),
    Text(String),
    Bytes(Vec<u8>),
    Array(Vec<HostValue>),
    /// A host function; the caller keeps the handle.
    Function,
    /// An opaque handle on a session of the given kind.
    Session(SessionKind),
    /// An error object constructed from `class` with `args`.
    Error { class: ErrorClass, args: Vec<String> },
    /// Any other host object.
    Other,
}

/// The texts of a list of strings.
pub open spec fn texts(items: Seq<String>) -> Seq<Seq<char>> {
    items.map_values(|s: String| s@)
}

/// The values of a list of host values.
pub open spec fn values(items: Seq<HostValue>) -> Seq<Value> {
    items.map_values(|v: HostValue| v@)
}

/// The value that a host value stands for.
pub open spec fn value_of(v: HostValue) -> Value
    decreases v,
{
    match v {
        HostValue::Undefined => Value::Undefined,
        HostValue::Null => Value::Null,
        HostValue::Boolean(b) => Value::Boolean(b),
        HostValue::Number(n) => Value::Number(n),
        HostValue::Text(s) => Value::Text(s@),
        HostValue::Bytes(b) => Value::Bytes(b@),
        HostValue::Array(items) => Value::Array(
            Seq::new(
                items@.len(),
                |i: int|
                    if 0 <= i < items@.len() {
                        value_of(items@[i])
                    } else {
                        Value::Undefined
                    },
            ),
        ),
        HostValue::Function => Value::Function,
        HostValue::Session(kind) => Value::Session(kind),
        HostValue::Error { class, args } => Value::Error { class, args: texts(args@) },
        HostValue::Other => Value::Other,
    }
}

impl View for HostValue {
    type V = Value;

    open spec fn view(&self) -> Value {
        value_of(*self)
    }
}

/// A host array is the array of its items' values.
pub proof fn lemma_array_view(items: Vec<HostValue>)
    ensures
        HostValue::Array(items)@ == Value::Array(values(items@)),
{
    let whole = HostValue::Array(items);
    let inner = whole@->Array_0;
    assert(inner.len() == items@.len());
    assert forall|i: int| 0 <= i < inner.len() implies inner[i] == values(items@)[i] by {}
    assert(inner =~= values(items@));
}

impl HostValue {
    /// The string held by a text value.
    pub(crate) fn as_text(&self) -> (r: &String)
        requires
            self@ is Text,
        ensures
            r@ == self@->Text_0,
    {
        match self {
            HostValue::Text(s) => s,
            _ => {
                proof {
                    assert(false);
                }
                unreached()
            },
        }
    }

    /// The items of an array value.
    pub(crate) fn as_array(&self) -> (r: &Vec<HostValue>)
        requires
            self@ is Array,
        ensures
            values(r@) == self@->Array_0,
    {
        match self {
            HostValue::Array(items) => {
                proof {
                    lemma_array_view(*items);
                }
                items
            },
            _ => {
                proof {
                    assert(false);
                }
                unreached()
            },
        }
    }
}

/// What a faulty call is answered with, before anything is submitted. The
/// first three are type errors of the host; the last two say that the call
/// cannot be carried out at all.
#[derive(Clone, Copy, Debug, PartialEq, Eq, Structural)]
pub enum Throw {
    /// The receiver is not a session of the expected kind.
    Receiver,
    /// The call has no argument at this position.
    MissingArgument(usize),
    /// The argument at this position has another type than the operation takes.
    ArgumentType(usize),
    /// An item of the array at this position is not what the operation takes.
    Item(usize),
    /// The string at this position names no column family.
    ColumnFamily(usize),
}

/// The types of host value that an operation can ask for.
#[derive(Clone, Copy, Debug, PartialEq, Eq, Structural)]
pub enum HostType {
    Text,
    Number,
    Boolean,
    Array,
    Function,
}

/// Whether `v` is a value of type `t`.
pub open spec fn has_type(v: Value, t: HostType) -> bool {
    match t {
        HostType::Text => v is Text,
        HostType::Number => v is Number,
        HostType::Boolean => v is Boolean,
        HostType::Array => v is Array,
        HostType::Function => v is Function,
    }
}

/// Whether the argument at position `i` is there and has its type.
pub open spec fn argument_fits(args: Seq<Value>, types: Seq<HostType>, i: int) -> bool {
    0 <= i < args.len() && has_type(args[i], types[i])
}

/// What is wrong with the argument at position `i`, if anything.
pub open spec fn argument_fault(args: Seq<Value>, types: Seq<HostType>, i: int) -> Option<Throw> {
    if i >= args.len() {
        Some(Throw::MissingArgument(i as usize))
    } else if !has_type(args[i], types[i]) {
        Some(Throw::ArgumentType(i as usize))
    } else {
        None
    }
}

/// The fault of the first faulty argument at or after position `from`.
pub open spec fn first_fault(args: Seq<Value>, types: Seq<HostType>, from: int) -> Option<Throw>
    decreases types.len() - from,
{
    if from < 0 || from >= types.len() {
        None
    } else if argument_fault(args, types, from) is Some {
        argument_fault(args, types, from)
    } else {
        first_fault(args, types, from + 1)
    }
}

/// A host call, as contracts see it.
pub struct Call {
    pub this: Value,
    pub args: Seq<Value>,
}

/// What a call throws when it is held against a receiver kind and a list of
/// argument types: the receiver is looked at first, then the arguments in order.
pub open spec fn call_fault(call: Call, receiver: Option<SessionKind>, types: Seq<HostType>) -> Option<
    Throw,
> {
    if receiver is Some && call.this != Value::Session(receiver->Some_0) {
        Some(Throw::Receiver)
    } else {
        first_fault(call.args, types, 0)
    }
}

/// No argument from `from` on is faulty exactly if each of them is there and has
/// its type.
pub proof fn lemma_fault_free(args: Seq<Value>, types: Seq<HostType>, from: int)
    requires
        0 <= from,
    ensures
        first_fault(args, types, from) is None <==> forall|i: int|
            from <= i < types.len() ==> #[trigger] argument_fits(args, types, i),
    decreases types.len() - from,
{
    if from < types.len() {
        lemma_fault_free(args, types, from + 1);
        if first_fault(args, types, from) is None {
            assert forall|i: int| from <= i < types.len() implies #[trigger] argument_fits(
                args,
                types,
                i,
            ) by {
                if i > from {
                    assert(argument_fits(args, types, i));
                }
            }
        } else if argument_fault(args, types, from) is Some {
            assert(!argument_fits(args, types, from));
        }
    }
}

/// A call of an operation: the receiver and the positional arguments.
#[derive(Debug, PartialEq, Eq)]
pub struct HostCall {
    pub this: HostValue,
    pub args: Vec<HostValue>,
}

impl View for HostCall {
    type V = Call;

    open spec fn view(&self) -> Call {
        Call { this: self.this@, args: values(self.args@) }
    }
}

impl HostValue {
    /// Whether this value is of type `t`.
    pub fn is_of(&self, t: HostType) -> (r: bool)
        ensures
            r == has_type(self@, t),
    {
        match (t, self) {
            (HostType::Text, HostValue::Text(_)) => true,
            (HostType::Number, HostValue::Number(_)) => true,
            (HostType::Boolean, HostValue::Boolean(_)) => true,
            (HostType::Array, HostValue::Array(_)) => true,
            (HostType::Function, HostValue::Function) => true,
            _ => false,
        }
    }

    /// Whether this value is a handle on a session of kind `kind`.
    pub fn is_session(&self, kind: SessionKind) -> (r: bool)
        ensures
            r == (self@ == Value::Session(kind)),
    {
        match self {
            HostValue::Session(k) => *k == kind,
            _ => false,
        }
    }
}

impl HostCall {
    /// Holds the call against the receiver kind and the argument types of an
    /// operation, and returns what the call throws, if anything.
    pub fn check(&self, receiver: Option<SessionKind>, types: &Vec<HostType>) -> (r: Option<Throw>)
        ensures
            r == call_fault(self@, receiver, types@),
            r is None ==> forall|i: int|
                0 <= i < types@.len() ==> #[trigger] argument_fits(self@.args, types@, i),
    {
        if let Some(kind) = receiver {
            if !self.this.is_session(kind) {
                return Some(Throw::Receiver);
            }
        }
        let mut i: usize = 0;
        while i < types.len()
            invariant
                i <= types@.len(),
                call_fault(self@, receiver, types@) == first_fault(self@.args, types@, i as int),
                forall|j: int| 0 <= j < i ==> #[trigger] argument_fits(self@.args, types@, j),
            decreases types@.len() - i,
        {
            assert(self@.args.len() == self.args@.len());
            if i >= self.args.len() {
                assert(argument_fault(self@.args, types@, i as int) == Some(
                    Throw::MissingArgument(i),
                ));
                return Some(Throw::MissingArgument(i));
            }
            assert(self@.args[i as int] == self.args@[i as int]@);
            if !self.args[i].is_of(types[i]) {
                assert(argument_fault(self@.args, types@, i as int) == Some(
                    Throw::ArgumentType(i),
                ));
                return Some(Throw::ArgumentType(i));
            }
            assert(argument_fault(self@.args, types@, i as int) is None);
            i += 1;
        }
        None
    }
}

impl HostCall {
    /// The string at position `i`.
    pub(crate) fn text(&self, i: usize) -> (r: String)
        requires
            i < self@.args.len(),
            self@.args[i as int] is Text,
        ensures
            r@ == self@.args[i as int]->Text_0,
    {
        assert(self@.args[i as int] == self.args@[i as int]@);
        self.args[i].as_text().clone()
    }

    /// The boolean at position `i`.
    pub(crate) fn boolean(&self, i: usize) -> (r: bool)
        requires
            i < self@.args.len(),
            self@.args[i as int] is Boolean,
        ensures
            r == self@.args[i as int]->Boolean_0,
    {
        assert(self@.args[i as int] == self.args@[i as int]@);
        match &self.args[i] {
            HostValue::Boolean(b) => *b,
            _ => {
                proof {
                    assert(false);
                }
                unreached()
            },
        }
    }

    /// The number at position `i`.
    pub(crate) fn number(&self, i: usize) -> (r: u64)
        requires
            i < self@.args.len(),
            self@.args[i as int] is Number,
        ensures
            r == self@.args[i as int]->Number_0,
    {
        assert(self@.args[i as int] == self.args@[i as int]@);
        match &self.args[i] {
            HostValue::Number(n) => *n,
            _ => {
                proof {
                    assert(false);
                }
                unreached()
            },
        }
    }

    /// The items of the array at position `i`.
    pub(crate) fn array(&self, i: usize) -> (r: &Vec<HostValue>)
        requires
            i < self@.args.len(),
            self@.args[i as int] is Array,
        ensures
            values(r@) == self@.args[i as int]->Array_0,
    {
        assert(self@.args[i as int] == self.args@[i as int]@);
        self.args[i].as_array()
    }
}

} // verus!
