//! Error classification: from what the client reports to the closed set of
//! error kinds that the host can tell apart, and from there to the error object
//! that the host receives.

use crate::host::{texts, ErrorClass, HostCall, HostValue, Throw, Value};
use vstd::prelude::*;
use vstd::string::*;

verus! {

/// The text of an optional string.
pub open spec fn optional_text(s: Option<String>) -> Option<Seq<char>> {
    match s {
        Some(s) => Some(s@),
        None => None,
    }
}

/// A key-level error of the client: up to three reasons, each given by its
/// descriptor's text, and the text of the whole error.
#[derive(Clone, Debug, PartialEq, Eq)]
pub struct KeyError {
    pub conflict: Option<String>,
    pub already_exist: Option<String>,
    pub deadlock: Option<String>,
    pub detail: String,
}

/// A key-level error, as contracts see it.
pub struct KeyErrorView {
    pub conflict: Option<Seq<char>>,
    pub already_exist: Option<Seq<char>>,
    pub deadlock: Option<Seq<char>>,
    pub detail: Seq<char>,
}

impl View for KeyError {
    type V = KeyErrorView;

    open spec fn view(&self) -> KeyErrorView {
        KeyErrorView {
            conflict: optional_text(self.conflict),
            already_exist: optional_text(self.already_exist),
            deadlock: optional_text(self.deadlock),
            detail: self.detail@,
        }
    }
}

/// An error as the client reports it, reduced to what classification reads.
#[derive(Clone, Debug, PartialEq, Eq)]
pub enum ExternalError {
    /// A write was attempted after the transaction had committed.
    OperationAfterCommitError,
    /// Whether the write went through is unknown; the text is that of the cause.
    UndeterminedError(String),
    /// A key-level error.
    KeyError(KeyError),
    /// Any other error, by its display text.
    Other(String),
}

/// A client error, as contracts see it.
pub enum ExternalErrorView {
    OperationAfterCommitError,
    UndeterminedError(Seq<char>),
    KeyError(KeyErrorView),
    Other(Seq<char>),
}

impl View for ExternalError {
    type V = ExternalErrorView;

    open spec fn view(&self) -> ExternalErrorView {
        match self {
            ExternalError::OperationAfterCommitError => ExternalErrorView::OperationAfterCommitError,
            ExternalError::UndeterminedError(d) => ExternalErrorView::UndeterminedError(d@),
            ExternalError::KeyError(k) => ExternalErrorView::KeyError(k@),
            ExternalError::Other(m) => ExternalErrorView::Other(m@),
        }
    }
}

/// The kinds of error that the host can tell apart.
#[derive(Clone, Debug, PartialEq, Eq)]
pub enum ClassifiedError {
    OperationAfterCommit,
    Undetermined(String),
    WriteConflict(String),
    AlreadyExist(String),
    Deadlock(String),
    KeyError(String),
    Other(String),
}

/// A classified error, as contracts see it.
pub enum Classified {
    OperationAfterCommit,
    Undetermined(Seq<char>),
    WriteConflict(Seq<char>),
    AlreadyExist(Seq<char>),
    Deadlock(Seq<char>),
    KeyError(Seq<char>),
    Other(Seq<char>),
}

impl View for ClassifiedError {
    type V = Classified;

    open spec fn view(&self) -> Classified {
        match self {
            ClassifiedError::OperationAfterCommit => Classified::OperationAfterCommit,
            ClassifiedError::Undetermined(d) => Classified::Undetermined(d@),
            ClassifiedError::WriteConflict(d) => Classified::WriteConflict(d@),
            ClassifiedError::AlreadyExist(d) => Classified::AlreadyExist(d@),
            ClassifiedError::Deadlock(d) => Classified::Deadlock(d@),
            ClassifiedError::KeyError(d) => Classified::KeyError(d@),
            ClassifiedError::Other(m) => Classified::Other(m@),
        }
    }
}

/// The kind of a client error: the first rule that applies, from the top.
pub open spec fn classify_spec(err: ExternalErrorView) -> Classified {
    match err {
        ExternalErrorView::OperationAfterCommitError => Classified::OperationAfterCommit,
        ExternalErrorView::UndeterminedError(d) => Classified::Undetermined(d),
        ExternalErrorView::KeyError(k) => if k.conflict is Some {
            Classified::WriteConflict(k.conflict->Some_0)
        } else if k.already_exist is Some {
            Classified::AlreadyExist(k.already_exist->Some_0)
        } else if k.deadlock is Some {
            Classified::Deadlock(k.deadlock->Some_0)
        } else {
            Classified::KeyError(k.detail)
        },
        ExternalErrorView::Other(m) => Classified::Other(m),
    }
}

/// The rules of classification, each on its own and in their order: an
/// operation after commit; an undetermined outcome; a key-level error by its
/// first reason among conflict, already-exists and deadlock; a key-level error
/// without any of them; and every other error, whose message is kept as it is.
pub proof fn lemma_classification_by_priority(err: ExternalErrorView)
    ensures
        err is OperationAfterCommitError ==> classify_spec(err)
            == Classified::OperationAfterCommit,
        err matches ExternalErrorView::UndeterminedError(d) ==> classify_spec(err)
            == Classified::Undetermined(d),
        err matches ExternalErrorView::KeyError(k) ==> {
            &&& k.conflict is Some ==> classify_spec(err) == Classified::WriteConflict(
                k.conflict->Some_0,
            )
            &&& k.conflict is None && k.already_exist is Some ==> classify_spec(err)
                == Classified::AlreadyExist(k.already_exist->Some_0)
            &&& k.conflict is None && k.already_exist is None && k.deadlock is Some
                ==> classify_spec(err) == Classified::Deadlock(k.deadlock->Some_0)
            &&& k.conflict is None && k.already_exist is None && k.deadlock is None
                ==> classify_spec(err) == Classified::KeyError(k.detail)
        },
        err matches ExternalErrorView::Other(m) ==> classify_spec(err) == Classified::Other(m),
{
}

/// Classifies a client error. Total: every error has exactly one kind.
pub fn classify(err: ExternalError) -> (r: ClassifiedError)
    ensures
        r@ == classify_spec(err@),
{
    match err {
        ExternalError::OperationAfterCommitError => ClassifiedError::OperationAfterCommit,
        ExternalError::UndeterminedError(detail) => ClassifiedError::Undetermined(detail),
        ExternalError::KeyError(key) => {
            let KeyError { conflict, already_exist, deadlock, detail } = key;
            if let Some(c) = conflict {
                ClassifiedError::WriteConflict(c)
            } else if let Some(a) = already_exist {
                ClassifiedError::AlreadyExist(a)
            } else if let Some(d) = deadlock {
                ClassifiedError::Deadlock(d)
            } else {
                ClassifiedError::KeyError(detail)
            }
        },
        ExternalError::Other(message) => ClassifiedError::Other(message),
    }
}

impl ExternalError {
    /// The host class of the error object that this error is delivered as.
    pub fn class(&self) -> (r: ErrorClass)
        ensures
            r == classify_spec(self@).class(),
    {
        match self {
            ExternalError::OperationAfterCommitError => ErrorClass::OperationAfterCommit,
            ExternalError::UndeterminedError(_) => ErrorClass::Undetermined,
            ExternalError::KeyError(key) => {
                if key.conflict.is_some() {
                    ErrorClass::WriteConflict
                } else if key.already_exist.is_some() {
                    ErrorClass::AlreadyExist
                } else if key.deadlock.is_some() {
                    ErrorClass::Deadlock
                } else {
                    ErrorClass::Generic
                }
            },
            ExternalError::Other(_) => ErrorClass::Generic,
        }
    }
}

impl Classified {
    /// The host class from which the error object is constructed.
    pub open spec fn class(self) -> ErrorClass {
        match self {
            Classified::OperationAfterCommit => ErrorClass::OperationAfterCommit,
            Classified::Undetermined(_) => ErrorClass::Undetermined,
            Classified::WriteConflict(_) => ErrorClass::WriteConflict,
            Classified::AlreadyExist(_) => ErrorClass::AlreadyExist,
            Classified::Deadlock(_) => ErrorClass::Deadlock,
            Classified::KeyError(_) => ErrorClass::Generic,
            Classified::Other(_) => ErrorClass::Generic,
        }
    }

    /// The arguments that the constructor receives: the detail where the kind
    /// has one, the prefixed detail for a generic key error, the message
    /// unchanged for any other error.
    pub open spec fn arguments(self) -> Seq<Seq<char>> {
        match self {
            Classified::OperationAfterCommit => seq![],
            Classified::Undetermined(d) => seq![d],
            Classified::WriteConflict(d) => seq![d],
            Classified::AlreadyExist(d) => seq![d],
            Classified::Deadlock(d) => seq![d],
            Classified::KeyError(d) => seq!["KeyError: "@ + d],
            Classified::Other(m) => seq![m],
        }
    }

    /// The error object that the host receives.
    pub open spec fn host_error(self) -> Value {
        Value::Error { class: self.class(), args: self.arguments() }
    }
}

/// One place of the registry: the host constructor of one error class, once
/// the host has registered it.
#[derive(Clone, Copy, Debug, PartialEq, Eq, Structural)]
pub struct ErrorSlot {
    pub class: ErrorClass,
    pub registered: bool,
}

/// What can be constructed into a host error object.
pub trait CustomError {
    /// Whether the host constructor is at hand.
    spec fn ready(&self) -> bool;

    /// The host class of the objects that come out.
    spec fn error_class(&self) -> ErrorClass;

    /// Calls the host class as a constructor, with `args` as its arguments.
    fn throw(&self, args: Vec<String>) -> (r: HostValue)
        requires
            self.ready(),
        ensures
            r@ == (Value::Error { class: self.error_class(), args: texts(args@) }),
    ;
}

impl CustomError for ErrorSlot {
    open spec fn ready(&self) -> bool {
        self.registered
    }

    open spec fn error_class(&self) -> ErrorClass {
        self.class
    }

    fn throw(&self, args: Vec<String>) -> (r: HostValue) {
        HostValue::Error { class: self.class, args }
    }
}

/// The registry of host error constructors: one slot for each specialised
/// error class. The host's generic error needs none.
#[derive(Clone, Copy, Debug, PartialEq, Eq, Structural)]
pub struct ClientErrors {
    pub operation_after_commit_error: ErrorSlot,
    pub undetermined_error: ErrorSlot,
    pub write_conflict_error: ErrorSlot,
    pub already_exist_error: ErrorSlot,
    pub deadlock_error: ErrorSlot,
}

/// Whether the argument at position `k` is a host function.
pub open spec fn is_function_at(args: Seq<Value>, k: int) -> bool {
    0 <= k < args.len() && args[k] is Function
}

/// What is thrown for an argument at position `k` that is no host function.
pub open spec fn function_fault(args: Seq<Value>, k: int) -> Throw {
    if k >= args.len() {
        Throw::MissingArgument(k as usize)
    } else {
        Throw::ArgumentType(k as usize)
    }
}

/// The first position at or after `from` whose slot is empty and whose
/// argument is no host function; the number of slots where there is none.
pub open spec fn first_blocked(flags: Seq<bool>, args: Seq<Value>, from: int) -> int
    decreases flags.len() - from,
{
    if from < 0 || from >= flags.len() {
        flags.len() as int
    } else if !flags[from] && !is_function_at(args, from) {
        from
    } else {
        first_blocked(flags, args, from + 1)
    }
}

impl ClientErrors {
    /// Each slot stands for the class that its name says.
    pub open spec fn wf(&self) -> bool {
        &&& self.operation_after_commit_error.class == ErrorClass::OperationAfterCommit
        &&& self.undetermined_error.class == ErrorClass::Undetermined
        &&& self.write_conflict_error.class == ErrorClass::WriteConflict
        &&& self.already_exist_error.class == ErrorClass::AlreadyExist
        &&& self.deadlock_error.class == ErrorClass::Deadlock
    }

    /// Which slots are filled, in the order in which the host registers them.
    pub open spec fn flags(&self) -> Seq<bool> {
        seq![
            self.operation_after_commit_error.registered,
            self.undetermined_error.registered,
            self.write_conflict_error.registered,
            self.already_exist_error.registered,
            self.deadlock_error.registered,
        ]
    }

    /// Whether an error object of `class` can be constructed.
    pub open spec fn registered(&self, class: ErrorClass) -> bool {
        match class {
            ErrorClass::OperationAfterCommit => self.operation_after_commit_error.registered,
            ErrorClass::Undetermined => self.undetermined_error.registered,
            ErrorClass::WriteConflict => self.write_conflict_error.registered,
            ErrorClass::AlreadyExist => self.already_exist_error.registered,
            ErrorClass::Deadlock => self.deadlock_error.registered,
            ErrorClass::Generic => true,
        }
    }

    /// The registry before the host has registered anything.
    pub fn new() -> (r: Self)
        ensures
            r.wf(),
            r.flags() == seq![false, false, false, false, false],
    {
        ClientErrors {
            operation_after_commit_error: ErrorSlot {
                class: ErrorClass::OperationAfterCommit,
                registered: false,
            },
            undetermined_error: ErrorSlot { class: ErrorClass::Undetermined, registered: false },
            write_conflict_error: ErrorSlot { class: ErrorClass::WriteConflict, registered: false },
            already_exist_error: ErrorSlot { class: ErrorClass::AlreadyExist, registered: false },
            deadlock_error: ErrorSlot { class: ErrorClass::Deadlock, registered: false },
        }
    }

    /// Whether an error object of `class` can be constructed.
    pub fn is_registered(&self, class: ErrorClass) -> (r: bool)
        ensures
            r == self.registered(class),
    {
        match class {
            ErrorClass::OperationAfterCommit => self.operation_after_commit_error.registered,
            ErrorClass::Undetermined => self.undetermined_error.registered,
            ErrorClass::WriteConflict => self.write_conflict_error.registered,
            ErrorClass::AlreadyExist => self.already_exist_error.registered,
            ErrorClass::Deadlock => self.deadlock_error.registered,
            ErrorClass::Generic => true,
        }
    }
}

/// Fills one slot from the argument at `index`, unless it is filled already.
fn register(slot: &mut ErrorSlot, call: &HostCall, index: usize) -> (r: Result<(), Throw>)
    ensures
        final(slot).class == old(slot).class,
        old(slot).registered || is_function_at(call@.args, index as int) ==> {
            &&& r is Ok
            &&& final(slot).registered
        },
        !old(slot).registered && !is_function_at(call@.args, index as int) ==> {
            &&& r == Err::<(), Throw>(function_fault(call@.args, index as int))
            &&& !final(slot).registered
        },
{
    if slot.registered {
        return Ok(());
    }
    assert(call@.args.len() == call.args@.len());
    if index >= call.args.len() {
        return Err(Throw::MissingArgument(index));
    }
    assert(call@.args[index as int] == call.args@[index as int]@);
    match &call.args[index] {
        HostValue::Function => {
            slot.registered = true;
            Ok(())
        },
        _ => Err(Throw::ArgumentType(index)),
    }
}

/// The one-time setup step: registers the host functions at positions 0 to 4
/// as the constructors of the five specialised error classes, in the order of
/// the registry's slots.
///
/// A slot that is filled stays as it is, and its argument is not looked at. At
/// the first empty slot whose argument is missing or is no function the call
/// throws; the slots before it are filled by then, the slots from it on are
/// untouched.
pub fn init(errors: &mut ClientErrors, call: &HostCall) -> (r: Result<(), Throw>)
    requires
        old(errors).wf(),
    ensures
        final(errors).wf(),
        forall|k: int|
            0 <= k < 5 ==> final(errors).flags()[k] == (old(errors).flags()[k] || k < first_blocked(
                old(errors).flags(),
                call@.args,
                0,
            )),
        r == (if first_blocked(old(errors).flags(), call@.args, 0) < 5 {
            Err::<(), Throw>(
                function_fault(call@.args, first_blocked(old(errors).flags(), call@.args, 0)),
            )
        } else {
            Ok::<(), Throw>(())
        }),
{
    reveal_with_fuel(first_blocked, 6);
    register(&mut errors.operation_after_commit_error, call, 0)?;
    register(&mut errors.undetermined_error, call, 1)?;
    register(&mut errors.write_conflict_error, call, 2)?;
    register(&mut errors.already_exist_error, call, 3)?;
    register(&mut errors.deadlock_error, call, 4)?;
    Ok(())
}

impl ClassifiedError {
    /// The host class from which the error object is constructed.
    pub fn class(&self) -> (r: ErrorClass)
        ensures
            r == self@.class(),
    {
        match self {
            ClassifiedError::OperationAfterCommit => ErrorClass::OperationAfterCommit,
            ClassifiedError::Undetermined(_) => ErrorClass::Undetermined,
            ClassifiedError::WriteConflict(_) => ErrorClass::WriteConflict,
            ClassifiedError::AlreadyExist(_) => ErrorClass::AlreadyExist,
            ClassifiedError::Deadlock(_) => ErrorClass::Deadlock,
            ClassifiedError::KeyError(_) => ErrorClass::Generic,
            ClassifiedError::Other(_) => ErrorClass::Generic,
        }
    }

    /// Constructs the error object that the host receives for this error.
    pub fn into_host_error(self, errors: &ClientErrors) -> (r: HostValue)
        requires
            errors.wf(),
            errors.registered(self@.class()),
        ensures
            r@ == self@.host_error(),
    {
        match self {
            ClassifiedError::OperationAfterCommit => {
                let args: Vec<String> = Vec::new();
                assert(texts(args@) =~= self@.arguments());
                errors.operation_after_commit_error.throw(args)
            },
            ClassifiedError::Undetermined(detail) => {
                let args: Vec<String> = vec![detail];
                assert(texts(args@) =~= self@.arguments());
                errors.undetermined_error.throw(args)
            },
            ClassifiedError::WriteConflict(detail) => {
                let args: Vec<String> = vec![detail];
                assert(texts(args@) =~= self@.arguments());
                errors.write_conflict_error.throw(args)
            },
            ClassifiedError::AlreadyExist(detail) => {
                let args: Vec<String> = vec![detail];
                assert(texts(args@) =~= self@.arguments());
                errors.already_exist_error.throw(args)
            },
            ClassifiedError::Deadlock(detail) => {
                let args: Vec<String> = vec![detail];
                assert(texts(args@) =~= self@.arguments());
                errors.deadlock_error.throw(args)
            },
            ClassifiedError::KeyError(detail) => {
                let mut message = String::from_str("KeyError: ");
                message.append(detail.as_str());
                let args: Vec<String> = vec![message];
                assert(texts(args@) =~= self@.arguments());
                HostValue::Error { class: ErrorClass::Generic, args }
            },
            ClassifiedError::Other(message) => {
                let args: Vec<String> = vec![message];
                assert(texts(args@) =~= self@.arguments());
                HostValue::Error { class: ErrorClass::Generic, args }
            },
        }
    }
}

} // verus!
