//! The operations of a transactional client, of a transaction and of a
//! snapshot, and the life of a transaction session: active until its commit
//! succeeds, committed from then on.
//!
//! A call is held against the receiver first, then against its argument types
//! in order, and last against the items of an array argument.

use crate::command::{
    decoded, keys_at, limit_of, range_at, scan_limit, ClientCall, ClientCallView, Request,
    RequestView,
};
use crate::error::{classify_spec, Classified, ClassifiedError, ExternalErrorView};
use crate::host::{argument_fits, call_fault, Call, HostCall, HostType, SessionKind, Throw};
use crate::raw::raw_command;
use crate::utils::all_text;
use vstd::prelude::*;

verus! {

/// The command of a call against a session without column families.
pub open spec fn session_command(kind: SessionKind, body: ClientCallView, callback: usize) -> Result<
    RequestView,
    Throw,
> {
    Ok(RequestView { receiver: Some(kind), cf: None, call: body, callback })
}

/// Completes a command against a session without column families.
fn session_request(kind: SessionKind, body: ClientCall, callback: usize) -> (r: Result<
    Request,
    Throw,
>)
    ensures
        decoded(r) == session_command(kind, body@, callback),
{
    Ok(Request { receiver: Some(kind), cf: None, call: body, callback })
}

/// A transactional client session, as the host addresses it.
pub struct TransactionClient {}

impl TransactionClient {
    /// The argument types of `connect`: the placement driver's endpoint, the continuation.
    pub open spec fn connect_types() -> Seq<HostType> {
        seq![HostType::Text, HostType::Function]
    }

    /// What a call of `connect` asks for.
    pub open spec fn connect_spec(call: Call) -> Result<RequestView, Throw> {
        match call_fault(call, None, Self::connect_types()) {
            Some(throw) => Err(throw),
            None => Ok(
                RequestView {
                    receiver: None,
                    cf: None,
                    call: ClientCallView::Connect {
                        kind: SessionKind::TransactionClient,
                        pd_endpoint: call.args[0]->Text_0,
                    },
                    callback: 1,
                },
            ),
        }
    }

    /// Reads a call of `connect(pd_endpoint, continuation)`.
    pub fn connect(call: &HostCall) -> (r: Result<Request, Throw>)
        ensures
            decoded(r) == Self::connect_spec(call@),
    {
        let types = vec![HostType::Text, HostType::Function];
        assert(types@ =~= Self::connect_types());
        if let Some(throw) = call.check(None, &types) {
            return Err(throw);
        }
        assert(argument_fits(call@.args, types@, 0));
        assert(argument_fits(call@.args, types@, 1));
        Ok(
            Request {
                receiver: None,
                cf: None,
                call: ClientCall::Connect {
                    kind: SessionKind::TransactionClient,
                    pd_endpoint: call.text(0),
                },
                callback: 1,
            },
        )
    }

    /// The argument types of `begin`: whether the transaction is pessimistic, the continuation.
    pub open spec fn begin_types() -> Seq<HostType> {
        seq![HostType::Boolean, HostType::Function]
    }

    /// What a call of `begin` asks for.
    pub open spec fn begin_spec(call: Call) -> Result<RequestView, Throw> {
        match call_fault(call, Some(SessionKind::TransactionClient), Self::begin_types()) {
            Some(throw) => Err(throw),
            None => session_command(
                SessionKind::TransactionClient,
                ClientCallView::Begin { pessimistic: call.args[0]->Boolean_0 },
                1,
            ),
        }
    }

    /// Reads a call of `begin(pessimistic, continuation)`.
    pub fn begin(call: &HostCall) -> (r: Result<Request, Throw>)
        ensures
            decoded(r) == Self::begin_spec(call@),
    {
        let types = vec![HostType::Boolean, HostType::Function];
        assert(types@ =~= Self::begin_types());
        if let Some(throw) = call.check(Some(SessionKind::TransactionClient), &types) {
            return Err(throw);
        }
        assert(argument_fits(call@.args, types@, 0));
        assert(argument_fits(call@.args, types@, 1));
        session_request(
            SessionKind::TransactionClient,
            ClientCall::Begin { pessimistic: call.boolean(0) },
            1,
        )
    }

    /// The argument types of `snapshot`: the timestamp's version number, whether reads are pessimistic, the continuation.
    pub open spec fn snapshot_types() -> Seq<HostType> {
        seq![HostType::Number, HostType::Boolean, HostType::Function]
    }

    /// What a call of `snapshot` asks for.
    pub open spec fn snapshot_spec(call: Call) -> Result<RequestView, Throw> {
        match call_fault(call, Some(SessionKind::TransactionClient), Self::snapshot_types()) {
            Some(throw) => Err(throw),
            None => session_command(
                SessionKind::TransactionClient,
                ClientCallView::Snapshot {
                    timestamp: call.args[0]->Number_0,
                    pessimistic: call.args[1]->Boolean_0,
                },
                2,
            ),
        }
    }

    /// Reads a call of `snapshot(timestamp, pessimistic, continuation)`.
    pub fn snapshot(call: &HostCall) -> (r: Result<Request, Throw>)
        ensures
            decoded(r) == Self::snapshot_spec(call@),
    {
        let types = vec![HostType::Number, HostType::Boolean, HostType::Function];
        assert(types@ =~= Self::snapshot_types());
        if let Some(throw) = call.check(Some(SessionKind::TransactionClient), &types) {
            return Err(throw);
        }
        assert(argument_fits(call@.args, types@, 0));
        assert(argument_fits(call@.args, types@, 1));
        assert(argument_fits(call@.args, types@, 2));
        session_request(
            SessionKind::TransactionClient,
            ClientCall::Snapshot { timestamp: call.number(0), pessimistic: call.boolean(1) },
            2,
        )
    }

    /// The argument types of `current_timestamp`: the continuation.
    pub open spec fn current_timestamp_types() -> Seq<HostType> {
        seq![HostType::Function]
    }

    /// What a call of `current_timestamp` asks for.
    pub open spec fn current_timestamp_spec(call: Call) -> Result<RequestView, Throw> {
        match call_fault(call, Some(SessionKind::TransactionClient), Self::current_timestamp_types()) {
            Some(throw) => Err(throw),
            None => session_command(
                SessionKind::TransactionClient,
                ClientCallView::CurrentTimestamp,
                0,
            ),
        }
    }

    /// Reads a call of `current_timestamp(continuation)`.
    pub fn current_timestamp(call: &HostCall) -> (r: Result<Request, Throw>)
        ensures
            decoded(r) == Self::current_timestamp_spec(call@),
    {
        let types = vec![HostType::Function];
        assert(types@ =~= Self::current_timestamp_types());
        if let Some(throw) = call.check(Some(SessionKind::TransactionClient), &types) {
            return Err(throw);
        }
        assert(argument_fits(call@.args, types@, 0));
        session_request(SessionKind::TransactionClient, ClientCall::CurrentTimestamp, 0)
    }

    /// The argument types of `gc`: the safepoint's version number, the continuation.
    pub open spec fn gc_types() -> Seq<HostType> {
        seq![HostType::Number, HostType::Function]
    }

    /// What a call of `gc` asks for.
    pub open spec fn gc_spec(call: Call) -> Result<RequestView, Throw> {
        match call_fault(call, Some(SessionKind::TransactionClient), Self::gc_types()) {
            Some(throw) => Err(throw),
            None => session_command(
                SessionKind::TransactionClient,
                ClientCallView::Gc { safepoint: call.args[0]->Number_0 },
                1,
            ),
        }
    }

    /// Reads a call of `gc(safepoint, continuation)`.
    pub fn gc(call: &HostCall) -> (r: Result<Request, Throw>)
        ensures
            decoded(r) == Self::gc_spec(call@),
    {
        let types = vec![HostType::Number, HostType::Function];
        assert(types@ =~= Self::gc_types());
        if let Some(throw) = call.check(Some(SessionKind::TransactionClient), &types) {
            return Err(throw);
        }
        assert(argument_fits(call@.args, types@, 0));
        assert(argument_fits(call@.args, types@, 1));
        session_request(
            SessionKind::TransactionClient,
            ClientCall::Gc { safepoint: call.number(0) },
            1,
        )
    }
}

/// The states of a transaction session.
#[derive(Clone, Copy, Debug, PartialEq, Eq, Structural)]
pub enum SessionState {
    /// Commands are handed on to the client.
    Active,
    /// The commit has succeeded: the session takes no further write.
    Committed,
}

/// A transaction session, as the host addresses it.
#[derive(Clone, Copy, Debug, PartialEq, Eq, Structural)]
pub struct Transaction {
    pub state: SessionState,
}

impl Transaction {
    /// Whether the session hands `call` on to the client: an active session
    /// does so with every command, a committed one with what is no write.
    pub open spec fn accepts(self, call: ClientCallView) -> bool {
        self.state is Active || !call.writes()
    }

    /// The error with which the session answers `call` itself, if any.
    pub open spec fn refusal(self, call: ClientCallView) -> Option<Classified> {
        if self.accepts(call) {
            None
        } else {
            Some(Classified::OperationAfterCommit)
        }
    }

    /// The state of the session once `call` has run to its end.
    pub open spec fn after(self, call: ClientCallView, succeeded: bool) -> SessionState {
        if self.state is Active && call is Commit && succeeded {
            SessionState::Committed
        } else {
            self.state
        }
    }

    /// A transaction that has just begun.
    pub fn new() -> (r: Transaction)
        ensures
            r.state is Active,
    {
        Transaction { state: SessionState::Active }
    }

    /// Decides whether `call` goes to the client. A committed session answers
    /// a write or a commit itself, with the error of that kind, and stays as
    /// it is.
    pub fn accept(&self, call: &ClientCall) -> (r: Result<(), ClassifiedError>)
        ensures
            r is Ok <==> self.accepts(call@),
            r matches Err(error) ==> self.refusal(call@) == Some(error@),
    {
        match self.state {
            SessionState::Active => Ok(()),
            SessionState::Committed => match call {
                ClientCall::Put { .. } => Err(ClassifiedError::OperationAfterCommit),
                ClientCall::Insert { .. } => Err(ClassifiedError::OperationAfterCommit),
                ClientCall::Delete { .. } => Err(ClassifiedError::OperationAfterCommit),
                ClientCall::BatchPut { .. } => Err(ClassifiedError::OperationAfterCommit),
                ClientCall::BatchDelete { .. } => Err(ClassifiedError::OperationAfterCommit),
                ClientCall::DeleteRange { .. } => Err(ClassifiedError::OperationAfterCommit),
                ClientCall::Commit => Err(ClassifiedError::OperationAfterCommit),
                _ => Ok(()),
            },
        }
    }

    /// Records that `call` has run to its end: a commit that succeeded leaves
    /// the session committed, everything else leaves it as it was.
    pub fn complete(&mut self, call: &ClientCall, succeeded: bool)
        ensures
            final(self).state == old(self).after(call@, succeeded),
    {
        if succeeded {
            if let ClientCall::Commit = call {
                self.state = SessionState::Committed;
            }
        }
    }

    /// The argument types of `get`: key, continuation.
    pub open spec fn get_types() -> Seq<HostType> {
        seq![HostType::Text, HostType::Function]
    }

    /// What a call of `get` asks for.
    pub open spec fn get_spec(call: Call) -> Result<RequestView, Throw> {
        match call_fault(call, Some(SessionKind::Transaction), Self::get_types()) {
            Some(throw) => Err(throw),
            None => session_command(
                SessionKind::Transaction,
                ClientCallView::Get { key: call.args[0]->Text_0 },
                1,
            ),
        }
    }

    /// Reads a call of `get(key, continuation)`.
    pub fn get(call: &HostCall) -> (r: Result<Request, Throw>)
        ensures
            decoded(r) == Self::get_spec(call@),
    {
        let types = vec![HostType::Text, HostType::Function];
        assert(types@ =~= Self::get_types());
        if let Some(throw) = call.check(Some(SessionKind::Transaction), &types) {
            return Err(throw);
        }
        assert(argument_fits(call@.args, types@, 0));
        assert(argument_fits(call@.args, types@, 1));
        session_request(SessionKind::Transaction, ClientCall::Get { key: call.text(0) }, 1)
    }

    /// The argument types of `get_for_update`: key, continuation.
    pub open spec fn get_for_update_types() -> Seq<HostType> {
        seq![HostType::Text, HostType::Function]
    }

    /// What a call of `get_for_update` asks for.
    pub open spec fn get_for_update_spec(call: Call) -> Result<RequestView, Throw> {
        match call_fault(call, Some(SessionKind::Transaction), Self::get_for_update_types()) {
            Some(throw) => Err(throw),
            None => session_command(
                SessionKind::Transaction,
                ClientCallView::GetForUpdate { key: call.args[0]->Text_0 },
                1,
            ),
        }
    }

    /// Reads a call of `get_for_update(key, continuation)`.
    pub fn get_for_update(call: &HostCall) -> (r: Result<Request, Throw>)
        ensures
            decoded(r) == Self::get_for_update_spec(call@),
    {
        let types = vec![HostType::Text, HostType::Function];
        assert(types@ =~= Self::get_for_update_types());
        if let Some(throw) = call.check(Some(SessionKind::Transaction), &types) {
            return Err(throw);
        }
        assert(argument_fits(call@.args, types@, 0));
        assert(argument_fits(call@.args, types@, 1));
        session_request(SessionKind::Transaction, ClientCall::GetForUpdate { key: call.text(0) }, 1)
    }

    /// The argument types of `key_exists`: key, continuation.
    pub open spec fn key_exists_types() -> Seq<HostType> {
        seq![HostType::Text, HostType::Function]
    }

    /// What a call of `key_exists` asks for.
    pub open spec fn key_exists_spec(call: Call) -> Result<RequestView, Throw> {
        match call_fault(call, Some(SessionKind::Transaction), Self::key_exists_types()) {
            Some(throw) => Err(throw),
            None => session_command(
                SessionKind::Transaction,
                ClientCallView::KeyExists { key: call.args[0]->Text_0 },
                1,
            ),
        }
    }

    /// Reads a call of `key_exists(key, continuation)`.
    pub fn key_exists(call: &HostCall) -> (r: Result<Request, Throw>)
        ensures
            decoded(r) == Self::key_exists_spec(call@),
    {
        let types = vec![HostType::Text, HostType::Function];
        assert(types@ =~= Self::key_exists_types());
        if let Some(throw) = call.check(Some(SessionKind::Transaction), &types) {
            return Err(throw);
        }
        assert(argument_fits(call@.args, types@, 0));
        assert(argument_fits(call@.args, types@, 1));
        session_request(SessionKind::Transaction, ClientCall::KeyExists { key: call.text(0) }, 1)
    }

    /// The argument types of `batch_get`: the array of keys, continuation.
    pub open spec fn batch_get_types() -> Seq<HostType> {
        seq![HostType::Array, HostType::Function]
    }

    /// What a call of `batch_get` asks for.
    pub open spec fn batch_get_spec(call: Call) -> Result<RequestView, Throw> {
        match call_fault(call, Some(SessionKind::Transaction), Self::batch_get_types()) {
            Some(throw) => Err(throw),
            None => if !all_text(call.args[0]->Array_0) {
                Err(Throw::Item(0))
            } else {
                session_command(
                    SessionKind::Transaction,
                    ClientCallView::BatchGet { keys: keys_at(call, 0) },
                    1,
                )
            },
        }
    }

    /// Reads a call of `batch_get(keys, continuation)`.
    pub fn batch_get(call: &HostCall) -> (r: Result<Request, Throw>)
        ensures
            decoded(r) == Self::batch_get_spec(call@),
    {
        let types = vec![HostType::Array, HostType::Function];
        assert(types@ =~= Self::batch_get_types());
        if let Some(throw) = call.check(Some(SessionKind::Transaction), &types) {
            return Err(throw);
        }
        assert(argument_fits(call@.args, types@, 0));
        assert(argument_fits(call@.args, types@, 1));
        match call.keys(0) {
            Err(throw) => Err(throw),
            Ok(keys) => session_request(SessionKind::Transaction, ClientCall::BatchGet { keys }, 1),
        }
    }

    /// The argument types of `batch_get_for_update`: the array of keys, continuation.
    pub open spec fn batch_get_for_update_types() -> Seq<HostType> {
        seq![HostType::Array, HostType::Function]
    }

    /// What a call of `batch_get_for_update` asks for.
    pub open spec fn batch_get_for_update_spec(call: Call) -> Result<RequestView, Throw> {
        match call_fault(call, Some(SessionKind::Transaction), Self::batch_get_for_update_types()) {
            Some(throw) => Err(throw),
            None => if !all_text(call.args[0]->Array_0) {
                Err(Throw::Item(0))
            } else {
                session_command(
                    SessionKind::Transaction,
                    ClientCallView::BatchGetForUpdate { keys: keys_at(call, 0) },
                    1,
                )
            },
        }
    }

    /// Reads a call of `batch_get_for_update(keys, continuation)`.
    pub fn batch_get_for_update(call: &HostCall) -> (r: Result<Request, Throw>)
        ensures
            decoded(r) == Self::batch_get_for_update_spec(call@),
    {
        let types = vec![HostType::Array, HostType::Function];
        assert(types@ =~= Self::batch_get_for_update_types());
        if let Some(throw) = call.check(Some(SessionKind::Transaction), &types) {
            return Err(throw);
        }
        assert(argument_fits(call@.args, types@, 0));
        assert(argument_fits(call@.args, types@, 1));
        match call.keys(0) {
            Err(throw) => Err(throw),
            Ok(keys) => session_request(SessionKind::Transaction, ClientCall::BatchGetForUpdate { keys }, 1),
        }
    }

    /// The argument types of `scan`: start, end, limit, the two inclusive flags, continuation.
    pub open spec fn scan_types() -> Seq<HostType> {
        seq![HostType::Text, HostType::Text, HostType::Number, HostType::Boolean, HostType::Boolean, HostType::Function]
    }

    /// What a call of `scan` asks for.
    pub open spec fn scan_spec(call: Call) -> Result<RequestView, Throw> {
        match call_fault(call, Some(SessionKind::Transaction), Self::scan_types()) {
            Some(throw) => Err(throw),
            None => session_command(
                SessionKind::Transaction,
                ClientCallView::Scan {
                    range: range_at(call, 0, 1, 3),
                    limit: limit_of(call.args[2]->Number_0),
                },
                5,
            ),
        }
    }

    /// Reads a call of `scan(start, end, limit, include_start, include_end, continuation)`.
    pub fn scan(call: &HostCall) -> (r: Result<Request, Throw>)
        ensures
            decoded(r) == Self::scan_spec(call@),
    {
        let types = vec![HostType::Text, HostType::Text, HostType::Number, HostType::Boolean, HostType::Boolean, HostType::Function];
        assert(types@ =~= Self::scan_types());
        if let Some(throw) = call.check(Some(SessionKind::Transaction), &types) {
            return Err(throw);
        }
        assert(argument_fits(call@.args, types@, 0));
        assert(argument_fits(call@.args, types@, 1));
        assert(argument_fits(call@.args, types@, 2));
        assert(argument_fits(call@.args, types@, 3));
        assert(argument_fits(call@.args, types@, 4));
        assert(argument_fits(call@.args, types@, 5));
        let range = call.range(0, 1, 3);
        let limit = scan_limit(call.number(2));
        session_request(SessionKind::Transaction, ClientCall::Scan { range, limit }, 5)
    }

    /// The argument types of `scan_keys`: start, end, limit, the two inclusive flags, continuation.
    pub open spec fn scan_keys_types() -> Seq<HostType> {
        seq![HostType::Text, HostType::Text, HostType::Number, HostType::Boolean, HostType::Boolean, HostType::Function]
    }

    /// What a call of `scan_keys` asks for.
    pub open spec fn scan_keys_spec(call: Call) -> Result<RequestView, Throw> {
        match call_fault(call, Some(SessionKind::Transaction), Self::scan_keys_types()) {
            Some(throw) => Err(throw),
            None => session_command(
                SessionKind::Transaction,
                ClientCallView::ScanKeys {
                    range: range_at(call, 0, 1, 3),
                    limit: limit_of(call.args[2]->Number_0),
                },
                5,
            ),
        }
    }

    /// Reads a call of `scan_keys(start, end, limit, include_start, include_end, continuation)`.
    pub fn scan_keys(call: &HostCall) -> (r: Result<Request, Throw>)
        ensures
            decoded(r) == Self::scan_keys_spec(call@),
    {
        let types = vec![HostType::Text, HostType::Text, HostType::Number, HostType::Boolean, HostType::Boolean, HostType::Function];
        assert(types@ =~= Self::scan_keys_types());
        if let Some(throw) = call.check(Some(SessionKind::Transaction), &types) {
            return Err(throw);
        }
        assert(argument_fits(call@.args, types@, 0));
        assert(argument_fits(call@.args, types@, 1));
        assert(argument_fits(call@.args, types@, 2));
        assert(argument_fits(call@.args, types@, 3));
        assert(argument_fits(call@.args, types@, 4));
        assert(argument_fits(call@.args, types@, 5));
        let range = call.range(0, 1, 3);
        let limit = scan_limit(call.number(2));
        session_request(SessionKind::Transaction, ClientCall::ScanKeys { range, limit }, 5)
    }

    /// The argument types of `lock_keys`: the array of keys, continuation.
    pub open spec fn lock_keys_types() -> Seq<HostType> {
        seq![HostType::Array, HostType::Function]
    }

    /// What a call of `lock_keys` asks for.
    pub open spec fn lock_keys_spec(call: Call) -> Result<RequestView, Throw> {
        match call_fault(call, Some(SessionKind::Transaction), Self::lock_keys_types()) {
            Some(throw) => Err(throw),
            None => if !all_text(call.args[0]->Array_0) {
                Err(Throw::Item(0))
            } else {
                session_command(
                    SessionKind::Transaction,
                    ClientCallView::LockKeys { keys: keys_at(call, 0) },
                    1,
                )
            },
        }
    }

    /// Reads a call of `lock_keys(keys, continuation)`.
    pub fn lock_keys(call: &HostCall) -> (r: Result<Request, Throw>)
        ensures
            decoded(r) == Self::lock_keys_spec(call@),
    {
        let types = vec![HostType::Array, HostType::Function];
        assert(types@ =~= Self::lock_keys_types());
        if let Some(throw) = call.check(Some(SessionKind::Transaction), &types) {
            return Err(throw);
        }
        assert(argument_fits(call@.args, types@, 0));
        assert(argument_fits(call@.args, types@, 1));
        match call.keys(0) {
            Err(throw) => Err(throw),
            Ok(keys) => session_request(SessionKind::Transaction, ClientCall::LockKeys { keys }, 1),
        }
    }

    /// The argument types of `put`: key, value, continuation.
    pub open spec fn put_types() -> Seq<HostType> {
        seq![HostType::Text, HostType::Text, HostType::Function]
    }

    /// What a call of `put` asks for.
    pub open spec fn put_spec(call: Call) -> Result<RequestView, Throw> {
        match call_fault(call, Some(SessionKind::Transaction), Self::put_types()) {
            Some(throw) => Err(throw),
            None => session_command(
                SessionKind::Transaction,
                ClientCallView::Put { key: call.args[0]->Text_0, value: call.args[1]->Text_0 },
                2,
            ),
        }
    }

    /// Reads a call of `put(key, value, continuation)`.
    pub fn put(call: &HostCall) -> (r: Result<Request, Throw>)
        ensures
            decoded(r) == Self::put_spec(call@),
    {
        let types = vec![HostType::Text, HostType::Text, HostType::Function];
        assert(types@ =~= Self::put_types());
        if let Some(throw) = call.check(Some(SessionKind::Transaction), &types) {
            return Err(throw);
        }
        assert(argument_fits(call@.args, types@, 0));
        assert(argument_fits(call@.args, types@, 1));
        assert(argument_fits(call@.args, types@, 2));
        session_request(
            SessionKind::Transaction,
            ClientCall::Put { key: call.text(0), value: call.text(1) },
            2,
        )
    }

    /// The argument types of `insert`: key, value, continuation.
    pub open spec fn insert_types() -> Seq<HostType> {
        seq![HostType::Text, HostType::Text, HostType::Function]
    }

    /// What a call of `insert` asks for.
    pub open spec fn insert_spec(call: Call) -> Result<RequestView, Throw> {
        match call_fault(call, Some(SessionKind::Transaction), Self::insert_types()) {
            Some(throw) => Err(throw),
            None => session_command(
                SessionKind::Transaction,
                ClientCallView::Insert { key: call.args[0]->Text_0, value: call.args[1]->Text_0 },
                2,
            ),
        }
    }

    /// Reads a call of `insert(key, value, continuation)`.
    pub fn insert(call: &HostCall) -> (r: Result<Request, Throw>)
        ensures
            decoded(r) == Self::insert_spec(call@),
    {
        let types = vec![HostType::Text, HostType::Text, HostType::Function];
        assert(types@ =~= Self::insert_types());
        if let Some(throw) = call.check(Some(SessionKind::Transaction), &types) {
            return Err(throw);
        }
        assert(argument_fits(call@.args, types@, 0));
        assert(argument_fits(call@.args, types@, 1));
        assert(argument_fits(call@.args, types@, 2));
        session_request(
            SessionKind::Transaction,
            ClientCall::Insert { key: call.text(0), value: call.text(1) },
            2,
        )
    }

    /// The argument types of `delete`: key, continuation.
    pub open spec fn delete_types() -> Seq<HostType> {
        seq![HostType::Text, HostType::Function]
    }

    /// What a call of `delete` asks for.
    pub open spec fn delete_spec(call: Call) -> Result<RequestView, Throw> {
        match call_fault(call, Some(SessionKind::Transaction), Self::delete_types()) {
            Some(throw) => Err(throw),
            None => session_command(
                SessionKind::Transaction,
                ClientCallView::Delete { key: call.args[0]->Text_0 },
                1,
            ),
        }
    }

    /// Reads a call of `delete(key, continuation)`.
    pub fn delete(call: &HostCall) -> (r: Result<Request, Throw>)
        ensures
            decoded(r) == Self::delete_spec(call@),
    {
        let types = vec![HostType::Text, HostType::Function];
        assert(types@ =~= Self::delete_types());
        if let Some(throw) = call.check(Some(SessionKind::Transaction), &types) {
            return Err(throw);
        }
        assert(argument_fits(call@.args, types@, 0));
        assert(argument_fits(call@.args, types@, 1));
        session_request(SessionKind::Transaction, ClientCall::Delete { key: call.text(0) }, 1)
    }

    /// The argument types of `commit`: continuation.
    pub open spec fn commit_types() -> Seq<HostType> {
        seq![HostType::Function]
    }

    /// What a call of `commit` asks for.
    pub open spec fn commit_spec(call: Call) -> Result<RequestView, Throw> {
        match call_fault(call, Some(SessionKind::Transaction), Self::commit_types()) {
            Some(throw) => Err(throw),
            None => session_command(SessionKind::Transaction, ClientCallView::Commit, 0),
        }
    }

    /// Reads a call of `commit(continuation)`.
    pub fn commit(call: &HostCall) -> (r: Result<Request, Throw>)
        ensures
            decoded(r) == Self::commit_spec(call@),
    {
        let types = vec![HostType::Function];
        assert(types@ =~= Self::commit_types());
        if let Some(throw) = call.check(Some(SessionKind::Transaction), &types) {
            return Err(throw);
        }
        assert(argument_fits(call@.args, types@, 0));
        session_request(SessionKind::Transaction, ClientCall::Commit, 0)
    }
}

/// A snapshot session, as the host addresses it: reads against one timestamp,
/// which stay valid for as long as the handle lives.
pub struct Snapshot {}

impl Snapshot {
    /// The argument types of `get`: key, continuation.
    pub open spec fn get_types() -> Seq<HostType> {
        seq![HostType::Text, HostType::Function]
    }

    /// What a call of `get` asks for.
    pub open spec fn get_spec(call: Call) -> Result<RequestView, Throw> {
        match call_fault(call, Some(SessionKind::Snapshot), Self::get_types()) {
            Some(throw) => Err(throw),
            None => session_command(
                SessionKind::Snapshot,
                ClientCallView::Get { key: call.args[0]->Text_0 },
                1,
            ),
        }
    }

    /// Reads a call of `get(key, continuation)`.
    pub fn get(call: &HostCall) -> (r: Result<Request, Throw>)
        ensures
            decoded(r) == Self::get_spec(call@),
    {
        let types = vec![HostType::Text, HostType::Function];
        assert(types@ =~= Self::get_types());
        if let Some(throw) = call.check(Some(SessionKind::Snapshot), &types) {
            return Err(throw);
        }
        assert(argument_fits(call@.args, types@, 0));
        assert(argument_fits(call@.args, types@, 1));
        session_request(SessionKind::Snapshot, ClientCall::Get { key: call.text(0) }, 1)
    }

    /// The argument types of `key_exists`: key, continuation.
    pub open spec fn key_exists_types() -> Seq<HostType> {
        seq![HostType::Text, HostType::Function]
    }

    /// What a call of `key_exists` asks for.
    pub open spec fn key_exists_spec(call: Call) -> Result<RequestView, Throw> {
        match call_fault(call, Some(SessionKind::Snapshot), Self::key_exists_types()) {
            Some(throw) => Err(throw),
            None => session_command(
                SessionKind::Snapshot,
                ClientCallView::KeyExists { key: call.args[0]->Text_0 },
                1,
            ),
        }
    }

    /// Reads a call of `key_exists(key, continuation)`.
    pub fn key_exists(call: &HostCall) -> (r: Result<Request, Throw>)
        ensures
            decoded(r) == Self::key_exists_spec(call@),
    {
        let types = vec![HostType::Text, HostType::Function];
        assert(types@ =~= Self::key_exists_types());
        if let Some(throw) = call.check(Some(SessionKind::Snapshot), &types) {
            return Err(throw);
        }
        assert(argument_fits(call@.args, types@, 0));
        assert(argument_fits(call@.args, types@, 1));
        session_request(SessionKind::Snapshot, ClientCall::KeyExists { key: call.text(0) }, 1)
    }

    /// The argument types of `batch_get`: the array of keys, continuation.
    pub open spec fn batch_get_types() -> Seq<HostType> {
        seq![HostType::Array, HostType::Function]
    }

    /// What a call of `batch_get` asks for.
    pub open spec fn batch_get_spec(call: Call) -> Result<RequestView, Throw> {
        match call_fault(call, Some(SessionKind::Snapshot), Self::batch_get_types()) {
            Some(throw) => Err(throw),
            None => if !all_text(call.args[0]->Array_0) {
                Err(Throw::Item(0))
            } else {
                session_command(
                    SessionKind::Snapshot,
                    ClientCallView::BatchGet { keys: keys_at(call, 0) },
                    1,
                )
            },
        }
    }

    /// Reads a call of `batch_get(keys, continuation)`.
    pub fn batch_get(call: &HostCall) -> (r: Result<Request, Throw>)
        ensures
            decoded(r) == Self::batch_get_spec(call@),
    {
        let types = vec![HostType::Array, HostType::Function];
        assert(types@ =~= Self::batch_get_types());
        if let Some(throw) = call.check(Some(SessionKind::Snapshot), &types) {
            return Err(throw);
        }
        assert(argument_fits(call@.args, types@, 0));
        assert(argument_fits(call@.args, types@, 1));
        match call.keys(0) {
            Err(throw) => Err(throw),
            Ok(keys) => session_request(SessionKind::Snapshot, ClientCall::BatchGet { keys }, 1),
        }
    }

    /// The argument types of `scan`: start, end, limit, the two inclusive flags, continuation.
    pub open spec fn scan_types() -> Seq<HostType> {
        seq![HostType::Text, HostType::Text, HostType::Number, HostType::Boolean, HostType::Boolean, HostType::Function]
    }

    /// What a call of `scan` asks for.
    pub open spec fn scan_spec(call: Call) -> Result<RequestView, Throw> {
        match call_fault(call, Some(SessionKind::Snapshot), Self::scan_types()) {
            Some(throw) => Err(throw),
            None => session_command(
                SessionKind::Snapshot,
                ClientCallView::Scan {
                    range: range_at(call, 0, 1, 3),
                    limit: limit_of(call.args[2]->Number_0),
                },
                5,
            ),
        }
    }

    /// Reads a call of `scan(start, end, limit, include_start, include_end, continuation)`.
    pub fn scan(call: &HostCall) -> (r: Result<Request, Throw>)
        ensures
            decoded(r) == Self::scan_spec(call@),
    {
        let types = vec![HostType::Text, HostType::Text, HostType::Number, HostType::Boolean, HostType::Boolean, HostType::Function];
        assert(types@ =~= Self::scan_types());
        if let Some(throw) = call.check(Some(SessionKind::Snapshot), &types) {
            return Err(throw);
        }
        assert(argument_fits(call@.args, types@, 0));
        assert(argument_fits(call@.args, types@, 1));
        assert(argument_fits(call@.args, types@, 2));
        assert(argument_fits(call@.args, types@, 3));
        assert(argument_fits(call@.args, types@, 4));
        assert(argument_fits(call@.args, types@, 5));
        let range = call.range(0, 1, 3);
        let limit = scan_limit(call.number(2));
        session_request(SessionKind::Snapshot, ClientCall::Scan { range, limit }, 5)
    }

    /// The argument types of `scan_keys`: start, end, limit, the two inclusive flags, continuation.
    pub open spec fn scan_keys_types() -> Seq<HostType> {
        seq![HostType::Text, HostType::Text, HostType::Number, HostType::Boolean, HostType::Boolean, HostType::Function]
    }

    /// What a call of `scan_keys` asks for.
    pub open spec fn scan_keys_spec(call: Call) -> Result<RequestView, Throw> {
        match call_fault(call, Some(SessionKind::Snapshot), Self::scan_keys_types()) {
            Some(throw) => Err(throw),
            None => session_command(
                SessionKind::Snapshot,
                ClientCallView::ScanKeys {
                    range: range_at(call, 0, 1, 3),
                    limit: limit_of(call.args[2]->Number_0),
                },
                5,
            ),
        }
    }

    /// Reads a call of `scan_keys(start, end, limit, include_start, include_end, continuation)`.
    pub fn scan_keys(call: &HostCall) -> (r: Result<Request, Throw>)
        ensures
            decoded(r) == Self::scan_keys_spec(call@),
    {
        let types = vec![HostType::Text, HostType::Text, HostType::Number, HostType::Boolean, HostType::Boolean, HostType::Function];
        assert(types@ =~= Self::scan_keys_types());
        if let Some(throw) = call.check(Some(SessionKind::Snapshot), &types) {
            return Err(throw);
        }
        assert(argument_fits(call@.args, types@, 0));
        assert(argument_fits(call@.args, types@, 1));
        assert(argument_fits(call@.args, types@, 2));
        assert(argument_fits(call@.args, types@, 3));
        assert(argument_fits(call@.args, types@, 4));
        assert(argument_fits(call@.args, types@, 5));
        let range = call.range(0, 1, 3);
        let limit = scan_limit(call.number(2));
        session_request(SessionKind::Snapshot, ClientCall::ScanKeys { range, limit }, 5)
    }
}

/// A committed session is terminal. It answers every put, delete, insert and
/// commit with the error of kind "operation after commit", which is also the
/// kind of that error when the client reports it, and whatever runs to its end
/// afterwards leaves the session committed.
pub proof fn lemma_committed_is_terminal(session: Transaction, call: ClientCallView, succeeded: bool)
    requires
        session.state is Committed,
    ensures
        session.after(call, succeeded) is Committed,
        call is Put || call is Delete || call is Insert || call is Commit ==> session.refusal(call)
            == Some(Classified::OperationAfterCommit),
        classify_spec(ExternalErrorView::OperationAfterCommitError)
            == Classified::OperationAfterCommit,
{
}

/// Which commands take the session lock goes by the session alone: a command
/// against a transaction or a snapshot takes it, whatever it asks for, and a
/// command against a raw session never does.
pub proof fn lemma_lock_goes_by_session(
    kind: SessionKind,
    body: ClientCallView,
    callback: usize,
    call: Call,
    cf_at: int,
)
    ensures
        session_command(kind, body, callback) is Ok,
        session_command(kind, body, callback)->Ok_0.exclusive() <==> kind is Transaction
            || kind is Snapshot,
        raw_command(call, cf_at, body) is Ok ==> !raw_command(call, cf_at, body)->Ok_0.exclusive(),
{
}

/// A transaction that has begun accepts its first commit, and once that commit
/// has succeeded it refuses the second.
pub proof fn lemma_second_commit_is_refused(session: Transaction)
    requires
        session.state is Active,
    ensures
        session.accepts(ClientCallView::Commit),
        (Transaction { state: session.after(ClientCallView::Commit, true) }).refusal(
            ClientCallView::Commit,
        ) == Some(Classified::OperationAfterCommit),
{
}

} // verus!
