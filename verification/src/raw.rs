//! The operations of a raw session: each reads a host call into the command
//! that it asks for, or into what the call throws.
//!
//! A call is held against the receiver first, then against its argument types
//! in order, then against the items of an array argument, and last against the
//! column family that it names.

use crate::command::{
    column_family_at, decoded, keys_at, limit_of, range_at, scan_limit, ClientCall,
    ClientCallView, Request, RequestView,
};
use crate::host::{argument_fits, call_fault, Call, HostCall, HostType, SessionKind, Throw};
use crate::utils::{all_text, pairs_in, well_paired};
use vstd::prelude::*;

verus! {

/// A raw key-value session, as the host addresses it.
pub struct RawClient {}

/// The command of a raw call whose arguments fit: the column family is named
/// at position `cf_at`, and the continuation follows it.
pub open spec fn raw_command(call: Call, cf_at: int, body: ClientCallView) -> Result<
    RequestView,
    Throw,
> {
    match column_family_at(call, cf_at) {
        Err(throw) => Err(throw),
        Ok(cf) => Ok(
            RequestView {
                receiver: Some(SessionKind::Raw),
                cf: Some(cf),
                call: body,
                callback: (cf_at + 1) as usize,
            },
        ),
    }
}

/// Completes a raw command with the column family named at position `cf_at`.
fn raw_request(call: &HostCall, cf_at: usize, body: ClientCall) -> (r: Result<Request, Throw>)
    requires
        cf_at + 1 < call@.args.len(),
        call@.args[cf_at as int] is Text,
    ensures
        decoded(r) == raw_command(call@, cf_at as int, body@),
{
    let count = call.args.len();
    assert(call@.args.len() == count);
    match call.column_family(cf_at) {
        Err(throw) => Err(throw),
        Ok(cf) => Ok(
            Request {
                receiver: Some(SessionKind::Raw),
                cf: Some(cf),
                call: body,
                callback: cf_at + 1,
            },
        ),
    }
}

impl RawClient {
    /// The argument types of `connect`: the placement driver's endpoint, the continuation.
    pub open spec fn connect_types() -> Seq<HostType> {
        seq![HostType::Text, HostType::Function]
    }

    /// What a call of `connect` asks for.
    pub open spec fn connect_spec(call: Call) -> Result<RequestView, Throw> {
        match call_fault(call, None, Self::connect_types()) {
            Some(throw) => Err(throw),
            None => Ok(
                RequestView {
                    receiver: None,
                    cf: None,
                    call: ClientCallView::Connect {
                        kind: SessionKind::Raw,
                        pd_endpoint: call.args[0]->Text_0,
                    },
                    callback: 1,
                },
            ),
        }
    }

    /// Reads a call of `connect(pd_endpoint, continuation)`.
    pub fn connect(call: &HostCall) -> (r: Result<Request, Throw>)
        ensures
            decoded(r) == Self::connect_spec(call@),
    {
        let types = vec![HostType::Text, HostType::Function];
        assert(types@ =~= Self::connect_types());
        if let Some(throw) = call.check(None, &types) {
            return Err(throw);
        }
        assert(argument_fits(call@.args, types@, 0));
        assert(argument_fits(call@.args, types@, 1));
        Ok(
            Request {
                receiver: None,
                cf: None,
                call: ClientCall::Connect { kind: SessionKind::Raw, pd_endpoint: call.text(0) },
                callback: 1,
            },
        )
    }

    /// The argument types of `put`: key, value, column family, continuation.
    pub open spec fn put_types() -> Seq<HostType> {
        seq![HostType::Text, HostType::Text, HostType::Text, HostType::Function]
    }

    /// What a call of `put` asks for.
    pub open spec fn put_spec(call: Call) -> Result<RequestView, Throw> {
        match call_fault(call, Some(SessionKind::Raw), Self::put_types()) {
            Some(throw) => Err(throw),
            None => raw_command(
                call,
                2,
                ClientCallView::Put { key: call.args[0]->Text_0, value: call.args[1]->Text_0 },
            ),
        }
    }

    /// Reads a call of `put(key, value, cf, continuation)`.
    pub fn put(call: &HostCall) -> (r: Result<Request, Throw>)
        ensures
            decoded(r) == Self::put_spec(call@),
    {
        let types = vec![HostType::Text, HostType::Text, HostType::Text, HostType::Function];
        assert(types@ =~= Self::put_types());
        if let Some(throw) = call.check(Some(SessionKind::Raw), &types) {
            return Err(throw);
        }
        assert(argument_fits(call@.args, types@, 0));
        assert(argument_fits(call@.args, types@, 1));
        assert(argument_fits(call@.args, types@, 2));
        assert(argument_fits(call@.args, types@, 3));
        raw_request(call, 2, ClientCall::Put { key: call.text(0), value: call.text(1) })
    }

    /// The argument types of `get`: key, column family, continuation.
    pub open spec fn get_types() -> Seq<HostType> {
        seq![HostType::Text, HostType::Text, HostType::Function]
    }

    /// What a call of `get` asks for.
    pub open spec fn get_spec(call: Call) -> Result<RequestView, Throw> {
        match call_fault(call, Some(SessionKind::Raw), Self::get_types()) {
            Some(throw) => Err(throw),
            None => raw_command(call, 1, ClientCallView::Get { key: call.args[0]->Text_0 }),
        }
    }

    /// Reads a call of `get(key, cf, continuation)`.
    pub fn get(call: &HostCall) -> (r: Result<Request, Throw>)
        ensures
            decoded(r) == Self::get_spec(call@),
    {
        let types = vec![HostType::Text, HostType::Text, HostType::Function];
        assert(types@ =~= Self::get_types());
        if let Some(throw) = call.check(Some(SessionKind::Raw), &types) {
            return Err(throw);
        }
        assert(argument_fits(call@.args, types@, 0));
        assert(argument_fits(call@.args, types@, 1));
        assert(argument_fits(call@.args, types@, 2));
        raw_request(call, 1, ClientCall::Get { key: call.text(0) })
    }

    /// The argument types of `delete`: key, column family, continuation.
    pub open spec fn delete_types() -> Seq<HostType> {
        seq![HostType::Text, HostType::Text, HostType::Function]
    }

    /// What a call of `delete` asks for.
    pub open spec fn delete_spec(call: Call) -> Result<RequestView, Throw> {
        match call_fault(call, Some(SessionKind::Raw), Self::delete_types()) {
            Some(throw) => Err(throw),
            None => raw_command(call, 1, ClientCallView::Delete { key: call.args[0]->Text_0 }),
        }
    }

    /// Reads a call of `delete(key, cf, continuation)`.
    pub fn delete(call: &HostCall) -> (r: Result<Request, Throw>)
        ensures
            decoded(r) == Self::delete_spec(call@),
    {
        let types = vec![HostType::Text, HostType::Text, HostType::Function];
        assert(types@ =~= Self::delete_types());
        if let Some(throw) = call.check(Some(SessionKind::Raw), &types) {
            return Err(throw);
        }
        assert(argument_fits(call@.args, types@, 0));
        assert(argument_fits(call@.args, types@, 1));
        assert(argument_fits(call@.args, types@, 2));
        raw_request(call, 1, ClientCall::Delete { key: call.text(0) })
    }

    /// The argument types of `batch_get`: the array of keys, column family, continuation.
    pub open spec fn batch_get_types() -> Seq<HostType> {
        seq![HostType::Array, HostType::Text, HostType::Function]
    }

    /// What a call of `batch_get` asks for.
    pub open spec fn batch_get_spec(call: Call) -> Result<RequestView, Throw> {
        match call_fault(call, Some(SessionKind::Raw), Self::batch_get_types()) {
            Some(throw) => Err(throw),
            None => if !all_text(call.args[0]->Array_0) {
                Err(Throw::Item(0))
            } else {
                raw_command(call, 1, ClientCallView::BatchGet { keys: keys_at(call, 0) })
            },
        }
    }

    /// Reads a call of `batch_get(keys, cf, continuation)`.
    pub fn batch_get(call: &HostCall) -> (r: Result<Request, Throw>)
        ensures
            decoded(r) == Self::batch_get_spec(call@),
    {
        let types = vec![HostType::Array, HostType::Text, HostType::Function];
        assert(types@ =~= Self::batch_get_types());
        if let Some(throw) = call.check(Some(SessionKind::Raw), &types) {
            return Err(throw);
        }
        assert(argument_fits(call@.args, types@, 0));
        assert(argument_fits(call@.args, types@, 1));
        assert(argument_fits(call@.args, types@, 2));
        match call.keys(0) {
            Err(throw) => Err(throw),
            Ok(keys) => raw_request(call, 1, ClientCall::BatchGet { keys }),
        }
    }

    /// The argument types of `batch_delete`: the array of keys, column family, continuation.
    pub open spec fn batch_delete_types() -> Seq<HostType> {
        seq![HostType::Array, HostType::Text, HostType::Function]
    }

    /// What a call of `batch_delete` asks for.
    pub open spec fn batch_delete_spec(call: Call) -> Result<RequestView, Throw> {
        match call_fault(call, Some(SessionKind::Raw), Self::batch_delete_types()) {
            Some(throw) => Err(throw),
            None => if !all_text(call.args[0]->Array_0) {
                Err(Throw::Item(0))
            } else {
                raw_command(call, 1, ClientCallView::BatchDelete { keys: keys_at(call, 0) })
            },
        }
    }

    /// Reads a call of `batch_delete(keys, cf, continuation)`.
    pub fn batch_delete(call: &HostCall) -> (r: Result<Request, Throw>)
        ensures
            decoded(r) == Self::batch_delete_spec(call@),
    {
        let types = vec![HostType::Array, HostType::Text, HostType::Function];
        assert(types@ =~= Self::batch_delete_types());
        if let Some(throw) = call.check(Some(SessionKind::Raw), &types) {
            return Err(throw);
        }
        assert(argument_fits(call@.args, types@, 0));
        assert(argument_fits(call@.args, types@, 1));
        assert(argument_fits(call@.args, types@, 2));
        match call.keys(0) {
            Err(throw) => Err(throw),
            Ok(keys) => raw_request(call, 1, ClientCall::BatchDelete { keys }),
        }
    }

    /// The argument types of `batch_put`: the array of pairs, column family, continuation.
    pub open spec fn batch_put_types() -> Seq<HostType> {
        seq![HostType::Array, HostType::Text, HostType::Function]
    }

    /// What a call of `batch_put` asks for.
    pub open spec fn batch_put_spec(call: Call) -> Result<RequestView, Throw> {
        match call_fault(call, Some(SessionKind::Raw), Self::batch_put_types()) {
            Some(throw) => Err(throw),
            None => if !well_paired(call.args[0]->Array_0) {
                Err(Throw::Item(0))
            } else {
                raw_command(
                    call,
                    1,
                    ClientCallView::BatchPut { pairs: pairs_in(call.args[0]->Array_0) },
                )
            },
        }
    }

    /// Reads a call of `batch_put(pairs, cf, continuation)`.
    pub fn batch_put(call: &HostCall) -> (r: Result<Request, Throw>)
        ensures
            decoded(r) == Self::batch_put_spec(call@),
    {
        let types = vec![HostType::Array, HostType::Text, HostType::Function];
        assert(types@ =~= Self::batch_put_types());
        if let Some(throw) = call.check(Some(SessionKind::Raw), &types) {
            return Err(throw);
        }
        assert(argument_fits(call@.args, types@, 0));
        assert(argument_fits(call@.args, types@, 1));
        assert(argument_fits(call@.args, types@, 2));
        match call.pairs(0) {
            Err(throw) => Err(throw),
            Ok(pairs) => raw_request(call, 1, ClientCall::BatchPut { pairs }),
        }
    }

    /// The argument types of `scan`: start, end, limit, the two inclusive flags, column family, continuation.
    pub open spec fn scan_types() -> Seq<HostType> {
        seq![HostType::Text, HostType::Text, HostType::Number, HostType::Boolean, HostType::Boolean, HostType::Text, HostType::Function]
    }

    /// What a call of `scan` asks for.
    pub open spec fn scan_spec(call: Call) -> Result<RequestView, Throw> {
        match call_fault(call, Some(SessionKind::Raw), Self::scan_types()) {
            Some(throw) => Err(throw),
            None => raw_command(
                call,
                5,
                ClientCallView::Scan {
                    range: range_at(call, 0, 1, 3),
                    limit: limit_of(call.args[2]->Number_0),
                },
            ),
        }
    }

    /// Reads a call of `scan(start, end, limit, include_start, include_end, cf, continuation)`.
    pub fn scan(call: &HostCall) -> (r: Result<Request, Throw>)
        ensures
            decoded(r) == Self::scan_spec(call@),
    {
        let types = vec![HostType::Text, HostType::Text, HostType::Number, HostType::Boolean, HostType::Boolean, HostType::Text, HostType::Function];
        assert(types@ =~= Self::scan_types());
        if let Some(throw) = call.check(Some(SessionKind::Raw), &types) {
            return Err(throw);
        }
        assert(argument_fits(call@.args, types@, 0));
        assert(argument_fits(call@.args, types@, 1));
        assert(argument_fits(call@.args, types@, 2));
        assert(argument_fits(call@.args, types@, 3));
        assert(argument_fits(call@.args, types@, 4));
        assert(argument_fits(call@.args, types@, 5));
        assert(argument_fits(call@.args, types@, 6));
        let range = call.range(0, 1, 3);
        let limit = scan_limit(call.number(2));
        raw_request(call, 5, ClientCall::Scan { range, limit })
    }

    /// The argument types of `scan_keys`: start, end, limit, the two inclusive flags, column family, continuation.
    pub open spec fn scan_keys_types() -> Seq<HostType> {
        seq![HostType::Text, HostType::Text, HostType::Number, HostType::Boolean, HostType::Boolean, HostType::Text, HostType::Function]
    }

    /// What a call of `scan_keys` asks for.
    pub open spec fn scan_keys_spec(call: Call) -> Result<RequestView, Throw> {
        match call_fault(call, Some(SessionKind::Raw), Self::scan_keys_types()) {
            Some(throw) => Err(throw),
            None => raw_command(
                call,
                5,
                ClientCallView::ScanKeys {
                    range: range_at(call, 0, 1, 3),
                    limit: limit_of(call.args[2]->Number_0),
                },
            ),
        }
    }

    /// Reads a call of `scan_keys(start, end, limit, include_start, include_end, cf, continuation)`.
    pub fn scan_keys(call: &HostCall) -> (r: Result<Request, Throw>)
        ensures
            decoded(r) == Self::scan_keys_spec(call@),
    {
        let types = vec![HostType::Text, HostType::Text, HostType::Number, HostType::Boolean, HostType::Boolean, HostType::Text, HostType::Function];
        assert(types@ =~= Self::scan_keys_types());
        if let Some(throw) = call.check(Some(SessionKind::Raw), &types) {
            return Err(throw);
        }
        assert(argument_fits(call@.args, types@, 0));
        assert(argument_fits(call@.args, types@, 1));
        assert(argument_fits(call@.args, types@, 2));
        assert(argument_fits(call@.args, types@, 3));
        assert(argument_fits(call@.args, types@, 4));
        assert(argument_fits(call@.args, types@, 5));
        assert(argument_fits(call@.args, types@, 6));
        let range = call.range(0, 1, 3);
        let limit = scan_limit(call.number(2));
        raw_request(call, 5, ClientCall::ScanKeys { range, limit })
    }

    /// The argument types of `delete_range`: start, end, the two inclusive flags, column family, continuation.
    pub open spec fn delete_range_types() -> Seq<HostType> {
        seq![HostType::Text, HostType::Text, HostType::Boolean, HostType::Boolean, HostType::Text, HostType::Function]
    }

    /// What a call of `delete_range` asks for.
    pub open spec fn delete_range_spec(call: Call) -> Result<RequestView, Throw> {
        match call_fault(call, Some(SessionKind::Raw), Self::delete_range_types()) {
            Some(throw) => Err(throw),
            None => raw_command(call, 4, ClientCallView::DeleteRange { range: range_at(call, 0, 1, 2) }),
        }
    }

    /// Reads a call of `delete_range(start, end, include_start, include_end, cf, continuation)`.
    pub fn delete_range(call: &HostCall) -> (r: Result<Request, Throw>)
        ensures
            decoded(r) == Self::delete_range_spec(call@),
    {
        let types = vec![HostType::Text, HostType::Text, HostType::Boolean, HostType::Boolean, HostType::Text, HostType::Function];
        assert(types@ =~= Self::delete_range_types());
        if let Some(throw) = call.check(Some(SessionKind::Raw), &types) {
            return Err(throw);
        }
        assert(argument_fits(call@.args, types@, 0));
        assert(argument_fits(call@.args, types@, 1));
        assert(argument_fits(call@.args, types@, 2));
        assert(argument_fits(call@.args, types@, 3));
        assert(argument_fits(call@.args, types@, 4));
        assert(argument_fits(call@.args, types@, 5));
        let range = call.range(0, 1, 2);
        raw_request(call, 4, ClientCall::DeleteRange { range })
    }
}

} // verus!
