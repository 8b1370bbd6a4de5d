//! Decoded commands: what an operation asks of the client once its call has
//! been read.

use crate::host::{texts, Call, HostCall, SessionKind, Throw, Value};
use crate::range::{range_of, to_bound_range, BoundRange, BoundRangeView};
use crate::utils::{
    all_text, is_key_array, is_pair_array, js_array_to_rust_keys, js_array_to_rust_pairs,
    pair_views, pairs_in, well_paired, KvPair,
};
use vstd::prelude::*;
use vstd::string::*;
use vstd::utf8::*;

verus! {

/// The column families of the store.
#[derive(Clone, Copy, Debug, PartialEq, Eq, Structural)]
pub enum ColumnFamily {
    Default,
    Lock,
    Write,
}

/// The column family that a name stands for, if any.
pub open spec fn column_family_named(name: Seq<char>) -> Option<ColumnFamily> {
    if name == "default"@ {
        Some(ColumnFamily::Default)
    } else if name == "lock"@ {
        Some(ColumnFamily::Lock)
    } else if name == "write"@ {
        Some(ColumnFamily::Write)
    } else {
        None
    }
}

/// `tikv_client::ColumnFamily::try_from` on a string slice: `default`, `lock`
/// and `write` name the three column families, every other name is refused.
#[verifier::external_body]
fn client_column_family(name: &str) -> (r: Option<ColumnFamily>)
    ensures
        r == column_family_named(name@),
{
    match tikv_client::ColumnFamily::try_from(name) {
        Ok(tikv_client::ColumnFamily::Default) => Some(ColumnFamily::Default),
        Ok(tikv_client::ColumnFamily::Lock) => Some(ColumnFamily::Lock),
        Ok(tikv_client::ColumnFamily::Write) => Some(ColumnFamily::Write),
        Err(_) => None,
    }
}

impl ColumnFamily {
    /// The column family of this name, if the store has one.
    pub fn named(name: &str) -> (r: Option<ColumnFamily>)
        ensures
            r == column_family_named(name@),
    {
        client_column_family(name)
    }
}

/// The number of items that a scan returns at most, from the number that the
/// host gave: numbers above the largest limit stand for the largest limit.
pub open spec fn limit_of(n: u64) -> u32 {
    if n > u32::MAX {
        u32::MAX
    } else {
        n as u32
    }
}

/// The scan limit that a host number stands for.
pub fn scan_limit(n: u64) -> (r: u32)
    ensures
        r == limit_of(n),
{
    if n > 0xffff_ffff {
        0xffff_ffff
    } else {
        n as u32
    }
}

/// One operation of the client, with its arguments.
#[derive(Clone, Debug, PartialEq, Eq)]
pub enum ClientCall {
    /// Connect a client of the given kind to the placement driver.
    Connect { kind: SessionKind, pd_endpoint: String },
    Begin { pessimistic: bool },
    /// Open a snapshot at the timestamp of this version number.
    Snapshot { timestamp: u64, pessimistic: bool },
    CurrentTimestamp,
    /// Collect garbage up to the timestamp of this version number.
    Gc { safepoint: u64 },
    Get { key: String },
    GetForUpdate { key: String },
    KeyExists { key: String },
    BatchGet { keys: Vec<String> },
    BatchGetForUpdate { keys: Vec<String> },
    Scan { range: BoundRange, limit: u32 },
    ScanKeys { range: BoundRange, limit: u32 },
    LockKeys { keys: Vec<String> },
    Put { key: String, value: String },
    Insert { key: String, value: String },
    Delete { key: String },
    BatchPut { pairs: Vec<KvPair> },
    BatchDelete { keys: Vec<String> },
    DeleteRange { range: BoundRange },
    Commit,
}

/// One operation of the client, as contracts see it.
pub enum ClientCallView {
    Connect { kind: SessionKind, pd_endpoint: Seq<char> },
    Begin { pessimistic: bool },
    Snapshot { timestamp: u64, pessimistic: bool },
    CurrentTimestamp,
    Gc { safepoint: u64 },
    Get { key: Seq<char> },
    GetForUpdate { key: Seq<char> },
    KeyExists { key: Seq<char> },
    BatchGet { keys: Seq<Seq<char>> },
    BatchGetForUpdate { keys: Seq<Seq<char>> },
    Scan { range: BoundRangeView, limit: u32 },
    ScanKeys { range: BoundRangeView, limit: u32 },
    LockKeys { keys: Seq<Seq<char>> },
    Put { key: Seq<char>, value: Seq<char> },
    Insert { key: Seq<char>, value: Seq<char> },
    Delete { key: Seq<char> },
    BatchPut { pairs: Seq<(Seq<u8>, Seq<u8>)> },
    BatchDelete { keys: Seq<Seq<char>> },
    DeleteRange { range: BoundRangeView },
    Commit,
}

impl View for ClientCall {
    type V = ClientCallView;

    open spec fn view(&self) -> ClientCallView {
        match self {
            ClientCall::Connect { kind, pd_endpoint } => ClientCallView::Connect {
                kind: *kind,
                pd_endpoint: pd_endpoint@,
            },
            ClientCall::Begin { pessimistic } => ClientCallView::Begin { pessimistic: *pessimistic },
            ClientCall::Snapshot { timestamp, pessimistic } => ClientCallView::Snapshot {
                timestamp: *timestamp,
                pessimistic: *pessimistic,
            },
            ClientCall::CurrentTimestamp => ClientCallView::CurrentTimestamp,
            ClientCall::Gc { safepoint } => ClientCallView::Gc { safepoint: *safepoint },
            ClientCall::Get { key } => ClientCallView::Get { key: key@ },
            ClientCall::GetForUpdate { key } => ClientCallView::GetForUpdate { key: key@ },
            ClientCall::KeyExists { key } => ClientCallView::KeyExists { key: key@ },
            ClientCall::BatchGet { keys } => ClientCallView::BatchGet { keys: texts(keys@) },
            ClientCall::BatchGetForUpdate { keys } => ClientCallView::BatchGetForUpdate {
                keys: texts(keys@),
            },
            ClientCall::Scan { range, limit } => ClientCallView::Scan {
                range: range@,
                limit: *limit,
            },
            ClientCall::ScanKeys { range, limit } => ClientCallView::ScanKeys {
                range: range@,
                limit: *limit,
            },
            ClientCall::LockKeys { keys } => ClientCallView::LockKeys { keys: texts(keys@) },
            ClientCall::Put { key, value } => ClientCallView::Put { key: key@, value: value@ },
            ClientCall::Insert { key, value } => ClientCallView::Insert {
                key: key@,
                value: value@,
            },
            ClientCall::Delete { key } => ClientCallView::Delete { key: key@ },
            ClientCall::BatchPut { pairs } => ClientCallView::BatchPut { pairs: pair_views(pairs@) },
            ClientCall::BatchDelete { keys } => ClientCallView::BatchDelete { keys: texts(keys@) },
            ClientCall::DeleteRange { range } => ClientCallView::DeleteRange { range: range@ },
            ClientCall::Commit => ClientCallView::Commit,
        }
    }
}

impl ClientCallView {
    /// Whether the operation changes what a transaction holds or ends it.
    pub open spec fn writes(self) -> bool {
        self is Put || self is Insert || self is Delete || self is BatchPut || self is BatchDelete
            || self is DeleteRange || self is Commit
    }
}

/// A command that is ready to be submitted.
#[derive(Clone, Debug, PartialEq, Eq)]
pub struct Request {
    /// The kind of session that the command runs against; none for a connect.
    pub receiver: Option<SessionKind>,
    /// The column family that a raw command addresses.
    pub cf: Option<ColumnFamily>,
    /// What to ask of the client.
    pub call: ClientCall,
    /// The position of the continuation among the call's arguments.
    pub callback: usize,
}

/// A command, as contracts see it.
pub struct RequestView {
    pub receiver: Option<SessionKind>,
    pub cf: Option<ColumnFamily>,
    pub call: ClientCallView,
    pub callback: usize,
}

impl View for Request {
    type V = RequestView;

    open spec fn view(&self) -> RequestView {
        RequestView { receiver: self.receiver, cf: self.cf, call: self.call@, callback: self.callback }
    }
}

impl RequestView {
    /// Whether the command must hold its session's lock while it runs.
    pub open spec fn exclusive(self) -> bool {
        self.receiver matches Some(kind) && kind.mutable()
    }
}

impl Request {
    /// Whether the command must hold its session's lock while it runs: so it
    /// is for a transaction and for a snapshot, and for no other command.
    pub fn is_exclusive(&self) -> (r: bool)
        ensures
            r == self@.exclusive(),
    {
        match self.receiver {
            Some(kind) => kind.is_mutable(),
            None => false,
        }
    }
}

/// The outcome of reading a call, as contracts see it.
pub open spec fn decoded(r: Result<Request, Throw>) -> Result<RequestView, Throw> {
    match r {
        Ok(request) => Ok(request@),
        Err(throw) => Err(throw),
    }
}

/// The column family that the string at position `i` names, or what the call
/// throws where it names none.
pub open spec fn column_family_at(call: Call, i: int) -> Result<ColumnFamily, Throw> {
    match column_family_named(call.args[i]->Text_0) {
        Some(cf) => Ok(cf),
        None => Err(Throw::ColumnFamily(i as usize)),
    }
}

/// The keys that the array at position `i` holds.
pub open spec fn keys_at(call: Call, i: int) -> Seq<Seq<char>> {
    call.args[i]->Array_0.map_values(|v: Value| v->Text_0)
}

/// The range between the strings at positions `start` and `end`, each taken
/// by its bytes, with the flags at the two positions after `flags`.
pub open spec fn range_at(call: Call, start: int, end: int, flags: int) -> BoundRangeView {
    range_of(
        Some(encode_utf8(call.args[start]->Text_0)),
        Some(encode_utf8(call.args[end]->Text_0)),
        call.args[flags]->Boolean_0,
        call.args[flags + 1]->Boolean_0,
    )
}

impl HostCall {
    /// The column family that the string at position `i` names.
    pub(crate) fn column_family(&self, i: usize) -> (r: Result<ColumnFamily, Throw>)
        requires
            i < self@.args.len(),
            self@.args[i as int] is Text,
        ensures
            r == column_family_at(self@, i as int),
    {
        let name = self.text(i);
        match ColumnFamily::named(name.as_str()) {
            Some(cf) => Ok(cf),
            None => Err(Throw::ColumnFamily(i)),
        }
    }

    /// The keys that the array at position `i` holds, where each item is a
    /// string.
    pub(crate) fn keys(&self, i: usize) -> (r: Result<Vec<String>, Throw>)
        requires
            i < self@.args.len(),
            self@.args[i as int] is Array,
        ensures
            all_text(self@.args[i as int]->Array_0) ==> r is Ok && texts(r->Ok_0@) == keys_at(
                self@,
                i as int,
            ),
            !all_text(self@.args[i as int]->Array_0) ==> r == Err::<Vec<String>, Throw>(
                Throw::Item(i),
            ),
    {
        let items = self.array(i);
        if is_key_array(items) {
            Ok(js_array_to_rust_keys(items))
        } else {
            Err(Throw::Item(i))
        }
    }

    /// The pairs that the array at position `i` holds, where each item that
    /// is an array starts with two strings.
    pub(crate) fn pairs(&self, i: usize) -> (r: Result<Vec<KvPair>, Throw>)
        requires
            i < self@.args.len(),
            self@.args[i as int] is Array,
        ensures
            well_paired(self@.args[i as int]->Array_0) ==> r is Ok && pair_views(r->Ok_0@)
                == pairs_in(self@.args[i as int]->Array_0),
            !well_paired(self@.args[i as int]->Array_0) ==> r == Err::<Vec<KvPair>, Throw>(
                Throw::Item(i),
            ),
    {
        let items = self.array(i);
        if is_pair_array(items) {
            Ok(js_array_to_rust_pairs(items))
        } else {
            Err(Throw::Item(i))
        }
    }

    /// The range between the strings at positions `start` and `end`, with the
    /// flags at the two positions after `flags`.
    pub(crate) fn range(&self, start: usize, end: usize, flags: usize) -> (r: BoundRange)
        requires
            start < self@.args.len(),
            end < self@.args.len(),
            flags + 1 < self@.args.len(),
            self@.args[start as int] is Text,
            self@.args[end as int] is Text,
            self@.args[flags as int] is Boolean,
            self@.args[flags + 1] is Boolean,
        ensures
            r@ == range_at(self@, start as int, end as int, flags as int),
    {
        let count = self.args.len();
        assert(self@.args.len() == count);
        let from = self.text(start).as_str().as_bytes_vec();
        let to = self.text(end).as_str().as_bytes_vec();
        to_bound_range(Some(from), Some(to), self.boolean(flags), self.boolean(flags + 1))
    }
}

} // verus!
