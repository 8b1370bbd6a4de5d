use tikv_node::command::{scan_limit, ClientCall, ColumnFamily, Request};
use tikv_node::host::{HostCall, HostType, HostValue, SessionKind, Throw};
use tikv_node::range::{Bound, BoundRange};
use tikv_node::raw::RawClient;
use tikv_node::utils::KvPair;

fn text(s: &str) -> HostValue {
    HostValue::Text(String::from(s))
}

fn raw_call(args: Vec<HostValue>) -> HostCall {
    HostCall { this: HostValue::Session(SessionKind::Raw), args }
}

fn raw_request(cf: ColumnFamily, call: ClientCall, callback: usize) -> Request {
    Request { receiver: Some(SessionKind::Raw), cf: Some(cf), call, callback }
}

#[test]
fn column_families_by_name() {
    assert_eq!(ColumnFamily::named("default"), Some(ColumnFamily::Default));
    assert_eq!(ColumnFamily::named("lock"), Some(ColumnFamily::Lock));
    assert_eq!(ColumnFamily::named("write"), Some(ColumnFamily::Write));
    assert_eq!(ColumnFamily::named("Default"), None);
    assert_eq!(ColumnFamily::named(""), None);
    assert_eq!(ColumnFamily::named("raft"), None);
}

#[test]
fn scan_limit_saturates() {
    assert_eq!(scan_limit(0), 0);
    assert_eq!(scan_limit(10), 10);
    assert_eq!(scan_limit(4_294_967_295), 4_294_967_295);
    assert_eq!(scan_limit(4_294_967_296), 4_294_967_295);
    assert_eq!(scan_limit(u64::MAX), u32::MAX);
}

#[test]
fn check_reports_the_first_fault() {
    let types = vec![HostType::Text, HostType::Number, HostType::Function];
    let ok = raw_call(vec![text("a"), HostValue::Number(1), HostValue::Function]);
    assert_eq!(ok.check(Some(SessionKind::Raw), &types), None);
    assert_eq!(ok.check(None, &types), None);
    assert_eq!(ok.check(Some(SessionKind::Transaction), &types), Some(Throw::Receiver));

    let two_faults = raw_call(vec![HostValue::Null, text("not a number")]);
    assert_eq!(two_faults.check(Some(SessionKind::Raw), &types), Some(Throw::ArgumentType(0)));

    let short = raw_call(vec![text("a"), HostValue::Number(1)]);
    assert_eq!(short.check(Some(SessionKind::Raw), &types), Some(Throw::MissingArgument(2)));

    let more = raw_call(vec![text("a"), HostValue::Number(1), HostValue::Function, text("extra")]);
    assert_eq!(more.check(Some(SessionKind::Raw), &types), None);
}

#[test]
fn raw_connect_needs_no_receiver() {
    let call = HostCall {
        this: HostValue::Undefined,
        args: vec![text("127.0.0.1:2379"), HostValue::Function],
    };
    assert_eq!(
        RawClient::connect(&call),
        Ok(Request {
            receiver: None,
            cf: None,
            call: ClientCall::Connect {
                kind: SessionKind::Raw,
                pd_endpoint: String::from("127.0.0.1:2379")
            },
            callback: 1,
        })
    );
    assert!(!RawClient::connect(&call).unwrap().is_exclusive());
}

#[test]
fn raw_connect_without_continuation_throws() {
    let call = HostCall { this: HostValue::Undefined, args: vec![text("127.0.0.1:2379")] };
    assert_eq!(RawClient::connect(&call), Err(Throw::MissingArgument(1)));
    let call = HostCall { this: HostValue::Undefined, args: vec![HostValue::Number(2379)] };
    assert_eq!(RawClient::connect(&call), Err(Throw::ArgumentType(0)));
}

#[test]
fn raw_put_reads_key_value_and_column_family() {
    let call = raw_call(vec![text("a"), text("1"), text("default"), HostValue::Function]);
    let expected = raw_request(
        ColumnFamily::Default,
        ClientCall::Put { key: String::from("a"), value: String::from("1") },
        3,
    );
    assert_eq!(RawClient::put(&call), Ok(expected));
    assert!(!RawClient::put(&call).unwrap().is_exclusive());
}

#[test]
fn raw_put_on_another_receiver_throws() {
    let args = || vec![text("a"), text("1"), text("default"), HostValue::Function];
    let call = HostCall { this: HostValue::Session(SessionKind::Transaction), args: args() };
    assert_eq!(RawClient::put(&call), Err(Throw::Receiver));
    let call = HostCall { this: HostValue::Undefined, args: args() };
    assert_eq!(RawClient::put(&call), Err(Throw::Receiver));
}

#[test]
fn raw_put_with_faulty_arguments_throws() {
    let call = raw_call(vec![text("a"), HostValue::Number(1), text("default"), HostValue::Function]);
    assert_eq!(RawClient::put(&call), Err(Throw::ArgumentType(1)));
    let call = raw_call(vec![text("a"), text("1"), text("default")]);
    assert_eq!(RawClient::put(&call), Err(Throw::MissingArgument(3)));
    let call = raw_call(vec![text("a"), text("1"), text("default"), text("not a function")]);
    assert_eq!(RawClient::put(&call), Err(Throw::ArgumentType(3)));
    let call = raw_call(vec![]);
    assert_eq!(RawClient::put(&call), Err(Throw::MissingArgument(0)));
}

#[test]
fn raw_put_with_unknown_column_family_throws() {
    let call = raw_call(vec![text("a"), text("1"), text("raft"), HostValue::Function]);
    assert_eq!(RawClient::put(&call), Err(Throw::ColumnFamily(2)));
    // A faulty argument is reported before the column family is looked at.
    let call = raw_call(vec![text("a"), text("1"), text("raft")]);
    assert_eq!(RawClient::put(&call), Err(Throw::MissingArgument(3)));
}

#[test]
fn raw_get_and_delete_read_one_key() {
    let call = raw_call(vec![text("missing-key"), text("write"), HostValue::Function]);
    assert_eq!(
        RawClient::get(&call),
        Ok(raw_request(ColumnFamily::Write, ClientCall::Get { key: String::from("missing-key") }, 2))
    );
    assert_eq!(
        RawClient::delete(&call),
        Ok(raw_request(
            ColumnFamily::Write,
            ClientCall::Delete { key: String::from("missing-key") },
            2
        ))
    );
    let call = raw_call(vec![text("k"), text("nowhere"), HostValue::Function]);
    assert_eq!(RawClient::get(&call), Err(Throw::ColumnFamily(1)));
    assert_eq!(RawClient::delete(&call), Err(Throw::ColumnFamily(1)));
}

#[test]
fn raw_batch_get_reads_the_keys_in_order() {
    let call = raw_call(vec![
        HostValue::Array(vec![text("k2"), text("k1")]),
        text("lock"),
        HostValue::Function,
    ]);
    let keys = vec![String::from("k2"), String::from("k1")];
    assert_eq!(
        RawClient::batch_get(&call),
        Ok(raw_request(ColumnFamily::Lock, ClientCall::BatchGet { keys: keys.clone() }, 2))
    );
    assert_eq!(
        RawClient::batch_delete(&call),
        Ok(raw_request(ColumnFamily::Lock, ClientCall::BatchDelete { keys }, 2))
    );
}

#[test]
fn raw_batch_get_with_an_item_that_is_no_string_throws() {
    let call = raw_call(vec![
        HostValue::Array(vec![text("k2"), HostValue::Number(1)]),
        text("lock"),
        HostValue::Function,
    ]);
    assert_eq!(RawClient::batch_get(&call), Err(Throw::Item(0)));
    assert_eq!(RawClient::batch_delete(&call), Err(Throw::Item(0)));
    // The items are looked at before the column family.
    let call = raw_call(vec![
        HostValue::Array(vec![HostValue::Null]),
        text("nowhere"),
        HostValue::Function,
    ]);
    assert_eq!(RawClient::batch_get(&call), Err(Throw::Item(0)));
    let call = raw_call(vec![text("not an array"), text("lock"), HostValue::Function]);
    assert_eq!(RawClient::batch_get(&call), Err(Throw::ArgumentType(0)));
}

#[test]
fn raw_batch_put_reads_the_pairs() {
    let call = raw_call(vec![
        HostValue::Array(vec![
            HostValue::Array(vec![text("k1"), text("v1")]),
            HostValue::Boolean(true),
            HostValue::Array(vec![text("k2"), text("v2")]),
        ]),
        text("default"),
        HostValue::Function,
    ]);
    let pairs = vec![
        KvPair(b"k1".to_vec(), b"v1".to_vec()),
        KvPair(b"k2".to_vec(), b"v2".to_vec()),
    ];
    assert_eq!(
        RawClient::batch_put(&call),
        Ok(raw_request(ColumnFamily::Default, ClientCall::BatchPut { pairs }, 2))
    );
    let call = raw_call(vec![
        HostValue::Array(vec![HostValue::Array(vec![text("k1")])]),
        text("default"),
        HostValue::Function,
    ]);
    assert_eq!(RawClient::batch_put(&call), Err(Throw::Item(0)));
}

#[test]
fn raw_scan_builds_its_range_from_the_flags() {
    let call = raw_call(vec![
        text("a"),
        text("c"),
        HostValue::Number(10),
        HostValue::Boolean(true),
        HostValue::Boolean(false),
        text("default"),
        HostValue::Function,
    ]);
    let range = BoundRange { from: Bound::Included(b"a".to_vec()), to: Bound::Excluded(b"c".to_vec()) };
    assert_eq!(
        RawClient::scan(&call),
        Ok(raw_request(ColumnFamily::Default, ClientCall::Scan { range: range.clone(), limit: 10 }, 6))
    );
    assert_eq!(
        RawClient::scan_keys(&call),
        Ok(raw_request(ColumnFamily::Default, ClientCall::ScanKeys { range, limit: 10 }, 6))
    );
}

#[test]
fn raw_scan_takes_text_endpoints_by_their_bytes_and_caps_the_limit() {
    let call = raw_call(vec![
        text("\u{e9}"),
        text(""),
        HostValue::Number(1 << 40),
        HostValue::Boolean(false),
        HostValue::Boolean(true),
        text("write"),
        HostValue::Function,
    ]);
    let range = BoundRange { from: Bound::Excluded(vec![0xc3, 0xa9]), to: Bound::Included(vec![]) };
    assert_eq!(
        RawClient::scan(&call),
        Ok(raw_request(ColumnFamily::Write, ClientCall::Scan { range, limit: u32::MAX }, 6))
    );
}

#[test]
fn raw_scan_with_faulty_arguments_throws() {
    let call = raw_call(vec![
        text("a"),
        text("c"),
        text("10"),
        HostValue::Boolean(true),
        HostValue::Boolean(false),
        text("default"),
        HostValue::Function,
    ]);
    assert_eq!(RawClient::scan(&call), Err(Throw::ArgumentType(2)));
    assert_eq!(RawClient::scan_keys(&call), Err(Throw::ArgumentType(2)));
    let call = raw_call(vec![
        text("a"),
        text("c"),
        HostValue::Number(10),
        HostValue::Boolean(true),
        HostValue::Null,
        text("default"),
        HostValue::Function,
    ]);
    assert_eq!(RawClient::scan(&call), Err(Throw::ArgumentType(4)));
}

#[test]
fn raw_delete_range_reads_its_range() {
    let call = raw_call(vec![
        text("a"),
        text("z"),
        HostValue::Boolean(false),
        HostValue::Boolean(false),
        text("lock"),
        HostValue::Function,
    ]);
    let range = BoundRange { from: Bound::Excluded(b"a".to_vec()), to: Bound::Excluded(b"z".to_vec()) };
    assert_eq!(
        RawClient::delete_range(&call),
        Ok(raw_request(ColumnFamily::Lock, ClientCall::DeleteRange { range }, 5))
    );
    let call = raw_call(vec![
        text("a"),
        text("z"),
        HostValue::Boolean(false),
        HostValue::Boolean(false),
        text("Lock"),
        HostValue::Function,
    ]);
    assert_eq!(RawClient::delete_range(&call), Err(Throw::ColumnFamily(4)));
}

#[test]
fn values_are_of_one_type_at_most() {
    let samples = vec![
        (text("t"), Some(HostType::Text)),
        (HostValue::Number(1), Some(HostType::Number)),
        (HostValue::Boolean(false), Some(HostType::Boolean)),
        (HostValue::Array(vec![]), Some(HostType::Array)),
        (HostValue::Function, Some(HostType::Function)),
        (HostValue::Undefined, None),
        (HostValue::Null, None),
        (HostValue::Other, None),
        (HostValue::Bytes(vec![1]), None),
        (HostValue::Session(SessionKind::Raw), None),
    ];
    let types =
        [HostType::Text, HostType::Number, HostType::Boolean, HostType::Array, HostType::Function];
    for (value, own) in &samples {
        for t in types {
            assert_eq!(value.is_of(t), *own == Some(t));
        }
    }
    assert!(HostValue::Session(SessionKind::Raw).is_session(SessionKind::Raw));
    assert!(!HostValue::Session(SessionKind::Raw).is_session(SessionKind::Snapshot));
    assert!(!HostValue::Other.is_session(SessionKind::Raw));
}
