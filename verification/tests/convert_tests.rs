use tikv_node::error::{init, ClassifiedError, ClientErrors, ExternalError, KeyError};
use tikv_node::host::{ErrorClass, HostCall, HostValue, SessionKind};
use tikv_node::utils::{
    bytes_to_js_string, is_key_array, is_pair_array, js_array_to_rust_keys,
    js_array_to_rust_pairs, rust_keys_to_js_array, rust_pairs_to_js_array, send_classified,
    send_result, KvPair,
    Timestamp, ToJS,
};

fn text(s: &str) -> HostValue {
    HostValue::Text(String::from(s))
}

fn bytes(s: &str) -> Vec<u8> {
    s.as_bytes().to_vec()
}

fn registry() -> ClientErrors {
    let mut errors = ClientErrors::new();
    let call = HostCall {
        this: HostValue::Undefined,
        args: vec![
            HostValue::Function,
            HostValue::Function,
            HostValue::Function,
            HostValue::Function,
            HostValue::Function,
        ],
    };
    assert_eq!(init(&mut errors, &call), Ok(()));
    errors
}

#[test]
fn valid_text_becomes_a_host_string() {
    assert_eq!(bytes_to_js_string(bytes("1")), text("1"));
    assert_eq!(bytes_to_js_string(bytes("")), text(""));
    assert_eq!(bytes_to_js_string("h\u{e9}llo \u{4e16}\u{754c}".as_bytes().to_vec()), text("h\u{e9}llo \u{4e16}\u{754c}"));
}

#[test]
fn bytes_that_are_no_text_stay_bytes() {
    assert_eq!(bytes_to_js_string(vec![0xff, 0xfe]), HostValue::Bytes(vec![0xff, 0xfe]));
    assert_eq!(bytes_to_js_string(vec![b'a', 0xc3]), HostValue::Bytes(vec![b'a', 0xc3]));
    assert_eq!(bytes_to_js_string(vec![0xed, 0xa0, 0x80]), HostValue::Bytes(vec![0xed, 0xa0, 0x80]));
}

#[test]
fn stored_text_comes_back_unchanged() {
    for stored in ["1", "", "value with spaces", "\u{1f600} emoji", "a\0b"] {
        let pair = KvPair::new(String::from("key"), String::from(stored));
        assert_eq!(pair.0, bytes("key"));
        assert_eq!(pair.1, stored.as_bytes().to_vec());
        assert_eq!(bytes_to_js_string(pair.1), text(stored));
    }
}

#[test]
fn unit_becomes_undefined() {
    assert_eq!(().to_js_value(), HostValue::Undefined);
}

#[test]
fn boolean_becomes_boolean() {
    assert_eq!(true.to_js_value(), HostValue::Boolean(true));
    assert_eq!(false.to_js_value(), HostValue::Boolean(false));
}

#[test]
fn absent_value_becomes_undefined() {
    let absent: Option<Vec<u8>> = None;
    assert_eq!(absent.to_js_value(), HostValue::Undefined);
    assert_eq!(Some(bytes("1")).to_js_value(), text("1"));
}

#[test]
fn keys_keep_their_order() {
    let keys = vec![bytes("b"), bytes("a"), bytes("c"), bytes("a")];
    assert_eq!(
        rust_keys_to_js_array(keys.clone()),
        HostValue::Array(vec![text("b"), text("a"), text("c"), text("a")])
    );
    assert_eq!(keys.to_js_value(), HostValue::Array(vec![text("b"), text("a"), text("c"), text("a")]));
    assert_eq!(rust_keys_to_js_array(vec![]), HostValue::Array(vec![]));
}

#[test]
fn pairs_become_two_element_arrays_in_order() {
    let pairs = vec![
        KvPair(bytes("k2"), bytes("v2")),
        KvPair(bytes("k1"), bytes("v1")),
        KvPair(bytes("raw"), vec![0x80]),
    ];
    let expected = HostValue::Array(vec![
        HostValue::Array(vec![text("k2"), text("v2")]),
        HostValue::Array(vec![text("k1"), text("v1")]),
        HostValue::Array(vec![text("raw"), HostValue::Bytes(vec![0x80])]),
    ]);
    assert_eq!(rust_pairs_to_js_array(pairs.clone()), expected);
    assert_eq!(pairs.to_js_value(), expected);
    assert_eq!(rust_pairs_to_js_array(vec![]), HostValue::Array(vec![]));
}

#[test]
fn new_session_becomes_a_handle_of_its_kind() {
    assert_eq!(SessionKind::Raw.to_js_value(), HostValue::Session(SessionKind::Raw));
    assert_eq!(
        SessionKind::Transaction.to_js_value(),
        HostValue::Session(SessionKind::Transaction)
    );
    assert_eq!(SessionKind::Snapshot.to_js_value(), HostValue::Session(SessionKind::Snapshot));
    assert_eq!(
        SessionKind::TransactionClient.to_js_value(),
        HostValue::Session(SessionKind::TransactionClient)
    );
}

#[test]
fn timestamp_becomes_its_version_number() {
    let version: u64 = (1_700_000_000_000 << 18) + 5;
    assert_eq!(Timestamp { version }.to_js_value(), HostValue::Number(445_644_800_000_000_005));
    assert_eq!(Timestamp { version: 0 }.to_js_value(), HostValue::Number(0));
}

#[test]
fn mutable_sessions_are_transaction_and_snapshot() {
    assert!(SessionKind::Transaction.is_mutable());
    assert!(SessionKind::Snapshot.is_mutable());
    assert!(!SessionKind::Raw.is_mutable());
    assert!(!SessionKind::TransactionClient.is_mutable());
}

#[test]
fn host_strings_are_read_as_keys() {
    let array = vec![text("k1"), text("k3"), text("k2")];
    assert!(is_key_array(&array));
    assert_eq!(
        js_array_to_rust_keys(&array),
        vec![String::from("k1"), String::from("k3"), String::from("k2")]
    );
    assert_eq!(js_array_to_rust_keys(&vec![]), Vec::<String>::new());
}

#[test]
fn array_with_another_item_is_no_key_array() {
    assert!(!is_key_array(&vec![text("k1"), HostValue::Number(2)]));
    assert!(!is_key_array(&vec![HostValue::Array(vec![text("k1")])]));
    assert!(is_key_array(&vec![]));
}

#[test]
fn host_pairs_are_read_in_order_and_other_items_passed_over() {
    let array = vec![
        HostValue::Array(vec![text("k1"), text("v1")]),
        HostValue::Number(7),
        HostValue::Array(vec![text("k2"), text("v2"), text("ignored")]),
        text("stray"),
    ];
    assert!(is_pair_array(&array));
    assert_eq!(
        js_array_to_rust_pairs(&array),
        vec![KvPair(bytes("k1"), bytes("v1")), KvPair(bytes("k2"), bytes("v2"))]
    );
    assert_eq!(js_array_to_rust_pairs(&vec![]), Vec::<KvPair>::new());
}

#[test]
fn short_or_mistyped_pairs_make_no_pair_array() {
    assert!(!is_pair_array(&vec![HostValue::Array(vec![text("only key")])]));
    assert!(!is_pair_array(&vec![HostValue::Array(vec![])]));
    assert!(!is_pair_array(&vec![HostValue::Array(vec![text("k"), HostValue::Number(1)])]));
    assert!(!is_pair_array(&vec![HostValue::Array(vec![HostValue::Null, text("v")])]));
    assert!(is_pair_array(&vec![HostValue::Null]));
}

#[test]
fn success_is_delivered_as_null_and_value() {
    let errors = registry();
    let found: Result<Option<Vec<u8>>, ExternalError> = Ok(Some(bytes("1")));
    assert_eq!(send_result(&errors, found), vec![HostValue::Null, text("1")]);
}

#[test]
fn missing_key_is_a_success_with_the_absent_sentinel() {
    let errors = registry();
    let missing: Result<Option<Vec<u8>>, ExternalError> = Ok(None);
    assert_eq!(send_result(&errors, missing), vec![HostValue::Null, HostValue::Undefined]);
}

#[test]
fn unit_success_is_delivered_as_null_and_undefined() {
    let errors = registry();
    let done: Result<(), ExternalError> = Ok(());
    assert_eq!(send_result(&errors, done), vec![HostValue::Null, HostValue::Undefined]);
}

#[test]
fn failure_is_delivered_as_error_and_undefined() {
    let errors = registry();
    let failed: Result<(), ExternalError> =
        Err(ExternalError::UndeterminedError(String::from("timeout")));
    assert_eq!(
        send_result(&errors, failed),
        vec![
            HostValue::Error { class: ErrorClass::Undetermined, args: vec![String::from("timeout")] },
            HostValue::Undefined
        ]
    );
}

#[test]
fn commit_after_commit_is_delivered_as_its_own_class() {
    let errors = registry();
    let failed: Result<(), ExternalError> = Err(ExternalError::OperationAfterCommitError);
    assert_eq!(
        send_result(&errors, failed),
        vec![
            HostValue::Error { class: ErrorClass::OperationAfterCommit, args: vec![] },
            HostValue::Undefined
        ]
    );
}

#[test]
fn key_error_is_delivered_by_its_first_reason() {
    let errors = registry();
    let failed: Result<bool, ExternalError> = Err(ExternalError::KeyError(KeyError {
        conflict: None,
        already_exist: Some(String::from("AlreadyExist { key: [107] }")),
        deadlock: Some(String::from("Deadlock {}")),
        detail: String::from("whole"),
    }));
    assert_eq!(
        send_result(&errors, failed),
        vec![
            HostValue::Error {
                class: ErrorClass::AlreadyExist,
                args: vec![String::from("AlreadyExist { key: [107] }")]
            },
            HostValue::Undefined
        ]
    );
}

#[test]
fn generic_failure_needs_no_registered_class() {
    let errors = ClientErrors::new();
    let failed: Result<Vec<KvPair>, ExternalError> =
        Err(ExternalError::Other(String::from("Region error")));
    assert_eq!(
        send_result(&errors, failed),
        vec![
            HostValue::Error { class: ErrorClass::Generic, args: vec![String::from("Region error")] },
            HostValue::Undefined
        ]
    );
    let keyed: Result<Vec<KvPair>, ExternalError> = Err(ExternalError::KeyError(KeyError {
        conflict: None,
        already_exist: None,
        deadlock: None,
        detail: String::from("KeyError { abort: \"x\" }"),
    }));
    assert_eq!(
        send_result(&errors, keyed),
        vec![
            HostValue::Error {
                class: ErrorClass::Generic,
                args: vec![String::from("KeyError: KeyError { abort: \"x\" }")]
            },
            HostValue::Undefined
        ]
    );
}

#[test]
fn every_outcome_fills_exactly_one_slot() {
    let errors = registry();
    let outcomes: Vec<Result<bool, ExternalError>> = vec![
        Ok(true),
        Err(ExternalError::OperationAfterCommitError),
        Err(ExternalError::Other(String::from("m"))),
    ];
    for outcome in outcomes {
        let args = send_result(&errors, outcome);
        assert_eq!(args.len(), 2);
        let has_error = matches!(args[0], HostValue::Error { .. });
        let has_value = args[1] != HostValue::Undefined;
        assert!(has_error != has_value);
        assert!(has_error || args[0] == HostValue::Null);
    }
}

#[test]
fn classified_outcomes_are_delivered_alike() {
    let errors = registry();
    let found: Result<bool, ClassifiedError> = Ok(true);
    assert_eq!(send_classified(&errors, found), vec![HostValue::Null, HostValue::Boolean(true)]);
    let failed: Result<bool, ClassifiedError> =
        Err(ClassifiedError::Deadlock(String::from("cycle")));
    assert_eq!(failed.as_ref().unwrap_err().class(), ErrorClass::Deadlock);
    assert_eq!(
        send_classified(&errors, failed),
        vec![
            HostValue::Error { class: ErrorClass::Deadlock, args: vec![String::from("cycle")] },
            HostValue::Undefined
        ]
    );
}
