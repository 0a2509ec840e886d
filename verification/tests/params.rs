use corepc_client::client_async::json::{JsonMember, JsonValue};
use corepc_client::client_async::v31::blockchain::{GetChainTxStatsOptions, ImportMempoolOptions};
use corepc_client::client_async::v31::wallet::{
    create_wallet_with_params, get_hd_keys_with_params, CreateWalletOptions, GetHdKeysOptions,
    LockUnspentOptions, LockUnspentTransactions,
};
use corepc_client::client_async::v31::blockchain::get_block_verbose_2_params;

fn member(key: &str, value: JsonValue) -> JsonMember {
    JsonMember { key: key.to_owned(), value }
}

#[test]
fn positional_options_fill_skipped_slots_with_null() {
    let opts = CreateWalletOptions { blank: Some(true), ..Default::default() };
    let params = opts.to_params();
    assert_eq!(params.len(), 7);
    assert_eq!(params[0], JsonValue::Null, "skipped earlier arg must be null, not absent");
    assert_eq!(params[1], JsonValue::Bool(true), "the later arg we set must land in its own slot");
    assert!(params[2..].iter().all(|p| *p == JsonValue::Null));
}

#[test]
fn positional_options_keep_their_values_in_order() {
    let opts = GetChainTxStatsOptions { n_blocks: Some(144), block_hash: Some("00ab".into()) };
    assert_eq!(opts.to_params(), vec![JsonValue::Int(144), JsonValue::Str("00ab".into())]);
    let unset = GetChainTxStatsOptions::default();
    assert_eq!(unset.to_params(), vec![JsonValue::Null, JsonValue::Null]);
}

#[test]
fn object_options_omit_unset_fields() {
    let opts = GetHdKeysOptions { private: Some(true), ..Default::default() };
    assert_eq!(opts.to_json(), JsonValue::Object(vec![member("private", JsonValue::Bool(true))]));

    let opts = ImportMempoolOptions::default();
    assert_eq!(opts.to_json(), JsonValue::Object(vec![]));

    let opts = ImportMempoolOptions {
        apply_fee_delta_priority: Some(false),
        apply_unbroadcast_set: None,
        use_current_time: Some(true),
    };
    assert_eq!(
        opts.to_json(),
        JsonValue::Object(vec![
            member("apply_fee_delta_priority", JsonValue::Bool(false)),
            member("use_current_time", JsonValue::Bool(true)),
        ])
    );
}

#[test]
fn nested_objects_encode_as_arrays_of_objects() {
    let opts = LockUnspentOptions {
        transactions: Some(vec![
            LockUnspentTransactions { txid: "aa".into(), vout: 0 },
            LockUnspentTransactions { txid: "bb".into(), vout: 3 },
        ]),
        persistent: None,
    };
    let tx = |txid: &str, vout: i64| {
        JsonValue::Object(vec![member("txid", JsonValue::Str(txid.into())), member("vout", JsonValue::Int(vout))])
    };
    assert_eq!(
        opts.to_params(),
        vec![JsonValue::Array(vec![tx("aa", 0), tx("bb", 3)]), JsonValue::Null]
    );
}

#[test]
fn with_overload_fills_skipped_positional_args_with_null() {
    // Set only `blank`, and the gap before it must be a literal `null`.
    let opts = CreateWalletOptions { blank: Some(true), ..Default::default() };
    let arr = create_wallet_with_params("w".to_owned(), opts);

    assert_eq!(arr[0], JsonValue::Str("w".into()));
    assert_eq!(arr[1], JsonValue::Null, "skipped earlier arg must be null, not absent");
    assert_eq!(arr[2], JsonValue::Bool(true), "the later arg we set must land in its own slot");
    assert!(arr[3..].iter().all(|v| *v == JsonValue::Null), "every other unset optional stays null: {arr:?}");
}

#[test]
fn object_mode_options_form_one_trailing_argument() {
    let opts = GetHdKeysOptions { active_only: Some(true), private: None };
    let arr = get_hd_keys_with_params(opts);
    assert_eq!(arr, vec![JsonValue::Object(vec![member("active_only", JsonValue::Bool(true))])]);
}

#[test]
fn verbosity_is_encoded_in_its_own_slot() {
    let arr = get_block_verbose_2_params("00ff".to_owned());
    assert_eq!(arr, vec![JsonValue::Str("00ff".into()), JsonValue::Int(2)]);
}
