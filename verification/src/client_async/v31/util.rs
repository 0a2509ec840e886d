//! Options of the utility RPC methods.

use vstd::prelude::*;

use crate::client_async::json::{JsonValue, JsonMember, opt_bool, opt_int, opt_str, is_str_array, is_int_array, count, json_str_array, json_int_array, json_opt_bool, json_opt_int, json_opt_str, member};

verus! {

/// Optional parameters for the `createmultisig` JSON-RPC method (consumed by `Client::create_multisig_with`).
#[derive(Clone, Debug, Default)]
pub struct CreateMultisigOptions {
    /// The address type to use. Options are "legacy", "p2sh-segwit", and "bech32".
    pub address_type: Option<String>,
}

impl CreateMultisigOptions {
    /// The positional arguments these options fill, after the method's
    /// required arguments: one slot per option, in order, `null` when unset.
    pub open spec fn params_spec(self, r: Seq<JsonValue>) -> bool {
        &&& r.len() == 1
        &&& r[0] == opt_str(self.address_type)
    }

    /// The positional arguments these options fill.
    pub fn to_params(self) -> (r: Vec<JsonValue>)
        ensures
            self.params_spec(r@),
    {
        let mut r: Vec<JsonValue> = Vec::new();
        let v0 = json_opt_str(self.address_type);
        r.push(v0);
        r
    }
}

/// Optional parameters for the `estimatesmartfee` JSON-RPC method (consumed by `Client::estimate_smart_fee_with`).
#[derive(Clone, Debug, Default)]
pub struct EstimateSmartFeeOptions {
    /// The fee estimate mode.
    /// unset, economical, conservative
    /// unset means no mode set (default mode will be used).
    /// economical estimates use a shorter time horizon, making them more
    /// responsive to short-term drops in the prevailing fee market. This mode
    /// potentially returns a lower fee rate estimate.
    /// conservative estimates use a longer time horizon, making them
    /// less responsive to short-term drops in the prevailing fee market. This mode
    /// potentially returns a higher fee rate estimate.
    pub estimate_mode: Option<String>,
}

impl EstimateSmartFeeOptions {
    /// The positional arguments these options fill, after the method's
    /// required arguments: one slot per option, in order, `null` when unset.
    pub open spec fn params_spec(self, r: Seq<JsonValue>) -> bool {
        &&& r.len() == 1
        &&& r[0] == opt_str(self.estimate_mode)
    }

    /// The positional arguments these options fill.
    pub fn to_params(self) -> (r: Vec<JsonValue>)
        ensures
            self.params_spec(r@),
    {
        let mut r: Vec<JsonValue> = Vec::new();
        let v0 = json_opt_str(self.estimate_mode);
        r.push(v0);
        r
    }
}

/// Optional parameters for the `getindexinfo` JSON-RPC method (consumed by `Client::get_index_info_with`).
#[derive(Clone, Debug, Default)]
pub struct GetIndexInfoOptions {
    /// Filter results for an index with a specific name.
    pub index_name: Option<String>,
}

impl GetIndexInfoOptions {
    /// The positional arguments these options fill, after the method's
    /// required arguments: one slot per option, in order, `null` when unset.
    pub open spec fn params_spec(self, r: Seq<JsonValue>) -> bool {
        &&& r.len() == 1
        &&& r[0] == opt_str(self.index_name)
    }

    /// The positional arguments these options fill.
    pub fn to_params(self) -> (r: Vec<JsonValue>)
        ensures
            self.params_spec(r@),
    {
        let mut r: Vec<JsonValue> = Vec::new();
        let v0 = json_opt_str(self.index_name);
        r.push(v0);
        r
    }
}

/// `createmultisig` with required arguments only: its positional parameters.
pub open spec fn create_multisig_params_spec(n_required: i64, keys: Vec<String>, r: Seq<JsonValue>) -> bool {
    &&& r.len() == 2
    &&& r[0] == JsonValue::Int(n_required)
    &&& is_str_array(r[1], keys@)
}

/// `createmultisig` with required arguments only: its positional parameters.
pub fn create_multisig_params(n_required: i64, keys: Vec<String>) -> (r: Vec<JsonValue>)
    ensures
        create_multisig_params_spec(n_required, keys, r@),
{
    let mut r: Vec<JsonValue> = Vec::new();
    let v0 = JsonValue::Int(n_required);
    r.push(v0);
    let v1 = json_str_array(keys);
    r.push(v1);
    r
}

/// `createmultisig` with all optional arguments via [`CreateMultisigOptions`]: its positional parameters.
pub open spec fn create_multisig_with_params_spec(n_required: i64, keys: Vec<String>, opts: CreateMultisigOptions, r: Seq<JsonValue>) -> bool {
    &&& r.len() == 3
    &&& r[0] == JsonValue::Int(n_required)
    &&& is_str_array(r[1], keys@)
    &&& opts.params_spec(r.subrange(2, 3))
}

/// `createmultisig` with all optional arguments via [`CreateMultisigOptions`]: its positional parameters.
pub fn create_multisig_with_params(n_required: i64, keys: Vec<String>, opts: CreateMultisigOptions) -> (r: Vec<JsonValue>)
    ensures
        create_multisig_with_params_spec(n_required, keys, opts, r@),
{
    let mut r: Vec<JsonValue> = Vec::new();
    let v0 = JsonValue::Int(n_required);
    r.push(v0);
    let v1 = json_str_array(keys);
    r.push(v1);
    let mut tail = opts.to_params();
    r.append(&mut tail);
    r
}

/// `deriveaddresses` with required arguments only: its positional parameters.
pub open spec fn derive_addresses_params_spec(descriptor: String, r: Seq<JsonValue>) -> bool {
    &&& r.len() == 1
    &&& r[0] == JsonValue::Str(descriptor)
}

/// `deriveaddresses` with required arguments only: its positional parameters.
pub fn derive_addresses_params(descriptor: String) -> (r: Vec<JsonValue>)
    ensures
        derive_addresses_params_spec(descriptor, r@),
{
    let mut r: Vec<JsonValue> = Vec::new();
    let v0 = JsonValue::Str(descriptor);
    r.push(v0);
    r
}

/// `estimatesmartfee` with required arguments only: its positional parameters.
pub open spec fn estimate_smart_fee_params_spec(conf_target: i64, r: Seq<JsonValue>) -> bool {
    &&& r.len() == 1
    &&& r[0] == JsonValue::Int(conf_target)
}

/// `estimatesmartfee` with required arguments only: its positional parameters.
pub fn estimate_smart_fee_params(conf_target: i64) -> (r: Vec<JsonValue>)
    ensures
        estimate_smart_fee_params_spec(conf_target, r@),
{
    let mut r: Vec<JsonValue> = Vec::new();
    let v0 = JsonValue::Int(conf_target);
    r.push(v0);
    r
}

/// `estimatesmartfee` with all optional arguments via [`EstimateSmartFeeOptions`]: its positional parameters.
pub open spec fn estimate_smart_fee_with_params_spec(conf_target: i64, opts: EstimateSmartFeeOptions, r: Seq<JsonValue>) -> bool {
    &&& r.len() == 2
    &&& r[0] == JsonValue::Int(conf_target)
    &&& opts.params_spec(r.subrange(1, 2))
}

/// `estimatesmartfee` with all optional arguments via [`EstimateSmartFeeOptions`]: its positional parameters.
pub fn estimate_smart_fee_with_params(conf_target: i64, opts: EstimateSmartFeeOptions) -> (r: Vec<JsonValue>)
    ensures
        estimate_smart_fee_with_params_spec(conf_target, opts, r@),
{
    let mut r: Vec<JsonValue> = Vec::new();
    let v0 = JsonValue::Int(conf_target);
    r.push(v0);
    let mut tail = opts.to_params();
    r.append(&mut tail);
    r
}

/// `getdescriptorinfo` with required arguments only: its positional parameters.
pub open spec fn get_descriptor_info_params_spec(descriptor: String, r: Seq<JsonValue>) -> bool {
    &&& r.len() == 1
    &&& r[0] == JsonValue::Str(descriptor)
}

/// `getdescriptorinfo` with required arguments only: its positional parameters.
pub fn get_descriptor_info_params(descriptor: String) -> (r: Vec<JsonValue>)
    ensures
        get_descriptor_info_params_spec(descriptor, r@),
{
    let mut r: Vec<JsonValue> = Vec::new();
    let v0 = JsonValue::Str(descriptor);
    r.push(v0);
    r
}

/// `getindexinfo` with required arguments only: its positional parameters.
pub open spec fn get_index_info_params_spec(r: Seq<JsonValue>) -> bool {
    &&& r.len() == 0
}

/// `getindexinfo` with required arguments only: its positional parameters.
pub fn get_index_info_params() -> (r: Vec<JsonValue>)
    ensures
        get_index_info_params_spec(r@),
{
    let mut r: Vec<JsonValue> = Vec::new();
    r
}

/// `getindexinfo` with all optional arguments via [`GetIndexInfoOptions`]: its positional parameters.
pub open spec fn get_index_info_with_params_spec(opts: GetIndexInfoOptions, r: Seq<JsonValue>) -> bool {
    &&& r.len() == 1
    &&& opts.params_spec(r.subrange(0, 1))
}

/// `getindexinfo` with all optional arguments via [`GetIndexInfoOptions`]: its positional parameters.
pub fn get_index_info_with_params(opts: GetIndexInfoOptions) -> (r: Vec<JsonValue>)
    ensures
        get_index_info_with_params_spec(opts, r@),
{
    let mut r: Vec<JsonValue> = Vec::new();
    let mut tail = opts.to_params();
    r.append(&mut tail);
    r
}

/// `signmessagewithprivkey` with required arguments only: its positional parameters.
pub open spec fn sign_message_with_priv_key_params_spec(priv_key: String, message: String, r: Seq<JsonValue>) -> bool {
    &&& r.len() == 2
    &&& r[0] == JsonValue::Str(priv_key)
    &&& r[1] == JsonValue::Str(message)
}

/// `signmessagewithprivkey` with required arguments only: its positional parameters.
pub fn sign_message_with_priv_key_params(priv_key: String, message: String) -> (r: Vec<JsonValue>)
    ensures
        sign_message_with_priv_key_params_spec(priv_key, message, r@),
{
    let mut r: Vec<JsonValue> = Vec::new();
    let v0 = JsonValue::Str(priv_key);
    r.push(v0);
    let v1 = JsonValue::Str(message);
    r.push(v1);
    r
}

/// `validateaddress` with required arguments only: its positional parameters.
pub open spec fn validate_address_params_spec(address: String, r: Seq<JsonValue>) -> bool {
    &&& r.len() == 1
    &&& r[0] == JsonValue::Str(address)
}

/// `validateaddress` with required arguments only: its positional parameters.
pub fn validate_address_params(address: String) -> (r: Vec<JsonValue>)
    ensures
        validate_address_params_spec(address, r@),
{
    let mut r: Vec<JsonValue> = Vec::new();
    let v0 = JsonValue::Str(address);
    r.push(v0);
    r
}

/// `verifymessage` with required arguments only: its positional parameters.
pub open spec fn verify_message_params_spec(address: String, signature: String, message: String, r: Seq<JsonValue>) -> bool {
    &&& r.len() == 3
    &&& r[0] == JsonValue::Str(address)
    &&& r[1] == JsonValue::Str(signature)
    &&& r[2] == JsonValue::Str(message)
}

/// `verifymessage` with required arguments only: its positional parameters.
pub fn verify_message_params(address: String, signature: String, message: String) -> (r: Vec<JsonValue>)
    ensures
        verify_message_params_spec(address, signature, message, r@),
{
    let mut r: Vec<JsonValue> = Vec::new();
    let v0 = JsonValue::Str(address);
    r.push(v0);
    let v1 = JsonValue::Str(signature);
    r.push(v1);
    let v2 = JsonValue::Str(message);
    r.push(v2);
    r
}

/// The methods that take no arguments send no parameters at all.
pub proof fn lemma_argumentless_requests_send_nothing()
    ensures
        forall|r: Seq<JsonValue>| #[trigger] get_index_info_params_spec(r) ==> r.len() == 0,
{
}

/// `createmultisig` sends, in Core's argument order: `n_required`, `keys`.
pub proof fn lemma_create_multisig_request(n_required: i64, keys: Vec<String>, r: Seq<JsonValue>)
    requires
        create_multisig_params_spec(n_required, keys, r),
    ensures
        r.len() == 2,
        r[0] == JsonValue::Int(n_required),
        is_str_array(r[1], keys@),
{
}

/// `createmultisig` sends, in Core's argument order: `n_required`, `keys`, `address_type`.
pub proof fn lemma_create_multisig_with_request(n_required: i64, keys: Vec<String>, opts: CreateMultisigOptions, r: Seq<JsonValue>)
    requires
        create_multisig_with_params_spec(n_required, keys, opts, r),
    ensures
        r.len() == 3,
        r[0] == JsonValue::Int(n_required),
        is_str_array(r[1], keys@),
        r[2] == opt_str(opts.address_type),
{
}

/// `deriveaddresses` sends, in Core's argument order: `descriptor`.
pub proof fn lemma_derive_addresses_request(descriptor: String, r: Seq<JsonValue>)
    requires
        derive_addresses_params_spec(descriptor, r),
    ensures
        r.len() == 1,
        r[0] == JsonValue::Str(descriptor),
{
}

/// `estimatesmartfee` sends, in Core's argument order: `conf_target`.
pub proof fn lemma_estimate_smart_fee_request(conf_target: i64, r: Seq<JsonValue>)
    requires
        estimate_smart_fee_params_spec(conf_target, r),
    ensures
        r.len() == 1,
        r[0] == JsonValue::Int(conf_target),
{
}

/// `estimatesmartfee` sends, in Core's argument order: `conf_target`, `estimate_mode`.
pub proof fn lemma_estimate_smart_fee_with_request(conf_target: i64, opts: EstimateSmartFeeOptions, r: Seq<JsonValue>)
    requires
        estimate_smart_fee_with_params_spec(conf_target, opts, r),
    ensures
        r.len() == 2,
        r[0] == JsonValue::Int(conf_target),
        r[1] == opt_str(opts.estimate_mode),
{
}

/// `getdescriptorinfo` sends, in Core's argument order: `descriptor`.
pub proof fn lemma_get_descriptor_info_request(descriptor: String, r: Seq<JsonValue>)
    requires
        get_descriptor_info_params_spec(descriptor, r),
    ensures
        r.len() == 1,
        r[0] == JsonValue::Str(descriptor),
{
}

/// `getindexinfo` sends, in Core's argument order: `index_name`.
pub proof fn lemma_get_index_info_with_request(opts: GetIndexInfoOptions, r: Seq<JsonValue>)
    requires
        get_index_info_with_params_spec(opts, r),
    ensures
        r.len() == 1,
        r[0] == opt_str(opts.index_name),
{
}

/// `signmessagewithprivkey` sends, in Core's argument order: `priv_key`, `message`.
pub proof fn lemma_sign_message_with_priv_key_request(priv_key: String, message: String, r: Seq<JsonValue>)
    requires
        sign_message_with_priv_key_params_spec(priv_key, message, r),
    ensures
        r.len() == 2,
        r[0] == JsonValue::Str(priv_key),
        r[1] == JsonValue::Str(message),
{
}

/// `validateaddress` sends, in Core's argument order: `address`.
pub proof fn lemma_validate_address_request(address: String, r: Seq<JsonValue>)
    requires
        validate_address_params_spec(address, r),
    ensures
        r.len() == 1,
        r[0] == JsonValue::Str(address),
{
}

/// `verifymessage` sends, in Core's argument order: `address`, `signature`, `message`.
pub proof fn lemma_verify_message_request(address: String, signature: String, message: String, r: Seq<JsonValue>)
    requires
        verify_message_params_spec(address, signature, message, r),
    ensures
        r.len() == 3,
        r[0] == JsonValue::Str(address),
        r[1] == JsonValue::Str(signature),
        r[2] == JsonValue::Str(message),
{
}

/// The options of `createmultisig` fill its optional arguments in Core's order: `address_type`.
pub proof fn lemma_create_multisig_options_slots(o: CreateMultisigOptions, r: Seq<JsonValue>)
    requires
        o.params_spec(r),
    ensures
        r.len() == 1,
        r[0] == opt_str(o.address_type),
{
}

/// The options of `estimatesmartfee` fill its optional arguments in Core's order: `estimate_mode`.
pub proof fn lemma_estimate_smart_fee_options_slots(o: EstimateSmartFeeOptions, r: Seq<JsonValue>)
    requires
        o.params_spec(r),
    ensures
        r.len() == 1,
        r[0] == opt_str(o.estimate_mode),
{
}

/// The options of `getindexinfo` fill its optional arguments in Core's order: `index_name`.
pub proof fn lemma_get_index_info_options_slots(o: GetIndexInfoOptions, r: Seq<JsonValue>)
    requires
        o.params_spec(r),
    ensures
        r.len() == 1,
        r[0] == opt_str(o.index_name),
{
}

} // verus!
