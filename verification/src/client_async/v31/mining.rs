//! Options of the mining RPC methods.

use vstd::prelude::*;

use crate::client_async::json::{JsonValue, JsonMember, opt_bool, opt_int, opt_str, is_str_array, is_int_array, count, json_str_array, json_int_array, json_opt_bool, json_opt_int, json_opt_str, member};

verus! {

#[derive(Clone, Debug, PartialEq)]
pub struct GetBlockTemplateTemplateRequest {
    /// A list of strings
    pub capabilities: Option<Vec<String>>,
    /// proposed block data to check, encoded in hexadecimal; valid only for mode="proposal"
    pub data: Option<String>,
    /// delay processing request until the result would vary significantly from the "longpollid" of a prior template
    pub longpollid: Option<String>,
    /// This must be set to "template", "proposal" (see BIP 23), or omitted
    pub mode: Option<String>,
    /// A list of strings
    pub rules: Vec<String>,
}

impl GetBlockTemplateTemplateRequest {
    /// `j` is the JSON object of these fields, in order; a field marked
    /// optional is left out when unset.
    pub open spec fn is_json(self, j: JsonValue) -> bool {
        &&& j is Object
        &&& j->Object_0@.len() == count(self.capabilities is Some) + count(self.data is Some) + count(self.longpollid is Some) + count(self.mode is Some) + 1int
        &&& (self.capabilities matches Some(x) ==> (j->Object_0@[0int].key@ == "capabilities"@ && is_str_array(j->Object_0@[0int].value, x@)))
        &&& (self.data matches Some(x) ==> (j->Object_0@[count(self.capabilities is Some)].key@ == "data"@ && j->Object_0@[count(self.capabilities is Some)].value == JsonValue::Str(x)))
        &&& (self.longpollid matches Some(x) ==> (j->Object_0@[count(self.capabilities is Some) + count(self.data is Some)].key@ == "longpollid"@ && j->Object_0@[count(self.capabilities is Some) + count(self.data is Some)].value == JsonValue::Str(x)))
        &&& (self.mode matches Some(x) ==> (j->Object_0@[count(self.capabilities is Some) + count(self.data is Some) + count(self.longpollid is Some)].key@ == "mode"@ && j->Object_0@[count(self.capabilities is Some) + count(self.data is Some) + count(self.longpollid is Some)].value == JsonValue::Str(x)))
        &&& j->Object_0@[count(self.capabilities is Some) + count(self.data is Some) + count(self.longpollid is Some) + count(self.mode is Some)].key@ == "rules"@
        &&& is_str_array(j->Object_0@[count(self.capabilities is Some) + count(self.data is Some) + count(self.longpollid is Some) + count(self.mode is Some)].value, self.rules@)
    }

    /// The JSON object of these fields.
    pub fn to_json(self) -> (j: JsonValue)
        ensures
            self.is_json(j),
    {
        let ghost old_self = self;
        let mut ms: Vec<JsonMember> = Vec::new();
        match self.capabilities {
            Some(x) => {
                let v0 = json_str_array(x);
                ms.push(member("capabilities", v0));
            },
            None => {},
        }
        assert(ms@.len() == count(old_self.capabilities is Some));
        match self.data {
            Some(x) => {
                let v1 = JsonValue::Str(x);
                ms.push(member("data", v1));
            },
            None => {},
        }
        assert(ms@.len() == count(old_self.capabilities is Some) + count(old_self.data is Some));
        match self.longpollid {
            Some(x) => {
                let v2 = JsonValue::Str(x);
                ms.push(member("longpollid", v2));
            },
            None => {},
        }
        assert(ms@.len() == count(old_self.capabilities is Some) + count(old_self.data is Some) + count(old_self.longpollid is Some));
        match self.mode {
            Some(x) => {
                let v3 = JsonValue::Str(x);
                ms.push(member("mode", v3));
            },
            None => {},
        }
        assert(ms@.len() == count(old_self.capabilities is Some) + count(old_self.data is Some) + count(old_self.longpollid is Some) + count(old_self.mode is Some));
        let v4 = json_str_array(self.rules);
        ms.push(member("rules", v4));
        assert(ms@.len() == count(old_self.capabilities is Some) + count(old_self.data is Some) + count(old_self.longpollid is Some) + count(old_self.mode is Some) + 1int);
        JsonValue::Object(ms)
    }
}

/// Optional parameters for the `getnetworkhashps` JSON-RPC method (consumed by `Client::get_network_hash_ps_with`).
#[derive(Clone, Debug, Default)]
pub struct GetNetworkHashPsOptions {
    /// The number of previous blocks to calculate estimate from, or -1 for blocks since last difficulty change.
    pub n_blocks: Option<i64>,
    /// To estimate at the time of the given height.
    pub height: Option<i64>,
}

impl GetNetworkHashPsOptions {
    /// The positional arguments these options fill, after the method's
    /// required arguments: one slot per option, in order, `null` when unset.
    pub open spec fn params_spec(self, r: Seq<JsonValue>) -> bool {
        &&& r.len() == 2
        &&& r[0] == opt_int(self.n_blocks)
        &&& r[1] == opt_int(self.height)
    }

    /// The positional arguments these options fill.
    pub fn to_params(self) -> (r: Vec<JsonValue>)
        ensures
            self.params_spec(r@),
    {
        let mut r: Vec<JsonValue> = Vec::new();
        let v0 = json_opt_int(self.n_blocks);
        r.push(v0);
        let v1 = json_opt_int(self.height);
        r.push(v1);
        r
    }
}

/// Optional parameters for the `submitblock` JSON-RPC method (consumed by `Client::submit_block_with`).
#[derive(Clone, Debug, Default)]
pub struct SubmitBlockOptions {
    /// dummy value, for compatibility with BIP22. This value is ignored.
    pub dummy: Option<String>,
}

impl SubmitBlockOptions {
    /// The positional arguments these options fill, after the method's
    /// required arguments: one slot per option, in order, `null` when unset.
    pub open spec fn params_spec(self, r: Seq<JsonValue>) -> bool {
        &&& r.len() == 1
        &&& r[0] == opt_str(self.dummy)
    }

    /// The positional arguments these options fill.
    pub fn to_params(self) -> (r: Vec<JsonValue>)
        ensures
            self.params_spec(r@),
    {
        let mut r: Vec<JsonValue> = Vec::new();
        let v0 = json_opt_str(self.dummy);
        r.push(v0);
        r
    }
}

/// `getblocktemplate` with required arguments only: its positional parameters.
pub open spec fn get_block_template_params_spec(template_request: GetBlockTemplateTemplateRequest, r: Seq<JsonValue>) -> bool {
    &&& r.len() == 1
    &&& template_request.is_json(r[0])
}

/// `getblocktemplate` with required arguments only: its positional parameters.
pub fn get_block_template_params(template_request: GetBlockTemplateTemplateRequest) -> (r: Vec<JsonValue>)
    ensures
        get_block_template_params_spec(template_request, r@),
{
    let mut r: Vec<JsonValue> = Vec::new();
    let v0 = template_request.to_json();
    r.push(v0);
    r
}

/// `getmininginfo` with required arguments only: its positional parameters.
pub open spec fn get_mining_info_params_spec(r: Seq<JsonValue>) -> bool {
    &&& r.len() == 0
}

/// `getmininginfo` with required arguments only: its positional parameters.
pub fn get_mining_info_params() -> (r: Vec<JsonValue>)
    ensures
        get_mining_info_params_spec(r@),
{
    let mut r: Vec<JsonValue> = Vec::new();
    r
}

/// `getnetworkhashps` with required arguments only: its positional parameters.
pub open spec fn get_network_hash_ps_params_spec(r: Seq<JsonValue>) -> bool {
    &&& r.len() == 0
}

/// `getnetworkhashps` with required arguments only: its positional parameters.
pub fn get_network_hash_ps_params() -> (r: Vec<JsonValue>)
    ensures
        get_network_hash_ps_params_spec(r@),
{
    let mut r: Vec<JsonValue> = Vec::new();
    r
}

/// `getnetworkhashps` with all optional arguments via [`GetNetworkHashPsOptions`]: its positional parameters.
pub open spec fn get_network_hash_ps_with_params_spec(opts: GetNetworkHashPsOptions, r: Seq<JsonValue>) -> bool {
    &&& r.len() == 2
    &&& opts.params_spec(r.subrange(0, 2))
}

/// `getnetworkhashps` with all optional arguments via [`GetNetworkHashPsOptions`]: its positional parameters.
pub fn get_network_hash_ps_with_params(opts: GetNetworkHashPsOptions) -> (r: Vec<JsonValue>)
    ensures
        get_network_hash_ps_with_params_spec(opts, r@),
{
    let mut r: Vec<JsonValue> = Vec::new();
    let mut tail = opts.to_params();
    r.append(&mut tail);
    r
}

/// `getprioritisedtransactions` with required arguments only: its positional parameters.
pub open spec fn get_prioritised_transactions_params_spec(r: Seq<JsonValue>) -> bool {
    &&& r.len() == 0
}

/// `getprioritisedtransactions` with required arguments only: its positional parameters.
pub fn get_prioritised_transactions_params() -> (r: Vec<JsonValue>)
    ensures
        get_prioritised_transactions_params_spec(r@),
{
    let mut r: Vec<JsonValue> = Vec::new();
    r
}

/// `prioritisetransaction` with required arguments only: its positional parameters.
pub open spec fn prioritise_transaction_params_spec(txid: String, fee_delta: i64, r: Seq<JsonValue>) -> bool {
    &&& r.len() == 3
    &&& r[0] == JsonValue::Str(txid)
    &&& r[1] == JsonValue::Null
    &&& r[2] == JsonValue::Int(fee_delta)
}

/// `prioritisetransaction` with required arguments only: its positional parameters.
pub fn prioritise_transaction_params(txid: String, fee_delta: i64) -> (r: Vec<JsonValue>)
    ensures
        prioritise_transaction_params_spec(txid, fee_delta, r@),
{
    let mut r: Vec<JsonValue> = Vec::new();
    let v0 = JsonValue::Str(txid);
    r.push(v0);
    r.push(JsonValue::Null);
    let v2 = JsonValue::Int(fee_delta);
    r.push(v2);
    r
}

/// `submitblock` with required arguments only: its positional parameters.
pub open spec fn submit_block_params_spec(hex_data: String, r: Seq<JsonValue>) -> bool {
    &&& r.len() == 1
    &&& r[0] == JsonValue::Str(hex_data)
}

/// `submitblock` with required arguments only: its positional parameters.
pub fn submit_block_params(hex_data: String) -> (r: Vec<JsonValue>)
    ensures
        submit_block_params_spec(hex_data, r@),
{
    let mut r: Vec<JsonValue> = Vec::new();
    let v0 = JsonValue::Str(hex_data);
    r.push(v0);
    r
}

/// `submitblock` with all optional arguments via [`SubmitBlockOptions`]: its positional parameters.
pub open spec fn submit_block_with_params_spec(hex_data: String, opts: SubmitBlockOptions, r: Seq<JsonValue>) -> bool {
    &&& r.len() == 2
    &&& r[0] == JsonValue::Str(hex_data)
    &&& opts.params_spec(r.subrange(1, 2))
}

/// `submitblock` with all optional arguments via [`SubmitBlockOptions`]: its positional parameters.
pub fn submit_block_with_params(hex_data: String, opts: SubmitBlockOptions) -> (r: Vec<JsonValue>)
    ensures
        submit_block_with_params_spec(hex_data, opts, r@),
{
    let mut r: Vec<JsonValue> = Vec::new();
    let v0 = JsonValue::Str(hex_data);
    r.push(v0);
    let mut tail = opts.to_params();
    r.append(&mut tail);
    r
}

/// `submitheader` with required arguments only: its positional parameters.
pub open spec fn submit_header_params_spec(hex_data: String, r: Seq<JsonValue>) -> bool {
    &&& r.len() == 1
    &&& r[0] == JsonValue::Str(hex_data)
}

/// `submitheader` with required arguments only: its positional parameters.
pub fn submit_header_params(hex_data: String) -> (r: Vec<JsonValue>)
    ensures
        submit_header_params_spec(hex_data, r@),
{
    let mut r: Vec<JsonValue> = Vec::new();
    let v0 = JsonValue::Str(hex_data);
    r.push(v0);
    r
}

/// The methods that take no arguments send no parameters at all.
pub proof fn lemma_argumentless_requests_send_nothing()
    ensures
        forall|r: Seq<JsonValue>| #[trigger] get_mining_info_params_spec(r) ==> r.len() == 0,
        forall|r: Seq<JsonValue>| #[trigger] get_network_hash_ps_params_spec(r) ==> r.len() == 0,
        forall|r: Seq<JsonValue>| #[trigger] get_prioritised_transactions_params_spec(r) ==> r.len() == 0,
{
}

/// `getblocktemplate` sends, in Core's argument order: `template_request`.
pub proof fn lemma_get_block_template_request(template_request: GetBlockTemplateTemplateRequest, r: Seq<JsonValue>)
    requires
        get_block_template_params_spec(template_request, r),
    ensures
        r.len() == 1,
        template_request.is_json(r[0]),
{
}

/// `getnetworkhashps` sends, in Core's argument order: `n_blocks`, `height`.
pub proof fn lemma_get_network_hash_ps_with_request(opts: GetNetworkHashPsOptions, r: Seq<JsonValue>)
    requires
        get_network_hash_ps_with_params_spec(opts, r),
    ensures
        r.len() == 2,
        r[0] == opt_int(opts.n_blocks),
        r[1] == opt_int(opts.height),
{
}

/// `prioritisetransaction` sends, in Core's argument order: `txid`, `null`, `fee_delta`.
pub proof fn lemma_prioritise_transaction_request(txid: String, fee_delta: i64, r: Seq<JsonValue>)
    requires
        prioritise_transaction_params_spec(txid, fee_delta, r),
    ensures
        r.len() == 3,
        r[0] == JsonValue::Str(txid),
        r[1] == JsonValue::Null,
        r[2] == JsonValue::Int(fee_delta),
{
}

/// `submitblock` sends, in Core's argument order: `hex_data`.
pub proof fn lemma_submit_block_request(hex_data: String, r: Seq<JsonValue>)
    requires
        submit_block_params_spec(hex_data, r),
    ensures
        r.len() == 1,
        r[0] == JsonValue::Str(hex_data),
{
}

/// `submitblock` sends, in Core's argument order: `hex_data`, `dummy`.
pub proof fn lemma_submit_block_with_request(hex_data: String, opts: SubmitBlockOptions, r: Seq<JsonValue>)
    requires
        submit_block_with_params_spec(hex_data, opts, r),
    ensures
        r.len() == 2,
        r[0] == JsonValue::Str(hex_data),
        r[1] == opt_str(opts.dummy),
{
}

/// `submitheader` sends, in Core's argument order: `hex_data`.
pub proof fn lemma_submit_header_request(hex_data: String, r: Seq<JsonValue>)
    requires
        submit_header_params_spec(hex_data, r),
    ensures
        r.len() == 1,
        r[0] == JsonValue::Str(hex_data),
{
}

/// The options of `getnetworkhashps` fill its optional arguments in Core's order: `n_blocks`, `height`.
pub proof fn lemma_get_network_hash_ps_options_slots(o: GetNetworkHashPsOptions, r: Seq<JsonValue>)
    requires
        o.params_spec(r),
    ensures
        r.len() == 2,
        r[0] == opt_int(o.n_blocks),
        r[1] == opt_int(o.height),
{
}

/// The options of `submitblock` fill its optional arguments in Core's order: `dummy`.
pub proof fn lemma_submit_block_options_slots(o: SubmitBlockOptions, r: Seq<JsonValue>)
    requires
        o.params_spec(r),
    ensures
        r.len() == 1,
        r[0] == opt_str(o.dummy),
{
}

/// [`GetBlockTemplateTemplateRequest`] is sent as a JSON object whose members are, in order: `capabilities` (when set), `data` (when set), `longpollid` (when set), `mode` (when set), `rules`.
pub proof fn lemma_get_block_template_template_request_members(o: GetBlockTemplateTemplateRequest, j: JsonValue)
    requires
        o.is_json(j),
    ensures
        j is Object,
        j->Object_0@.len() == 1 + count(o.capabilities is Some) + count(o.data is Some) + count(o.longpollid is Some) + count(o.mode is Some),
        o.capabilities matches Some(x) ==> (j->Object_0@[0].key@ == "capabilities"@ && is_str_array(j->Object_0@[0].value, x@)),
        o.data matches Some(x) ==> (j->Object_0@[count(o.capabilities is Some)].key@ == "data"@ && j->Object_0@[count(o.capabilities is Some)].value == JsonValue::Str(x)),
        o.longpollid matches Some(x) ==> (j->Object_0@[count(o.capabilities is Some) + count(o.data is Some)].key@ == "longpollid"@ && j->Object_0@[count(o.capabilities is Some) + count(o.data is Some)].value == JsonValue::Str(x)),
        o.mode matches Some(x) ==> (j->Object_0@[count(o.capabilities is Some) + count(o.data is Some) + count(o.longpollid is Some)].key@ == "mode"@ && j->Object_0@[count(o.capabilities is Some) + count(o.data is Some) + count(o.longpollid is Some)].value == JsonValue::Str(x)),
        j->Object_0@[count(o.capabilities is Some) + count(o.data is Some) + count(o.longpollid is Some) + count(o.mode is Some)].key@ == "rules"@,
        is_str_array(j->Object_0@[count(o.capabilities is Some) + count(o.data is Some) + count(o.longpollid is Some) + count(o.mode is Some)].value, o.rules@),
{
}

} // verus!
