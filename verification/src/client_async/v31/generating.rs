//! Options of the block-generating RPC methods.

use vstd::prelude::*;

use crate::client_async::json::{JsonValue, JsonMember, opt_bool, opt_int, opt_str, is_str_array, is_int_array, count, json_str_array, json_int_array, json_opt_bool, json_opt_int, json_opt_str, member};

verus! {

/// Optional parameters for the `generateblock` JSON-RPC method (consumed by `Client::generate_block_with`).
#[derive(Clone, Debug, Default)]
pub struct GenerateBlockOptions {
    /// Whether to submit the block before the RPC call returns or to return it as hex.
    pub submit: Option<bool>,
}

impl GenerateBlockOptions {
    /// The positional arguments these options fill, after the method's
    /// required arguments: one slot per option, in order, `null` when unset.
    pub open spec fn params_spec(self, r: Seq<JsonValue>) -> bool {
        &&& r.len() == 1
        &&& r[0] == opt_bool(self.submit)
    }

    /// The positional arguments these options fill.
    pub fn to_params(self) -> (r: Vec<JsonValue>)
        ensures
            self.params_spec(r@),
    {
        let mut r: Vec<JsonValue> = Vec::new();
        let v0 = json_opt_bool(self.submit);
        r.push(v0);
        r
    }
}

/// `generateblock` with required arguments only: its positional parameters.
pub open spec fn generate_block_params_spec(output: String, transactions: Vec<String>, r: Seq<JsonValue>) -> bool {
    &&& r.len() == 2
    &&& r[0] == JsonValue::Str(output)
    &&& is_str_array(r[1], transactions@)
}

/// `generateblock` with required arguments only: its positional parameters.
pub fn generate_block_params(output: String, transactions: Vec<String>) -> (r: Vec<JsonValue>)
    ensures
        generate_block_params_spec(output, transactions, r@),
{
    let mut r: Vec<JsonValue> = Vec::new();
    let v0 = JsonValue::Str(output);
    r.push(v0);
    let v1 = json_str_array(transactions);
    r.push(v1);
    r
}

/// `generateblock` with all optional arguments via [`GenerateBlockOptions`]: its positional parameters.
pub open spec fn generate_block_with_params_spec(output: String, transactions: Vec<String>, opts: GenerateBlockOptions, r: Seq<JsonValue>) -> bool {
    &&& r.len() == 3
    &&& r[0] == JsonValue::Str(output)
    &&& is_str_array(r[1], transactions@)
    &&& opts.params_spec(r.subrange(2, 3))
}

/// `generateblock` with all optional arguments via [`GenerateBlockOptions`]: its positional parameters.
pub fn generate_block_with_params(output: String, transactions: Vec<String>, opts: GenerateBlockOptions) -> (r: Vec<JsonValue>)
    ensures
        generate_block_with_params_spec(output, transactions, opts, r@),
{
    let mut r: Vec<JsonValue> = Vec::new();
    let v0 = JsonValue::Str(output);
    r.push(v0);
    let v1 = json_str_array(transactions);
    r.push(v1);
    let mut tail = opts.to_params();
    r.append(&mut tail);
    r
}

/// `generatetoaddress` with required arguments only: its positional parameters.
pub open spec fn generate_to_address_params_spec(n_blocks: i64, address: String, r: Seq<JsonValue>) -> bool {
    &&& r.len() == 2
    &&& r[0] == JsonValue::Int(n_blocks)
    &&& r[1] == JsonValue::Str(address)
}

/// `generatetoaddress` with required arguments only: its positional parameters.
pub fn generate_to_address_params(n_blocks: i64, address: String) -> (r: Vec<JsonValue>)
    ensures
        generate_to_address_params_spec(n_blocks, address, r@),
{
    let mut r: Vec<JsonValue> = Vec::new();
    let v0 = JsonValue::Int(n_blocks);
    r.push(v0);
    let v1 = JsonValue::Str(address);
    r.push(v1);
    r
}

/// `generatetodescriptor` with required arguments only: its positional parameters.
pub open spec fn generate_to_descriptor_params_spec(num_blocks: i64, descriptor: String, r: Seq<JsonValue>) -> bool {
    &&& r.len() == 2
    &&& r[0] == JsonValue::Int(num_blocks)
    &&& r[1] == JsonValue::Str(descriptor)
}

/// `generatetodescriptor` with required arguments only: its positional parameters.
pub fn generate_to_descriptor_params(num_blocks: i64, descriptor: String) -> (r: Vec<JsonValue>)
    ensures
        generate_to_descriptor_params_spec(num_blocks, descriptor, r@),
{
    let mut r: Vec<JsonValue> = Vec::new();
    let v0 = JsonValue::Int(num_blocks);
    r.push(v0);
    let v1 = JsonValue::Str(descriptor);
    r.push(v1);
    r
}

/// `invalidateblock` with required arguments only: its positional parameters.
pub open spec fn invalidate_block_params_spec(block_hash: String, r: Seq<JsonValue>) -> bool {
    &&& r.len() == 1
    &&& r[0] == JsonValue::Str(block_hash)
}

/// `invalidateblock` with required arguments only: its positional parameters.
pub fn invalidate_block_params(block_hash: String) -> (r: Vec<JsonValue>)
    ensures
        invalidate_block_params_spec(block_hash, r@),
{
    let mut r: Vec<JsonValue> = Vec::new();
    let v0 = JsonValue::Str(block_hash);
    r.push(v0);
    r
}

/// `generateblock` sends, in Core's argument order: `output`, `transactions`.
pub proof fn lemma_generate_block_request(output: String, transactions: Vec<String>, r: Seq<JsonValue>)
    requires
        generate_block_params_spec(output, transactions, r),
    ensures
        r.len() == 2,
        r[0] == JsonValue::Str(output),
        is_str_array(r[1], transactions@),
{
}

/// `generateblock` sends, in Core's argument order: `output`, `transactions`, `submit`.
pub proof fn lemma_generate_block_with_request(output: String, transactions: Vec<String>, opts: GenerateBlockOptions, r: Seq<JsonValue>)
    requires
        generate_block_with_params_spec(output, transactions, opts, r),
    ensures
        r.len() == 3,
        r[0] == JsonValue::Str(output),
        is_str_array(r[1], transactions@),
        r[2] == opt_bool(opts.submit),
{
}

/// `generatetoaddress` sends, in Core's argument order: `n_blocks`, `address`.
pub proof fn lemma_generate_to_address_request(n_blocks: i64, address: String, r: Seq<JsonValue>)
    requires
        generate_to_address_params_spec(n_blocks, address, r),
    ensures
        r.len() == 2,
        r[0] == JsonValue::Int(n_blocks),
        r[1] == JsonValue::Str(address),
{
}

/// `generatetodescriptor` sends, in Core's argument order: `num_blocks`, `descriptor`.
pub proof fn lemma_generate_to_descriptor_request(num_blocks: i64, descriptor: String, r: Seq<JsonValue>)
    requires
        generate_to_descriptor_params_spec(num_blocks, descriptor, r),
    ensures
        r.len() == 2,
        r[0] == JsonValue::Int(num_blocks),
        r[1] == JsonValue::Str(descriptor),
{
}

/// `invalidateblock` sends, in Core's argument order: `block_hash`.
pub proof fn lemma_invalidate_block_request(block_hash: String, r: Seq<JsonValue>)
    requires
        invalidate_block_params_spec(block_hash, r),
    ensures
        r.len() == 1,
        r[0] == JsonValue::Str(block_hash),
{
}

/// The options of `generateblock` fill its optional arguments in Core's order: `submit`.
pub proof fn lemma_generate_block_options_slots(o: GenerateBlockOptions, r: Seq<JsonValue>)
    requires
        o.params_spec(r),
    ensures
        r.len() == 1,
        r[0] == opt_bool(o.submit),
{
}

} // verus!
