//! Options of the raw-transaction and PSBT RPC methods.

use vstd::prelude::*;

use crate::client_async::json::{JsonValue, JsonMember, opt_bool, opt_int, opt_str, is_str_array, is_int_array, count, json_str_array, json_int_array, json_opt_bool, json_opt_int, json_opt_str, member};

verus! {

#[derive(Clone, Debug, PartialEq)]
pub struct CreatePsbtInputs {
    /// The sequence number
    pub sequence: Option<i64>,
    /// The transaction id
    pub txid: String,
    /// The output number
    pub vout: i64,
}

impl CreatePsbtInputs {
    /// `j` is the JSON object of these fields, in order; a field marked
    /// optional is left out when unset.
    pub open spec fn is_json(self, j: JsonValue) -> bool {
        &&& j is Object
        &&& j->Object_0@.len() == count(self.sequence is Some) + 1int + 1int
        &&& (self.sequence matches Some(x) ==> (j->Object_0@[0int].key@ == "sequence"@ && j->Object_0@[0int].value == JsonValue::Int(x)))
        &&& j->Object_0@[count(self.sequence is Some)].key@ == "txid"@
        &&& j->Object_0@[count(self.sequence is Some)].value == JsonValue::Str(self.txid)
        &&& j->Object_0@[count(self.sequence is Some) + 1int].key@ == "vout"@
        &&& j->Object_0@[count(self.sequence is Some) + 1int].value == JsonValue::Int(self.vout)
    }

    /// The JSON object of these fields.
    pub fn to_json(self) -> (j: JsonValue)
        ensures
            self.is_json(j),
    {
        let ghost old_self = self;
        let mut ms: Vec<JsonMember> = Vec::new();
        match self.sequence {
            Some(x) => {
                let v0 = JsonValue::Int(x);
                ms.push(member("sequence", v0));
            },
            None => {},
        }
        assert(ms@.len() == count(old_self.sequence is Some));
        let v1 = JsonValue::Str(self.txid);
        ms.push(member("txid", v1));
        assert(ms@.len() == count(old_self.sequence is Some) + 1int);
        let v2 = JsonValue::Int(self.vout);
        ms.push(member("vout", v2));
        assert(ms@.len() == count(old_self.sequence is Some) + 1int + 1int);
        JsonValue::Object(ms)
    }

    /// `j` is the JSON array of the objects of `xs`, in order.
    pub open spec fn is_json_array(j: JsonValue, xs: Seq<CreatePsbtInputs>) -> bool {
        &&& j is Array
        &&& j->Array_0@.len() == xs.len()
        &&& forall|i: int| 0 <= i < xs.len() ==> #[trigger] xs[i].is_json(j->Array_0@[i])
    }

    /// The JSON array of the objects of `xs`, in order.
    pub fn array_to_json(xs: Vec<CreatePsbtInputs>) -> (j: JsonValue)
        ensures
            Self::is_json_array(j, xs@),
    {
        let ghost all = xs@;
        let mut rest = xs;
        let mut out: Vec<JsonValue> = Vec::new();
        while rest.len() > 0
            invariant
                out@.len() + rest@.len() == all.len(),
                rest@ == all.subrange(out@.len() as int, all.len() as int),
                forall|i: int| 0 <= i < out@.len() ==> #[trigger] all[i].is_json(out@[i]),
            decreases rest@.len(),
        {
            let x = rest.remove(0);
            let v = x.to_json();
            out.push(v);
            assert(rest@ =~= all.subrange(out@.len() as int, all.len() as int));
        }
        JsonValue::Array(out)
    }
}

#[derive(Clone, Debug, PartialEq)]
pub struct CreatePsbtOutputsVariant1 {
    /// A key-value pair. The key must be "data", the value is hex-encoded data that becomes a part of an OP_RETURN output
    pub data: String,
}

impl CreatePsbtOutputsVariant1 {
    /// `j` is the JSON object of these fields, in order; a field marked
    /// optional is left out when unset.
    pub open spec fn is_json(self, j: JsonValue) -> bool {
        &&& j is Object
        &&& j->Object_0@.len() == 1int
        &&& j->Object_0@[0int].key@ == "data"@
        &&& j->Object_0@[0int].value == JsonValue::Str(self.data)
    }

    /// The JSON object of these fields.
    pub fn to_json(self) -> (j: JsonValue)
        ensures
            self.is_json(j),
    {
        let ghost old_self = self;
        let mut ms: Vec<JsonMember> = Vec::new();
        let v0 = JsonValue::Str(self.data);
        ms.push(member("data", v0));
        assert(ms@.len() == 1int);
        JsonValue::Object(ms)
    }
}

#[derive(Clone, Debug, PartialEq)]
pub struct CreateRawTransactionInputs {
    /// The sequence number
    pub sequence: Option<i64>,
    /// The transaction id
    pub txid: String,
    /// The output number
    pub vout: i64,
}

impl CreateRawTransactionInputs {
    /// `j` is the JSON object of these fields, in order; a field marked
    /// optional is left out when unset.
    pub open spec fn is_json(self, j: JsonValue) -> bool {
        &&& j is Object
        &&& j->Object_0@.len() == count(self.sequence is Some) + 1int + 1int
        &&& (self.sequence matches Some(x) ==> (j->Object_0@[0int].key@ == "sequence"@ && j->Object_0@[0int].value == JsonValue::Int(x)))
        &&& j->Object_0@[count(self.sequence is Some)].key@ == "txid"@
        &&& j->Object_0@[count(self.sequence is Some)].value == JsonValue::Str(self.txid)
        &&& j->Object_0@[count(self.sequence is Some) + 1int].key@ == "vout"@
        &&& j->Object_0@[count(self.sequence is Some) + 1int].value == JsonValue::Int(self.vout)
    }

    /// The JSON object of these fields.
    pub fn to_json(self) -> (j: JsonValue)
        ensures
            self.is_json(j),
    {
        let ghost old_self = self;
        let mut ms: Vec<JsonMember> = Vec::new();
        match self.sequence {
            Some(x) => {
                let v0 = JsonValue::Int(x);
                ms.push(member("sequence", v0));
            },
            None => {},
        }
        assert(ms@.len() == count(old_self.sequence is Some));
        let v1 = JsonValue::Str(self.txid);
        ms.push(member("txid", v1));
        assert(ms@.len() == count(old_self.sequence is Some) + 1int);
        let v2 = JsonValue::Int(self.vout);
        ms.push(member("vout", v2));
        assert(ms@.len() == count(old_self.sequence is Some) + 1int + 1int);
        JsonValue::Object(ms)
    }

    /// `j` is the JSON array of the objects of `xs`, in order.
    pub open spec fn is_json_array(j: JsonValue, xs: Seq<CreateRawTransactionInputs>) -> bool {
        &&& j is Array
        &&& j->Array_0@.len() == xs.len()
        &&& forall|i: int| 0 <= i < xs.len() ==> #[trigger] xs[i].is_json(j->Array_0@[i])
    }

    /// The JSON array of the objects of `xs`, in order.
    pub fn array_to_json(xs: Vec<CreateRawTransactionInputs>) -> (j: JsonValue)
        ensures
            Self::is_json_array(j, xs@),
    {
        let ghost all = xs@;
        let mut rest = xs;
        let mut out: Vec<JsonValue> = Vec::new();
        while rest.len() > 0
            invariant
                out@.len() + rest@.len() == all.len(),
                rest@ == all.subrange(out@.len() as int, all.len() as int),
                forall|i: int| 0 <= i < out@.len() ==> #[trigger] all[i].is_json(out@[i]),
            decreases rest@.len(),
        {
            let x = rest.remove(0);
            let v = x.to_json();
            out.push(v);
            assert(rest@ =~= all.subrange(out@.len() as int, all.len() as int));
        }
        JsonValue::Array(out)
    }
}

#[derive(Clone, Debug, PartialEq)]
pub struct CreateRawTransactionOutputsVariant1 {
    /// A key-value pair. The key must be "data", the value is hex-encoded data that becomes a part of an OP_RETURN output
    pub data: String,
}

impl CreateRawTransactionOutputsVariant1 {
    /// `j` is the JSON object of these fields, in order; a field marked
    /// optional is left out when unset.
    pub open spec fn is_json(self, j: JsonValue) -> bool {
        &&& j is Object
        &&& j->Object_0@.len() == 1int
        &&& j->Object_0@[0int].key@ == "data"@
        &&& j->Object_0@[0int].value == JsonValue::Str(self.data)
    }

    /// The JSON object of these fields.
    pub fn to_json(self) -> (j: JsonValue)
        ensures
            self.is_json(j),
    {
        let ghost old_self = self;
        let mut ms: Vec<JsonMember> = Vec::new();
        let v0 = JsonValue::Str(self.data);
        ms.push(member("data", v0));
        assert(ms@.len() == 1int);
        JsonValue::Object(ms)
    }
}

#[derive(Clone, Debug, PartialEq)]
pub struct FundRawTransactionOptionsArgInputWeightsItem {
    /// The transaction id
    pub txid: String,
    /// The output index
    pub vout: i64,
    /// The maximum weight for this input, including the weight of the outpoint and sequence number. Note that serialized signature sizes are not guaranteed to be consistent, so the maximum DER signatures size of 73 bytes should be used when considering ECDSA signatures.Remember to convert serialized sizes to weight units when necessary.
    pub weight: i64,
}

impl FundRawTransactionOptionsArgInputWeightsItem {
    /// `j` is the JSON object of these fields, in order; a field marked
    /// optional is left out when unset.
    pub open spec fn is_json(self, j: JsonValue) -> bool {
        &&& j is Object
        &&& j->Object_0@.len() == 1int + 1int + 1int
        &&& j->Object_0@[0int].key@ == "txid"@
        &&& j->Object_0@[0int].value == JsonValue::Str(self.txid)
        &&& j->Object_0@[1int].key@ == "vout"@
        &&& j->Object_0@[1int].value == JsonValue::Int(self.vout)
        &&& j->Object_0@[1int + 1int].key@ == "weight"@
        &&& j->Object_0@[1int + 1int].value == JsonValue::Int(self.weight)
    }

    /// The JSON object of these fields.
    pub fn to_json(self) -> (j: JsonValue)
        ensures
            self.is_json(j),
    {
        let ghost old_self = self;
        let mut ms: Vec<JsonMember> = Vec::new();
        let v0 = JsonValue::Str(self.txid);
        ms.push(member("txid", v0));
        assert(ms@.len() == 1int);
        let v1 = JsonValue::Int(self.vout);
        ms.push(member("vout", v1));
        assert(ms@.len() == 1int + 1int);
        let v2 = JsonValue::Int(self.weight);
        ms.push(member("weight", v2));
        assert(ms@.len() == 1int + 1int + 1int);
        JsonValue::Object(ms)
    }

    /// `j` is the JSON array of the objects of `xs`, in order.
    pub open spec fn is_json_array(j: JsonValue, xs: Seq<FundRawTransactionOptionsArgInputWeightsItem>) -> bool {
        &&& j is Array
        &&& j->Array_0@.len() == xs.len()
        &&& forall|i: int| 0 <= i < xs.len() ==> #[trigger] xs[i].is_json(j->Array_0@[i])
    }

    /// The JSON array of the objects of `xs`, in order.
    pub fn array_to_json(xs: Vec<FundRawTransactionOptionsArgInputWeightsItem>) -> (j: JsonValue)
        ensures
            Self::is_json_array(j, xs@),
    {
        let ghost all = xs@;
        let mut rest = xs;
        let mut out: Vec<JsonValue> = Vec::new();
        while rest.len() > 0
            invariant
                out@.len() + rest@.len() == all.len(),
                rest@ == all.subrange(out@.len() as int, all.len() as int),
                forall|i: int| 0 <= i < out@.len() ==> #[trigger] all[i].is_json(out@[i]),
            decreases rest@.len(),
        {
            let x = rest.remove(0);
            let v = x.to_json();
            out.push(v);
            assert(rest@ =~= all.subrange(out@.len() as int, all.len() as int));
        }
        JsonValue::Array(out)
    }
}

/// Keys and scripts needed for producing a final transaction with a dummy signature.
/// Used for fee estimation during coin selection.
#[derive(Clone, Debug, PartialEq)]
pub struct FundRawTransactionOptionsArgSolvingData {
    /// Descriptors that provide solving data for this transaction.
    pub descriptors: Option<Vec<String>>,
    /// Public keys involved in this transaction.
    pub pubkeys: Option<Vec<String>>,
    /// Scripts involved in this transaction.
    pub scripts: Option<Vec<String>>,
}

impl FundRawTransactionOptionsArgSolvingData {
    /// `j` is the JSON object of these fields, in order; a field marked
    /// optional is left out when unset.
    pub open spec fn is_json(self, j: JsonValue) -> bool {
        &&& j is Object
        &&& j->Object_0@.len() == count(self.descriptors is Some) + count(self.pubkeys is Some) + count(self.scripts is Some)
        &&& (self.descriptors matches Some(x) ==> (j->Object_0@[0int].key@ == "descriptors"@ && is_str_array(j->Object_0@[0int].value, x@)))
        &&& (self.pubkeys matches Some(x) ==> (j->Object_0@[count(self.descriptors is Some)].key@ == "pubkeys"@ && is_str_array(j->Object_0@[count(self.descriptors is Some)].value, x@)))
        &&& (self.scripts matches Some(x) ==> (j->Object_0@[count(self.descriptors is Some) + count(self.pubkeys is Some)].key@ == "scripts"@ && is_str_array(j->Object_0@[count(self.descriptors is Some) + count(self.pubkeys is Some)].value, x@)))
    }

    /// The JSON object of these fields.
    pub fn to_json(self) -> (j: JsonValue)
        ensures
            self.is_json(j),
    {
        let ghost old_self = self;
        let mut ms: Vec<JsonMember> = Vec::new();
        match self.descriptors {
            Some(x) => {
                let v0 = json_str_array(x);
                ms.push(member("descriptors", v0));
            },
            None => {},
        }
        assert(ms@.len() == count(old_self.descriptors is Some));
        match self.pubkeys {
            Some(x) => {
                let v1 = json_str_array(x);
                ms.push(member("pubkeys", v1));
            },
            None => {},
        }
        assert(ms@.len() == count(old_self.descriptors is Some) + count(old_self.pubkeys is Some));
        match self.scripts {
            Some(x) => {
                let v2 = json_str_array(x);
                ms.push(member("scripts", v2));
            },
            None => {},
        }
        assert(ms@.len() == count(old_self.descriptors is Some) + count(old_self.pubkeys is Some) + count(old_self.scripts is Some));
        JsonValue::Object(ms)
    }
}

/// Optional parameters for the `converttopsbt` JSON-RPC method (consumed by `Client::convert_to_psbt_with`).
#[derive(Clone, Debug, Default)]
pub struct ConvertToPsbtOptions {
    /// If true, any signatures in the input will be discarded and conversion
    ///                               will continue. If false, RPC will fail if any signatures are present.
    pub permitsig_data: Option<bool>,
    /// Whether the transaction hex is a serialized witness transaction.
    /// If iswitness is not present, heuristic tests will be used in decoding.
    /// If true, only witness deserialization will be tried.
    /// If false, only non-witness deserialization will be tried.
    /// This boolean should reflect whether the transaction has inputs
    /// (e.g. fully valid, or on-chain transactions), if known by the caller.
    pub is_witness: Option<bool>,
}

impl ConvertToPsbtOptions {
    /// The positional arguments these options fill, after the method's
    /// required arguments: one slot per option, in order, `null` when unset.
    pub open spec fn params_spec(self, r: Seq<JsonValue>) -> bool {
        &&& r.len() == 2
        &&& r[0] == opt_bool(self.permitsig_data)
        &&& r[1] == opt_bool(self.is_witness)
    }

    /// The positional arguments these options fill.
    pub fn to_params(self) -> (r: Vec<JsonValue>)
        ensures
            self.params_spec(r@),
    {
        let mut r: Vec<JsonValue> = Vec::new();
        let v0 = json_opt_bool(self.permitsig_data);
        r.push(v0);
        let v1 = json_opt_bool(self.is_witness);
        r.push(v1);
        r
    }
}

/// Optional parameters for the `createpsbt` JSON-RPC method (consumed by `Client::create_psbt_with`).
#[derive(Clone, Debug, Default)]
pub struct CreatePsbtOptions {
    /// Raw locktime. Non-0 value also locktime-activates inputs
    pub locktime: Option<i64>,
    /// Marks this transaction as BIP125-replaceable.
    /// Allows this transaction to be replaced by a transaction with higher fees. If provided, it is an error if explicit sequence numbers are incompatible.
    pub replaceable: Option<bool>,
    /// Transaction version
    pub version: Option<i64>,
}

impl CreatePsbtOptions {
    /// The positional arguments these options fill, after the method's
    /// required arguments: one slot per option, in order, `null` when unset.
    pub open spec fn params_spec(self, r: Seq<JsonValue>) -> bool {
        &&& r.len() == 3
        &&& r[0] == opt_int(self.locktime)
        &&& r[1] == opt_bool(self.replaceable)
        &&& r[2] == opt_int(self.version)
    }

    /// The positional arguments these options fill.
    pub fn to_params(self) -> (r: Vec<JsonValue>)
        ensures
            self.params_spec(r@),
    {
        let mut r: Vec<JsonValue> = Vec::new();
        let v0 = json_opt_int(self.locktime);
        r.push(v0);
        let v1 = json_opt_bool(self.replaceable);
        r.push(v1);
        let v2 = json_opt_int(self.version);
        r.push(v2);
        r
    }
}

/// Optional parameters for the `createrawtransaction` JSON-RPC method (consumed by `Client::create_raw_transaction_with`).
#[derive(Clone, Debug, Default)]
pub struct CreateRawTransactionOptions {
    /// Raw locktime. Non-0 value also locktime-activates inputs
    pub locktime: Option<i64>,
    /// Marks this transaction as BIP125-replaceable.
    /// Allows this transaction to be replaced by a transaction with higher fees. If provided, it is an error if explicit sequence numbers are incompatible.
    pub replaceable: Option<bool>,
    /// Transaction version
    pub version: Option<i64>,
}

impl CreateRawTransactionOptions {
    /// The positional arguments these options fill, after the method's
    /// required arguments: one slot per option, in order, `null` when unset.
    pub open spec fn params_spec(self, r: Seq<JsonValue>) -> bool {
        &&& r.len() == 3
        &&& r[0] == opt_int(self.locktime)
        &&& r[1] == opt_bool(self.replaceable)
        &&& r[2] == opt_int(self.version)
    }

    /// The positional arguments these options fill.
    pub fn to_params(self) -> (r: Vec<JsonValue>)
        ensures
            self.params_spec(r@),
    {
        let mut r: Vec<JsonValue> = Vec::new();
        let v0 = json_opt_int(self.locktime);
        r.push(v0);
        let v1 = json_opt_bool(self.replaceable);
        r.push(v1);
        let v2 = json_opt_int(self.version);
        r.push(v2);
        r
    }
}

/// Optional parameters for the `decoderawtransaction` JSON-RPC method (consumed by `Client::decode_raw_transaction_with`).
#[derive(Clone, Debug, Default)]
pub struct DecodeRawTransactionOptions {
    /// Whether the transaction hex is a serialized witness transaction.
    /// If iswitness is not present, heuristic tests will be used in decoding.
    /// If true, only witness deserialization will be tried.
    /// If false, only non-witness deserialization will be tried.
    /// This boolean should reflect whether the transaction has inputs
    /// (e.g. fully valid, or on-chain transactions), if known by the caller.
    pub is_witness: Option<bool>,
}

impl DecodeRawTransactionOptions {
    /// The positional arguments these options fill, after the method's
    /// required arguments: one slot per option, in order, `null` when unset.
    pub open spec fn params_spec(self, r: Seq<JsonValue>) -> bool {
        &&& r.len() == 1
        &&& r[0] == opt_bool(self.is_witness)
    }

    /// The positional arguments these options fill.
    pub fn to_params(self) -> (r: Vec<JsonValue>)
        ensures
            self.params_spec(r@),
    {
        let mut r: Vec<JsonValue> = Vec::new();
        let v0 = json_opt_bool(self.is_witness);
        r.push(v0);
        r
    }
}

/// Optional parameters for the `descriptorprocesspsbt` JSON-RPC method (consumed by `Client::descriptor_process_psbt_with`).
#[derive(Clone, Debug, Default)]
pub struct DescriptorProcessPsbtOptions {
    /// The signature hash type to sign with if not specified by the PSBT. Must be one of
    ///        "DEFAULT"
    ///        "ALL"
    ///        "NONE"
    ///        "SINGLE"
    ///        "ALL|ANYONECANPAY"
    ///        "NONE|ANYONECANPAY"
    ///        "SINGLE|ANYONECANPAY"
    pub sig_hash_type: Option<String>,
    /// Include BIP 32 derivation paths for public keys if we know them
    pub bip32derivs: Option<bool>,
    /// Also finalize inputs if possible
    pub finalize: Option<bool>,
}

impl DescriptorProcessPsbtOptions {
    /// The positional arguments these options fill, after the method's
    /// required arguments: one slot per option, in order, `null` when unset.
    pub open spec fn params_spec(self, r: Seq<JsonValue>) -> bool {
        &&& r.len() == 3
        &&& r[0] == opt_str(self.sig_hash_type)
        &&& r[1] == opt_bool(self.bip32derivs)
        &&& r[2] == opt_bool(self.finalize)
    }

    /// The positional arguments these options fill.
    pub fn to_params(self) -> (r: Vec<JsonValue>)
        ensures
            self.params_spec(r@),
    {
        let mut r: Vec<JsonValue> = Vec::new();
        let v0 = json_opt_str(self.sig_hash_type);
        r.push(v0);
        let v1 = json_opt_bool(self.bip32derivs);
        r.push(v1);
        let v2 = json_opt_bool(self.finalize);
        r.push(v2);
        r
    }
}

/// Optional parameters for the `finalizepsbt` JSON-RPC method (consumed by `Client::finalize_psbt_with`).
#[derive(Clone, Debug, Default)]
pub struct FinalizePsbtOptions {
    /// If true and the transaction is complete,
    ///                              extract and return the complete transaction in normal network serialization instead of the PSBT.
    pub extract: Option<bool>,
}

impl FinalizePsbtOptions {
    /// The positional arguments these options fill, after the method's
    /// required arguments: one slot per option, in order, `null` when unset.
    pub open spec fn params_spec(self, r: Seq<JsonValue>) -> bool {
        &&& r.len() == 1
        &&& r[0] == opt_bool(self.extract)
    }

    /// The positional arguments these options fill.
    pub fn to_params(self) -> (r: Vec<JsonValue>)
        ensures
            self.params_spec(r@),
    {
        let mut r: Vec<JsonValue> = Vec::new();
        let v0 = json_opt_bool(self.extract);
        r.push(v0);
        r
    }
}

/// Optional parameters for the `getrawtransaction` JSON-RPC method (consumed by `Client::get_raw_transaction_with`).
#[derive(Clone, Debug, Default)]
pub struct GetRawTransactionOptions {
    /// The block in which to look for the transaction
    pub block_hash: Option<String>,
}

impl GetRawTransactionOptions {
    /// The positional arguments these options fill, after the method's
    /// required arguments: one slot per option, in order, `null` when unset.
    pub open spec fn params_spec(self, r: Seq<JsonValue>) -> bool {
        &&& r.len() == 1
        &&& r[0] == opt_str(self.block_hash)
    }

    /// The positional arguments these options fill.
    pub fn to_params(self) -> (r: Vec<JsonValue>)
        ensures
            self.params_spec(r@),
    {
        let mut r: Vec<JsonValue> = Vec::new();
        let v0 = json_opt_str(self.block_hash);
        r.push(v0);
        r
    }
}

/// `abortprivatebroadcast` with required arguments only: its positional parameters.
pub open spec fn abort_private_broadcast_params_spec(id: String, r: Seq<JsonValue>) -> bool {
    &&& r.len() == 1
    &&& r[0] == JsonValue::Str(id)
}

/// `abortprivatebroadcast` with required arguments only: its positional parameters.
pub fn abort_private_broadcast_params(id: String) -> (r: Vec<JsonValue>)
    ensures
        abort_private_broadcast_params_spec(id, r@),
{
    let mut r: Vec<JsonValue> = Vec::new();
    let v0 = JsonValue::Str(id);
    r.push(v0);
    r
}

/// `analyzepsbt` with required arguments only: its positional parameters.
pub open spec fn analyze_psbt_params_spec(psbt: String, r: Seq<JsonValue>) -> bool {
    &&& r.len() == 1
    &&& r[0] == JsonValue::Str(psbt)
}

/// `analyzepsbt` with required arguments only: its positional parameters.
pub fn analyze_psbt_params(psbt: String) -> (r: Vec<JsonValue>)
    ensures
        analyze_psbt_params_spec(psbt, r@),
{
    let mut r: Vec<JsonValue> = Vec::new();
    let v0 = JsonValue::Str(psbt);
    r.push(v0);
    r
}

/// `combinepsbt` with required arguments only: its positional parameters.
pub open spec fn combine_psbt_params_spec(txs: Vec<String>, r: Seq<JsonValue>) -> bool {
    &&& r.len() == 1
    &&& is_str_array(r[0], txs@)
}

/// `combinepsbt` with required arguments only: its positional parameters.
pub fn combine_psbt_params(txs: Vec<String>) -> (r: Vec<JsonValue>)
    ensures
        combine_psbt_params_spec(txs, r@),
{
    let mut r: Vec<JsonValue> = Vec::new();
    let v0 = json_str_array(txs);
    r.push(v0);
    r
}

/// `combinerawtransaction` with required arguments only: its positional parameters.
pub open spec fn combine_raw_transaction_params_spec(txs: Vec<String>, r: Seq<JsonValue>) -> bool {
    &&& r.len() == 1
    &&& is_str_array(r[0], txs@)
}

/// `combinerawtransaction` with required arguments only: its positional parameters.
pub fn combine_raw_transaction_params(txs: Vec<String>) -> (r: Vec<JsonValue>)
    ensures
        combine_raw_transaction_params_spec(txs, r@),
{
    let mut r: Vec<JsonValue> = Vec::new();
    let v0 = json_str_array(txs);
    r.push(v0);
    r
}

/// `converttopsbt` with required arguments only: its positional parameters.
pub open spec fn convert_to_psbt_params_spec(hexstring: String, r: Seq<JsonValue>) -> bool {
    &&& r.len() == 1
    &&& r[0] == JsonValue::Str(hexstring)
}

/// `converttopsbt` with required arguments only: its positional parameters.
pub fn convert_to_psbt_params(hexstring: String) -> (r: Vec<JsonValue>)
    ensures
        convert_to_psbt_params_spec(hexstring, r@),
{
    let mut r: Vec<JsonValue> = Vec::new();
    let v0 = JsonValue::Str(hexstring);
    r.push(v0);
    r
}

/// `converttopsbt` with all optional arguments via [`ConvertToPsbtOptions`]: its positional parameters.
pub open spec fn convert_to_psbt_with_params_spec(hexstring: String, opts: ConvertToPsbtOptions, r: Seq<JsonValue>) -> bool {
    &&& r.len() == 3
    &&& r[0] == JsonValue::Str(hexstring)
    &&& opts.params_spec(r.subrange(1, 3))
}

/// `converttopsbt` with all optional arguments via [`ConvertToPsbtOptions`]: its positional parameters.
pub fn convert_to_psbt_with_params(hexstring: String, opts: ConvertToPsbtOptions) -> (r: Vec<JsonValue>)
    ensures
        convert_to_psbt_with_params_spec(hexstring, opts, r@),
{
    let mut r: Vec<JsonValue> = Vec::new();
    let v0 = JsonValue::Str(hexstring);
    r.push(v0);
    let mut tail = opts.to_params();
    r.append(&mut tail);
    r
}

/// `decodepsbt` with required arguments only: its positional parameters.
pub open spec fn decode_psbt_params_spec(psbt: String, r: Seq<JsonValue>) -> bool {
    &&& r.len() == 1
    &&& r[0] == JsonValue::Str(psbt)
}

/// `decodepsbt` with required arguments only: its positional parameters.
pub fn decode_psbt_params(psbt: String) -> (r: Vec<JsonValue>)
    ensures
        decode_psbt_params_spec(psbt, r@),
{
    let mut r: Vec<JsonValue> = Vec::new();
    let v0 = JsonValue::Str(psbt);
    r.push(v0);
    r
}

/// `decoderawtransaction` with required arguments only: its positional parameters.
pub open spec fn decode_raw_transaction_params_spec(hexstring: String, r: Seq<JsonValue>) -> bool {
    &&& r.len() == 1
    &&& r[0] == JsonValue::Str(hexstring)
}

/// `decoderawtransaction` with required arguments only: its positional parameters.
pub fn decode_raw_transaction_params(hexstring: String) -> (r: Vec<JsonValue>)
    ensures
        decode_raw_transaction_params_spec(hexstring, r@),
{
    let mut r: Vec<JsonValue> = Vec::new();
    let v0 = JsonValue::Str(hexstring);
    r.push(v0);
    r
}

/// `decoderawtransaction` with all optional arguments via [`DecodeRawTransactionOptions`]: its positional parameters.
pub open spec fn decode_raw_transaction_with_params_spec(hexstring: String, opts: DecodeRawTransactionOptions, r: Seq<JsonValue>) -> bool {
    &&& r.len() == 2
    &&& r[0] == JsonValue::Str(hexstring)
    &&& opts.params_spec(r.subrange(1, 2))
}

/// `decoderawtransaction` with all optional arguments via [`DecodeRawTransactionOptions`]: its positional parameters.
pub fn decode_raw_transaction_with_params(hexstring: String, opts: DecodeRawTransactionOptions) -> (r: Vec<JsonValue>)
    ensures
        decode_raw_transaction_with_params_spec(hexstring, opts, r@),
{
    let mut r: Vec<JsonValue> = Vec::new();
    let v0 = JsonValue::Str(hexstring);
    r.push(v0);
    let mut tail = opts.to_params();
    r.append(&mut tail);
    r
}

/// `decodescript` with required arguments only: its positional parameters.
pub open spec fn decode_script_params_spec(hexstring: String, r: Seq<JsonValue>) -> bool {
    &&& r.len() == 1
    &&& r[0] == JsonValue::Str(hexstring)
}

/// `decodescript` with required arguments only: its positional parameters.
pub fn decode_script_params(hexstring: String) -> (r: Vec<JsonValue>)
    ensures
        decode_script_params_spec(hexstring, r@),
{
    let mut r: Vec<JsonValue> = Vec::new();
    let v0 = JsonValue::Str(hexstring);
    r.push(v0);
    r
}

/// `finalizepsbt` with required arguments only: its positional parameters.
pub open spec fn finalize_psbt_params_spec(psbt: String, r: Seq<JsonValue>) -> bool {
    &&& r.len() == 1
    &&& r[0] == JsonValue::Str(psbt)
}

/// `finalizepsbt` with required arguments only: its positional parameters.
pub fn finalize_psbt_params(psbt: String) -> (r: Vec<JsonValue>)
    ensures
        finalize_psbt_params_spec(psbt, r@),
{
    let mut r: Vec<JsonValue> = Vec::new();
    let v0 = JsonValue::Str(psbt);
    r.push(v0);
    r
}

/// `finalizepsbt` with all optional arguments via [`FinalizePsbtOptions`]: its positional parameters.
pub open spec fn finalize_psbt_with_params_spec(psbt: String, opts: FinalizePsbtOptions, r: Seq<JsonValue>) -> bool {
    &&& r.len() == 2
    &&& r[0] == JsonValue::Str(psbt)
    &&& opts.params_spec(r.subrange(1, 2))
}

/// `finalizepsbt` with all optional arguments via [`FinalizePsbtOptions`]: its positional parameters.
pub fn finalize_psbt_with_params(psbt: String, opts: FinalizePsbtOptions) -> (r: Vec<JsonValue>)
    ensures
        finalize_psbt_with_params_spec(psbt, opts, r@),
{
    let mut r: Vec<JsonValue> = Vec::new();
    let v0 = JsonValue::Str(psbt);
    r.push(v0);
    let mut tail = opts.to_params();
    r.append(&mut tail);
    r
}

/// `fundrawtransaction` with required arguments only: its positional parameters.
pub open spec fn fund_raw_transaction_params_spec(hexstring: String, r: Seq<JsonValue>) -> bool {
    &&& r.len() == 1
    &&& r[0] == JsonValue::Str(hexstring)
}

/// `fundrawtransaction` with required arguments only: its positional parameters.
pub fn fund_raw_transaction_params(hexstring: String) -> (r: Vec<JsonValue>)
    ensures
        fund_raw_transaction_params_spec(hexstring, r@),
{
    let mut r: Vec<JsonValue> = Vec::new();
    let v0 = JsonValue::Str(hexstring);
    r.push(v0);
    r
}

/// `getprivatebroadcastinfo` with required arguments only: its positional parameters.
pub open spec fn get_private_broadcast_info_params_spec(r: Seq<JsonValue>) -> bool {
    &&& r.len() == 0
}

/// `getprivatebroadcastinfo` with required arguments only: its positional parameters.
pub fn get_private_broadcast_info_params() -> (r: Vec<JsonValue>)
    ensures
        get_private_broadcast_info_params_spec(r@),
{
    let mut r: Vec<JsonValue> = Vec::new();
    r
}

/// `getrawtransaction` with the result selected for verbosity `0`: its positional parameters.
pub open spec fn get_raw_transaction_verbose_0_params_spec(txid: String, r: Seq<JsonValue>) -> bool {
    &&& r.len() == 3
    &&& r[0] == JsonValue::Str(txid)
    &&& r[1] == JsonValue::Int(0)
    &&& r[2] == JsonValue::Null
}

/// `getrawtransaction` with the result selected for verbosity `0`: its positional parameters.
pub fn get_raw_transaction_verbose_0_params(txid: String) -> (r: Vec<JsonValue>)
    ensures
        get_raw_transaction_verbose_0_params_spec(txid, r@),
{
    let mut r: Vec<JsonValue> = Vec::new();
    let v0 = JsonValue::Str(txid);
    r.push(v0);
    r.push(JsonValue::Int(0));
    r.push(JsonValue::Null);
    r
}

/// `getrawtransaction` with the result selected for verbosity `0`. With all optional arguments via [`GetRawTransactionOptions`]: its positional parameters.
pub open spec fn get_raw_transaction_verbose_0_with_params_spec(txid: String, opts: GetRawTransactionOptions, r: Seq<JsonValue>) -> bool {
    &&& r.len() == 3
    &&& r[0] == JsonValue::Str(txid)
    &&& r[1] == JsonValue::Int(0)
    &&& opts.params_spec(r.subrange(2, 3))
}

/// `getrawtransaction` with the result selected for verbosity `0`. With all optional arguments via [`GetRawTransactionOptions`]: its positional parameters.
pub fn get_raw_transaction_verbose_0_with_params(txid: String, opts: GetRawTransactionOptions) -> (r: Vec<JsonValue>)
    ensures
        get_raw_transaction_verbose_0_with_params_spec(txid, opts, r@),
{
    let mut r: Vec<JsonValue> = Vec::new();
    let v0 = JsonValue::Str(txid);
    r.push(v0);
    r.push(JsonValue::Int(0));
    let mut tail = opts.to_params();
    r.append(&mut tail);
    r
}

/// `getrawtransaction` with the result selected for verbosity `1`: its positional parameters.
pub open spec fn get_raw_transaction_verbose_1_params_spec(txid: String, r: Seq<JsonValue>) -> bool {
    &&& r.len() == 3
    &&& r[0] == JsonValue::Str(txid)
    &&& r[1] == JsonValue::Int(1)
    &&& r[2] == JsonValue::Null
}

/// `getrawtransaction` with the result selected for verbosity `1`: its positional parameters.
pub fn get_raw_transaction_verbose_1_params(txid: String) -> (r: Vec<JsonValue>)
    ensures
        get_raw_transaction_verbose_1_params_spec(txid, r@),
{
    let mut r: Vec<JsonValue> = Vec::new();
    let v0 = JsonValue::Str(txid);
    r.push(v0);
    r.push(JsonValue::Int(1));
    r.push(JsonValue::Null);
    r
}

/// `getrawtransaction` with the result selected for verbosity `1`. With all optional arguments via [`GetRawTransactionOptions`]: its positional parameters.
pub open spec fn get_raw_transaction_verbose_1_with_params_spec(txid: String, opts: GetRawTransactionOptions, r: Seq<JsonValue>) -> bool {
    &&& r.len() == 3
    &&& r[0] == JsonValue::Str(txid)
    &&& r[1] == JsonValue::Int(1)
    &&& opts.params_spec(r.subrange(2, 3))
}

/// `getrawtransaction` with the result selected for verbosity `1`. With all optional arguments via [`GetRawTransactionOptions`]: its positional parameters.
pub fn get_raw_transaction_verbose_1_with_params(txid: String, opts: GetRawTransactionOptions) -> (r: Vec<JsonValue>)
    ensures
        get_raw_transaction_verbose_1_with_params_spec(txid, opts, r@),
{
    let mut r: Vec<JsonValue> = Vec::new();
    let v0 = JsonValue::Str(txid);
    r.push(v0);
    r.push(JsonValue::Int(1));
    let mut tail = opts.to_params();
    r.append(&mut tail);
    r
}

/// `getrawtransaction` with the result selected for verbosity `2`: its positional parameters.
pub open spec fn get_raw_transaction_verbose_2_params_spec(txid: String, r: Seq<JsonValue>) -> bool {
    &&& r.len() == 3
    &&& r[0] == JsonValue::Str(txid)
    &&& r[1] == JsonValue::Int(2)
    &&& r[2] == JsonValue::Null
}

/// `getrawtransaction` with the result selected for verbosity `2`: its positional parameters.
pub fn get_raw_transaction_verbose_2_params(txid: String) -> (r: Vec<JsonValue>)
    ensures
        get_raw_transaction_verbose_2_params_spec(txid, r@),
{
    let mut r: Vec<JsonValue> = Vec::new();
    let v0 = JsonValue::Str(txid);
    r.push(v0);
    r.push(JsonValue::Int(2));
    r.push(JsonValue::Null);
    r
}

/// `getrawtransaction` with the result selected for verbosity `2`. With all optional arguments via [`GetRawTransactionOptions`]: its positional parameters.
pub open spec fn get_raw_transaction_verbose_2_with_params_spec(txid: String, opts: GetRawTransactionOptions, r: Seq<JsonValue>) -> bool {
    &&& r.len() == 3
    &&& r[0] == JsonValue::Str(txid)
    &&& r[1] == JsonValue::Int(2)
    &&& opts.params_spec(r.subrange(2, 3))
}

/// `getrawtransaction` with the result selected for verbosity `2`. With all optional arguments via [`GetRawTransactionOptions`]: its positional parameters.
pub fn get_raw_transaction_verbose_2_with_params(txid: String, opts: GetRawTransactionOptions) -> (r: Vec<JsonValue>)
    ensures
        get_raw_transaction_verbose_2_with_params_spec(txid, opts, r@),
{
    let mut r: Vec<JsonValue> = Vec::new();
    let v0 = JsonValue::Str(txid);
    r.push(v0);
    r.push(JsonValue::Int(2));
    let mut tail = opts.to_params();
    r.append(&mut tail);
    r
}

/// `joinpsbts` with required arguments only: its positional parameters.
pub open spec fn join_psbts_params_spec(txs: Vec<String>, r: Seq<JsonValue>) -> bool {
    &&& r.len() == 1
    &&& is_str_array(r[0], txs@)
}

/// `joinpsbts` with required arguments only: its positional parameters.
pub fn join_psbts_params(txs: Vec<String>) -> (r: Vec<JsonValue>)
    ensures
        join_psbts_params_spec(txs, r@),
{
    let mut r: Vec<JsonValue> = Vec::new();
    let v0 = json_str_array(txs);
    r.push(v0);
    r
}

/// `sendrawtransaction` with required arguments only: its positional parameters.
pub open spec fn send_raw_transaction_params_spec(hexstring: String, r: Seq<JsonValue>) -> bool {
    &&& r.len() == 1
    &&& r[0] == JsonValue::Str(hexstring)
}

/// `sendrawtransaction` with required arguments only: its positional parameters.
pub fn send_raw_transaction_params(hexstring: String) -> (r: Vec<JsonValue>)
    ensures
        send_raw_transaction_params_spec(hexstring, r@),
{
    let mut r: Vec<JsonValue> = Vec::new();
    let v0 = JsonValue::Str(hexstring);
    r.push(v0);
    r
}

/// `signrawtransactionwithkey` with required arguments only: its positional parameters.
pub open spec fn sign_raw_transaction_with_key_params_spec(hexstring: String, priv_keys: Vec<String>, r: Seq<JsonValue>) -> bool {
    &&& r.len() == 2
    &&& r[0] == JsonValue::Str(hexstring)
    &&& is_str_array(r[1], priv_keys@)
}

/// `signrawtransactionwithkey` with required arguments only: its positional parameters.
pub fn sign_raw_transaction_with_key_params(hexstring: String, priv_keys: Vec<String>) -> (r: Vec<JsonValue>)
    ensures
        sign_raw_transaction_with_key_params_spec(hexstring, priv_keys, r@),
{
    let mut r: Vec<JsonValue> = Vec::new();
    let v0 = JsonValue::Str(hexstring);
    r.push(v0);
    let v1 = json_str_array(priv_keys);
    r.push(v1);
    r
}

/// `submitpackage` with required arguments only: its positional parameters.
pub open spec fn submit_package_params_spec(package: Vec<String>, r: Seq<JsonValue>) -> bool {
    &&& r.len() == 1
    &&& is_str_array(r[0], package@)
}

/// `submitpackage` with required arguments only: its positional parameters.
pub fn submit_package_params(package: Vec<String>) -> (r: Vec<JsonValue>)
    ensures
        submit_package_params_spec(package, r@),
{
    let mut r: Vec<JsonValue> = Vec::new();
    let v0 = json_str_array(package);
    r.push(v0);
    r
}

/// `testmempoolaccept` with required arguments only: its positional parameters.
pub open spec fn test_mempool_accept_params_spec(raw_txs: Vec<String>, r: Seq<JsonValue>) -> bool {
    &&& r.len() == 1
    &&& is_str_array(r[0], raw_txs@)
}

/// `testmempoolaccept` with required arguments only: its positional parameters.
pub fn test_mempool_accept_params(raw_txs: Vec<String>) -> (r: Vec<JsonValue>)
    ensures
        test_mempool_accept_params_spec(raw_txs, r@),
{
    let mut r: Vec<JsonValue> = Vec::new();
    let v0 = json_str_array(raw_txs);
    r.push(v0);
    r
}

/// `utxoupdatepsbt` with required arguments only: its positional parameters.
pub open spec fn utxo_update_psbt_params_spec(psbt: String, r: Seq<JsonValue>) -> bool {
    &&& r.len() == 1
    &&& r[0] == JsonValue::Str(psbt)
}

/// `utxoupdatepsbt` with required arguments only: its positional parameters.
pub fn utxo_update_psbt_params(psbt: String) -> (r: Vec<JsonValue>)
    ensures
        utxo_update_psbt_params_spec(psbt, r@),
{
    let mut r: Vec<JsonValue> = Vec::new();
    let v0 = JsonValue::Str(psbt);
    r.push(v0);
    r
}

/// The methods that take no arguments send no parameters at all.
pub proof fn lemma_argumentless_requests_send_nothing()
    ensures
        forall|r: Seq<JsonValue>| #[trigger] get_private_broadcast_info_params_spec(r) ==> r.len() == 0,
{
}

/// `abortprivatebroadcast` sends, in Core's argument order: `id`.
pub proof fn lemma_abort_private_broadcast_request(id: String, r: Seq<JsonValue>)
    requires
        abort_private_broadcast_params_spec(id, r),
    ensures
        r.len() == 1,
        r[0] == JsonValue::Str(id),
{
}

/// `analyzepsbt` sends, in Core's argument order: `psbt`.
pub proof fn lemma_analyze_psbt_request(psbt: String, r: Seq<JsonValue>)
    requires
        analyze_psbt_params_spec(psbt, r),
    ensures
        r.len() == 1,
        r[0] == JsonValue::Str(psbt),
{
}

/// `combinepsbt` sends, in Core's argument order: `txs`.
pub proof fn lemma_combine_psbt_request(txs: Vec<String>, r: Seq<JsonValue>)
    requires
        combine_psbt_params_spec(txs, r),
    ensures
        r.len() == 1,
        is_str_array(r[0], txs@),
{
}

/// `combinerawtransaction` sends, in Core's argument order: `txs`.
pub proof fn lemma_combine_raw_transaction_request(txs: Vec<String>, r: Seq<JsonValue>)
    requires
        combine_raw_transaction_params_spec(txs, r),
    ensures
        r.len() == 1,
        is_str_array(r[0], txs@),
{
}

/// `converttopsbt` sends, in Core's argument order: `hexstring`.
pub proof fn lemma_convert_to_psbt_request(hexstring: String, r: Seq<JsonValue>)
    requires
        convert_to_psbt_params_spec(hexstring, r),
    ensures
        r.len() == 1,
        r[0] == JsonValue::Str(hexstring),
{
}

/// `converttopsbt` sends, in Core's argument order: `hexstring`, `permitsig_data`, `is_witness`.
pub proof fn lemma_convert_to_psbt_with_request(hexstring: String, opts: ConvertToPsbtOptions, r: Seq<JsonValue>)
    requires
        convert_to_psbt_with_params_spec(hexstring, opts, r),
    ensures
        r.len() == 3,
        r[0] == JsonValue::Str(hexstring),
        r[1] == opt_bool(opts.permitsig_data),
        r[2] == opt_bool(opts.is_witness),
{
}

/// `decodepsbt` sends, in Core's argument order: `psbt`.
pub proof fn lemma_decode_psbt_request(psbt: String, r: Seq<JsonValue>)
    requires
        decode_psbt_params_spec(psbt, r),
    ensures
        r.len() == 1,
        r[0] == JsonValue::Str(psbt),
{
}

/// `decoderawtransaction` sends, in Core's argument order: `hexstring`.
pub proof fn lemma_decode_raw_transaction_request(hexstring: String, r: Seq<JsonValue>)
    requires
        decode_raw_transaction_params_spec(hexstring, r),
    ensures
        r.len() == 1,
        r[0] == JsonValue::Str(hexstring),
{
}

/// `decoderawtransaction` sends, in Core's argument order: `hexstring`, `is_witness`.
pub proof fn lemma_decode_raw_transaction_with_request(hexstring: String, opts: DecodeRawTransactionOptions, r: Seq<JsonValue>)
    requires
        decode_raw_transaction_with_params_spec(hexstring, opts, r),
    ensures
        r.len() == 2,
        r[0] == JsonValue::Str(hexstring),
        r[1] == opt_bool(opts.is_witness),
{
}

/// `decodescript` sends, in Core's argument order: `hexstring`.
pub proof fn lemma_decode_script_request(hexstring: String, r: Seq<JsonValue>)
    requires
        decode_script_params_spec(hexstring, r),
    ensures
        r.len() == 1,
        r[0] == JsonValue::Str(hexstring),
{
}

/// `finalizepsbt` sends, in Core's argument order: `psbt`.
pub proof fn lemma_finalize_psbt_request(psbt: String, r: Seq<JsonValue>)
    requires
        finalize_psbt_params_spec(psbt, r),
    ensures
        r.len() == 1,
        r[0] == JsonValue::Str(psbt),
{
}

/// `finalizepsbt` sends, in Core's argument order: `psbt`, `extract`.
pub proof fn lemma_finalize_psbt_with_request(psbt: String, opts: FinalizePsbtOptions, r: Seq<JsonValue>)
    requires
        finalize_psbt_with_params_spec(psbt, opts, r),
    ensures
        r.len() == 2,
        r[0] == JsonValue::Str(psbt),
        r[1] == opt_bool(opts.extract),
{
}

/// `fundrawtransaction` sends, in Core's argument order: `hexstring`.
pub proof fn lemma_fund_raw_transaction_request(hexstring: String, r: Seq<JsonValue>)
    requires
        fund_raw_transaction_params_spec(hexstring, r),
    ensures
        r.len() == 1,
        r[0] == JsonValue::Str(hexstring),
{
}

/// `getrawtransaction` asked for verbosity `0` sends, in Core's argument order: `txid`, `0`, `null`.
pub proof fn lemma_get_raw_transaction_verbose_0_request(txid: String, r: Seq<JsonValue>)
    requires
        get_raw_transaction_verbose_0_params_spec(txid, r),
    ensures
        r.len() == 3,
        r[0] == JsonValue::Str(txid),
        r[1] == JsonValue::Int(0),
        r[2] == JsonValue::Null,
{
}

/// `getrawtransaction` asked for verbosity `0` sends, in Core's argument order: `txid`, `0`, `block_hash`.
pub proof fn lemma_get_raw_transaction_verbose_0_with_request(txid: String, opts: GetRawTransactionOptions, r: Seq<JsonValue>)
    requires
        get_raw_transaction_verbose_0_with_params_spec(txid, opts, r),
    ensures
        r.len() == 3,
        r[0] == JsonValue::Str(txid),
        r[1] == JsonValue::Int(0),
        r[2] == opt_str(opts.block_hash),
{
}

/// `getrawtransaction` asked for verbosity `1` sends, in Core's argument order: `txid`, `1`, `null`.
pub proof fn lemma_get_raw_transaction_verbose_1_request(txid: String, r: Seq<JsonValue>)
    requires
        get_raw_transaction_verbose_1_params_spec(txid, r),
    ensures
        r.len() == 3,
        r[0] == JsonValue::Str(txid),
        r[1] == JsonValue::Int(1),
        r[2] == JsonValue::Null,
{
}

/// `getrawtransaction` asked for verbosity `1` sends, in Core's argument order: `txid`, `1`, `block_hash`.
pub proof fn lemma_get_raw_transaction_verbose_1_with_request(txid: String, opts: GetRawTransactionOptions, r: Seq<JsonValue>)
    requires
        get_raw_transaction_verbose_1_with_params_spec(txid, opts, r),
    ensures
        r.len() == 3,
        r[0] == JsonValue::Str(txid),
        r[1] == JsonValue::Int(1),
        r[2] == opt_str(opts.block_hash),
{
}

/// `getrawtransaction` asked for verbosity `2` sends, in Core's argument order: `txid`, `2`, `null`.
pub proof fn lemma_get_raw_transaction_verbose_2_request(txid: String, r: Seq<JsonValue>)
    requires
        get_raw_transaction_verbose_2_params_spec(txid, r),
    ensures
        r.len() == 3,
        r[0] == JsonValue::Str(txid),
        r[1] == JsonValue::Int(2),
        r[2] == JsonValue::Null,
{
}

/// `getrawtransaction` asked for verbosity `2` sends, in Core's argument order: `txid`, `2`, `block_hash`.
pub proof fn lemma_get_raw_transaction_verbose_2_with_request(txid: String, opts: GetRawTransactionOptions, r: Seq<JsonValue>)
    requires
        get_raw_transaction_verbose_2_with_params_spec(txid, opts, r),
    ensures
        r.len() == 3,
        r[0] == JsonValue::Str(txid),
        r[1] == JsonValue::Int(2),
        r[2] == opt_str(opts.block_hash),
{
}

/// `joinpsbts` sends, in Core's argument order: `txs`.
pub proof fn lemma_join_psbts_request(txs: Vec<String>, r: Seq<JsonValue>)
    requires
        join_psbts_params_spec(txs, r),
    ensures
        r.len() == 1,
        is_str_array(r[0], txs@),
{
}

/// `sendrawtransaction` sends, in Core's argument order: `hexstring`.
pub proof fn lemma_send_raw_transaction_request(hexstring: String, r: Seq<JsonValue>)
    requires
        send_raw_transaction_params_spec(hexstring, r),
    ensures
        r.len() == 1,
        r[0] == JsonValue::Str(hexstring),
{
}

/// `signrawtransactionwithkey` sends, in Core's argument order: `hexstring`, `priv_keys`.
pub proof fn lemma_sign_raw_transaction_with_key_request(hexstring: String, priv_keys: Vec<String>, r: Seq<JsonValue>)
    requires
        sign_raw_transaction_with_key_params_spec(hexstring, priv_keys, r),
    ensures
        r.len() == 2,
        r[0] == JsonValue::Str(hexstring),
        is_str_array(r[1], priv_keys@),
{
}

/// `submitpackage` sends, in Core's argument order: `package`.
pub proof fn lemma_submit_package_request(package: Vec<String>, r: Seq<JsonValue>)
    requires
        submit_package_params_spec(package, r),
    ensures
        r.len() == 1,
        is_str_array(r[0], package@),
{
}

/// `testmempoolaccept` sends, in Core's argument order: `raw_txs`.
pub proof fn lemma_test_mempool_accept_request(raw_txs: Vec<String>, r: Seq<JsonValue>)
    requires
        test_mempool_accept_params_spec(raw_txs, r),
    ensures
        r.len() == 1,
        is_str_array(r[0], raw_txs@),
{
}

/// `utxoupdatepsbt` sends, in Core's argument order: `psbt`.
pub proof fn lemma_utxo_update_psbt_request(psbt: String, r: Seq<JsonValue>)
    requires
        utxo_update_psbt_params_spec(psbt, r),
    ensures
        r.len() == 1,
        r[0] == JsonValue::Str(psbt),
{
}

/// The options of `converttopsbt` fill its optional arguments in Core's order: `permitsig_data`, `is_witness`.
pub proof fn lemma_convert_to_psbt_options_slots(o: ConvertToPsbtOptions, r: Seq<JsonValue>)
    requires
        o.params_spec(r),
    ensures
        r.len() == 2,
        r[0] == opt_bool(o.permitsig_data),
        r[1] == opt_bool(o.is_witness),
{
}

/// The options of `decoderawtransaction` fill its optional arguments in Core's order: `is_witness`.
pub proof fn lemma_decode_raw_transaction_options_slots(o: DecodeRawTransactionOptions, r: Seq<JsonValue>)
    requires
        o.params_spec(r),
    ensures
        r.len() == 1,
        r[0] == opt_bool(o.is_witness),
{
}

/// The options of `finalizepsbt` fill its optional arguments in Core's order: `extract`.
pub proof fn lemma_finalize_psbt_options_slots(o: FinalizePsbtOptions, r: Seq<JsonValue>)
    requires
        o.params_spec(r),
    ensures
        r.len() == 1,
        r[0] == opt_bool(o.extract),
{
}

/// The options of `getrawtransaction` fill its optional arguments in Core's order: `block_hash`.
pub proof fn lemma_get_raw_transaction_options_slots(o: GetRawTransactionOptions, r: Seq<JsonValue>)
    requires
        o.params_spec(r),
    ensures
        r.len() == 1,
        r[0] == opt_str(o.block_hash),
{
}

/// [`CreatePsbtInputs`] is sent as a JSON object whose members are, in order: `sequence` (when set), `txid`, `vout`.
pub proof fn lemma_create_psbt_inputs_members(o: CreatePsbtInputs, j: JsonValue)
    requires
        o.is_json(j),
    ensures
        j is Object,
        j->Object_0@.len() == 2 + count(o.sequence is Some),
        o.sequence matches Some(x) ==> (j->Object_0@[0].key@ == "sequence"@ && j->Object_0@[0].value == JsonValue::Int(x)),
        j->Object_0@[count(o.sequence is Some)].key@ == "txid"@,
        j->Object_0@[count(o.sequence is Some)].value == JsonValue::Str(o.txid),
        j->Object_0@[1 + count(o.sequence is Some)].key@ == "vout"@,
        j->Object_0@[1 + count(o.sequence is Some)].value == JsonValue::Int(o.vout),
{
}

/// [`CreatePsbtOutputsVariant1`] is sent as a JSON object whose members are, in order: `data`.
pub proof fn lemma_create_psbt_outputs_variant1_members(o: CreatePsbtOutputsVariant1, j: JsonValue)
    requires
        o.is_json(j),
    ensures
        j is Object,
        j->Object_0@.len() == 1,
        j->Object_0@[0].key@ == "data"@,
        j->Object_0@[0].value == JsonValue::Str(o.data),
{
}

/// [`CreateRawTransactionInputs`] is sent as a JSON object whose members are, in order: `sequence` (when set), `txid`, `vout`.
pub proof fn lemma_create_raw_transaction_inputs_members(o: CreateRawTransactionInputs, j: JsonValue)
    requires
        o.is_json(j),
    ensures
        j is Object,
        j->Object_0@.len() == 2 + count(o.sequence is Some),
        o.sequence matches Some(x) ==> (j->Object_0@[0].key@ == "sequence"@ && j->Object_0@[0].value == JsonValue::Int(x)),
        j->Object_0@[count(o.sequence is Some)].key@ == "txid"@,
        j->Object_0@[count(o.sequence is Some)].value == JsonValue::Str(o.txid),
        j->Object_0@[1 + count(o.sequence is Some)].key@ == "vout"@,
        j->Object_0@[1 + count(o.sequence is Some)].value == JsonValue::Int(o.vout),
{
}

/// [`CreateRawTransactionOutputsVariant1`] is sent as a JSON object whose members are, in order: `data`.
pub proof fn lemma_create_raw_transaction_outputs_variant1_members(o: CreateRawTransactionOutputsVariant1, j: JsonValue)
    requires
        o.is_json(j),
    ensures
        j is Object,
        j->Object_0@.len() == 1,
        j->Object_0@[0].key@ == "data"@,
        j->Object_0@[0].value == JsonValue::Str(o.data),
{
}

/// [`FundRawTransactionOptionsArgInputWeightsItem`] is sent as a JSON object whose members are, in order: `txid`, `vout`, `weight`.
pub proof fn lemma_fund_raw_transaction_options_arg_input_weights_item_members(o: FundRawTransactionOptionsArgInputWeightsItem, j: JsonValue)
    requires
        o.is_json(j),
    ensures
        j is Object,
        j->Object_0@.len() == 3,
        j->Object_0@[0].key@ == "txid"@,
        j->Object_0@[0].value == JsonValue::Str(o.txid),
        j->Object_0@[1].key@ == "vout"@,
        j->Object_0@[1].value == JsonValue::Int(o.vout),
        j->Object_0@[2].key@ == "weight"@,
        j->Object_0@[2].value == JsonValue::Int(o.weight),
{
}

/// [`FundRawTransactionOptionsArgSolvingData`] is sent as a JSON object whose members are, in order: `descriptors` (when set), `pubkeys` (when set), `scripts` (when set).
pub proof fn lemma_fund_raw_transaction_options_arg_solving_data_members(o: FundRawTransactionOptionsArgSolvingData, j: JsonValue)
    requires
        o.is_json(j),
    ensures
        j is Object,
        j->Object_0@.len() == count(o.descriptors is Some) + count(o.pubkeys is Some) + count(o.scripts is Some),
        o.descriptors matches Some(x) ==> (j->Object_0@[0].key@ == "descriptors"@ && is_str_array(j->Object_0@[0].value, x@)),
        o.pubkeys matches Some(x) ==> (j->Object_0@[count(o.descriptors is Some)].key@ == "pubkeys"@ && is_str_array(j->Object_0@[count(o.descriptors is Some)].value, x@)),
        o.scripts matches Some(x) ==> (j->Object_0@[count(o.descriptors is Some) + count(o.pubkeys is Some)].key@ == "scripts"@ && is_str_array(j->Object_0@[count(o.descriptors is Some) + count(o.pubkeys is Some)].value, x@)),
{
}

} // verus!
