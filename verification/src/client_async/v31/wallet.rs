//! Options of the wallet RPC methods.

use vstd::prelude::*;

use crate::client_async::json::{JsonValue, JsonMember, opt_bool, opt_int, opt_str, is_str_array, is_int_array, count, json_str_array, json_int_array, json_opt_bool, json_opt_int, json_opt_str, member};

verus! {

#[derive(Clone, Debug, PartialEq)]
pub struct BumpFeeOptionsOutputsVariant1 {
    /// A key-value pair. The key must be "data", the value is hex-encoded data that becomes a part of an OP_RETURN output
    pub data: String,
}

impl BumpFeeOptionsOutputsVariant1 {
    /// `j` is the JSON object of these fields, in order; a field marked
    /// optional is left out when unset.
    pub open spec fn is_json(self, j: JsonValue) -> bool {
        &&& j is Object
        &&& j->Object_0@.len() == 1int
        &&& j->Object_0@[0int].key@ == "data"@
        &&& j->Object_0@[0int].value == JsonValue::Str(self.data)
    }

    /// The JSON object of these fields.
    pub fn to_json(self) -> (j: JsonValue)
        ensures
            self.is_json(j),
    {
        let ghost old_self = self;
        let mut ms: Vec<JsonMember> = Vec::new();
        let v0 = JsonValue::Str(self.data);
        ms.push(member("data", v0));
        assert(ms@.len() == 1int);
        JsonValue::Object(ms)
    }
}

#[derive(Clone, Debug, PartialEq)]
pub struct LockUnspentTransactions {
    /// The transaction id
    pub txid: String,
    /// The output number
    pub vout: i64,
}

impl LockUnspentTransactions {
    /// `j` is the JSON object of these fields, in order; a field marked
    /// optional is left out when unset.
    pub open spec fn is_json(self, j: JsonValue) -> bool {
        &&& j is Object
        &&& j->Object_0@.len() == 1int + 1int
        &&& j->Object_0@[0int].key@ == "txid"@
        &&& j->Object_0@[0int].value == JsonValue::Str(self.txid)
        &&& j->Object_0@[1int].key@ == "vout"@
        &&& j->Object_0@[1int].value == JsonValue::Int(self.vout)
    }

    /// The JSON object of these fields.
    pub fn to_json(self) -> (j: JsonValue)
        ensures
            self.is_json(j),
    {
        let ghost old_self = self;
        let mut ms: Vec<JsonMember> = Vec::new();
        let v0 = JsonValue::Str(self.txid);
        ms.push(member("txid", v0));
        assert(ms@.len() == 1int);
        let v1 = JsonValue::Int(self.vout);
        ms.push(member("vout", v1));
        assert(ms@.len() == 1int + 1int);
        JsonValue::Object(ms)
    }

    /// `j` is the JSON array of the objects of `xs`, in order.
    pub open spec fn is_json_array(j: JsonValue, xs: Seq<LockUnspentTransactions>) -> bool {
        &&& j is Array
        &&& j->Array_0@.len() == xs.len()
        &&& forall|i: int| 0 <= i < xs.len() ==> #[trigger] xs[i].is_json(j->Array_0@[i])
    }

    /// The JSON array of the objects of `xs`, in order.
    pub fn array_to_json(xs: Vec<LockUnspentTransactions>) -> (j: JsonValue)
        ensures
            Self::is_json_array(j, xs@),
    {
        let ghost all = xs@;
        let mut rest = xs;
        let mut out: Vec<JsonValue> = Vec::new();
        while rest.len() > 0
            invariant
                out@.len() + rest@.len() == all.len(),
                rest@ == all.subrange(out@.len() as int, all.len() as int),
                forall|i: int| 0 <= i < out@.len() ==> #[trigger] all[i].is_json(out@[i]),
            decreases rest@.len(),
        {
            let x = rest.remove(0);
            let v = x.to_json();
            out.push(v);
            assert(rest@ =~= all.subrange(out@.len() as int, all.len() as int));
        }
        JsonValue::Array(out)
    }
}

#[derive(Clone, Debug, PartialEq)]
pub struct PsbtBumpFeeOptionsOutputsVariant1 {
    /// A key-value pair. The key must be "data", the value is hex-encoded data that becomes a part of an OP_RETURN output
    pub data: String,
}

impl PsbtBumpFeeOptionsOutputsVariant1 {
    /// `j` is the JSON object of these fields, in order; a field marked
    /// optional is left out when unset.
    pub open spec fn is_json(self, j: JsonValue) -> bool {
        &&& j is Object
        &&& j->Object_0@.len() == 1int
        &&& j->Object_0@[0int].key@ == "data"@
        &&& j->Object_0@[0int].value == JsonValue::Str(self.data)
    }

    /// The JSON object of these fields.
    pub fn to_json(self) -> (j: JsonValue)
        ensures
            self.is_json(j),
    {
        let ghost old_self = self;
        let mut ms: Vec<JsonMember> = Vec::new();
        let v0 = JsonValue::Str(self.data);
        ms.push(member("data", v0));
        assert(ms@.len() == 1int);
        JsonValue::Object(ms)
    }
}

#[derive(Clone, Debug, PartialEq)]
pub struct SendAllOptionsArgInputsItem {
    /// The sequence number
    pub sequence: Option<i64>,
    /// The transaction id
    pub txid: String,
    /// The output number
    pub vout: i64,
}

impl SendAllOptionsArgInputsItem {
    /// `j` is the JSON object of these fields, in order; a field marked
    /// optional is left out when unset.
    pub open spec fn is_json(self, j: JsonValue) -> bool {
        &&& j is Object
        &&& j->Object_0@.len() == count(self.sequence is Some) + 1int + 1int
        &&& (self.sequence matches Some(x) ==> (j->Object_0@[0int].key@ == "sequence"@ && j->Object_0@[0int].value == JsonValue::Int(x)))
        &&& j->Object_0@[count(self.sequence is Some)].key@ == "txid"@
        &&& j->Object_0@[count(self.sequence is Some)].value == JsonValue::Str(self.txid)
        &&& j->Object_0@[count(self.sequence is Some) + 1int].key@ == "vout"@
        &&& j->Object_0@[count(self.sequence is Some) + 1int].value == JsonValue::Int(self.vout)
    }

    /// The JSON object of these fields.
    pub fn to_json(self) -> (j: JsonValue)
        ensures
            self.is_json(j),
    {
        let ghost old_self = self;
        let mut ms: Vec<JsonMember> = Vec::new();
        match self.sequence {
            Some(x) => {
                let v0 = JsonValue::Int(x);
                ms.push(member("sequence", v0));
            },
            None => {},
        }
        assert(ms@.len() == count(old_self.sequence is Some));
        let v1 = JsonValue::Str(self.txid);
        ms.push(member("txid", v1));
        assert(ms@.len() == count(old_self.sequence is Some) + 1int);
        let v2 = JsonValue::Int(self.vout);
        ms.push(member("vout", v2));
        assert(ms@.len() == count(old_self.sequence is Some) + 1int + 1int);
        JsonValue::Object(ms)
    }

    /// `j` is the JSON array of the objects of `xs`, in order.
    pub open spec fn is_json_array(j: JsonValue, xs: Seq<SendAllOptionsArgInputsItem>) -> bool {
        &&& j is Array
        &&& j->Array_0@.len() == xs.len()
        &&& forall|i: int| 0 <= i < xs.len() ==> #[trigger] xs[i].is_json(j->Array_0@[i])
    }

    /// The JSON array of the objects of `xs`, in order.
    pub fn array_to_json(xs: Vec<SendAllOptionsArgInputsItem>) -> (j: JsonValue)
        ensures
            Self::is_json_array(j, xs@),
    {
        let ghost all = xs@;
        let mut rest = xs;
        let mut out: Vec<JsonValue> = Vec::new();
        while rest.len() > 0
            invariant
                out@.len() + rest@.len() == all.len(),
                rest@ == all.subrange(out@.len() as int, all.len() as int),
                forall|i: int| 0 <= i < out@.len() ==> #[trigger] all[i].is_json(out@[i]),
            decreases rest@.len(),
        {
            let x = rest.remove(0);
            let v = x.to_json();
            out.push(v);
            assert(rest@ =~= all.subrange(out@.len() as int, all.len() as int));
        }
        JsonValue::Array(out)
    }
}

/// Keys and scripts needed for producing a final transaction with a dummy signature.
/// Used for fee estimation during coin selection.
#[derive(Clone, Debug, PartialEq)]
pub struct SendAllOptionsArgSolvingData {
    /// Descriptors that provide solving data for this transaction.
    pub descriptors: Option<Vec<String>>,
    /// Public keys involved in this transaction.
    pub pubkeys: Option<Vec<String>>,
    /// Scripts involved in this transaction.
    pub scripts: Option<Vec<String>>,
}

impl SendAllOptionsArgSolvingData {
    /// `j` is the JSON object of these fields, in order; a field marked
    /// optional is left out when unset.
    pub open spec fn is_json(self, j: JsonValue) -> bool {
        &&& j is Object
        &&& j->Object_0@.len() == count(self.descriptors is Some) + count(self.pubkeys is Some) + count(self.scripts is Some)
        &&& (self.descriptors matches Some(x) ==> (j->Object_0@[0int].key@ == "descriptors"@ && is_str_array(j->Object_0@[0int].value, x@)))
        &&& (self.pubkeys matches Some(x) ==> (j->Object_0@[count(self.descriptors is Some)].key@ == "pubkeys"@ && is_str_array(j->Object_0@[count(self.descriptors is Some)].value, x@)))
        &&& (self.scripts matches Some(x) ==> (j->Object_0@[count(self.descriptors is Some) + count(self.pubkeys is Some)].key@ == "scripts"@ && is_str_array(j->Object_0@[count(self.descriptors is Some) + count(self.pubkeys is Some)].value, x@)))
    }

    /// The JSON object of these fields.
    pub fn to_json(self) -> (j: JsonValue)
        ensures
            self.is_json(j),
    {
        let ghost old_self = self;
        let mut ms: Vec<JsonMember> = Vec::new();
        match self.descriptors {
            Some(x) => {
                let v0 = json_str_array(x);
                ms.push(member("descriptors", v0));
            },
            None => {},
        }
        assert(ms@.len() == count(old_self.descriptors is Some));
        match self.pubkeys {
            Some(x) => {
                let v1 = json_str_array(x);
                ms.push(member("pubkeys", v1));
            },
            None => {},
        }
        assert(ms@.len() == count(old_self.descriptors is Some) + count(old_self.pubkeys is Some));
        match self.scripts {
            Some(x) => {
                let v2 = json_str_array(x);
                ms.push(member("scripts", v2));
            },
            None => {},
        }
        assert(ms@.len() == count(old_self.descriptors is Some) + count(old_self.pubkeys is Some) + count(old_self.scripts is Some));
        JsonValue::Object(ms)
    }
}

#[derive(Clone, Debug, PartialEq)]
pub struct SendResultOptionsArgInputsItem {
    /// The sequence number
    pub sequence: Option<i64>,
    /// The transaction id
    pub txid: String,
    /// The output number
    pub vout: i64,
    /// The maximum weight for this input, including the weight of the outpoint and sequence number. Note that signature sizes are not guaranteed to be consistent, so the maximum DER signatures size of 73 bytes should be used when considering ECDSA signatures.Remember to convert serialized sizes to weight units when necessary.
    pub weight: Option<i64>,
}

impl SendResultOptionsArgInputsItem {
    /// `j` is the JSON object of these fields, in order; a field marked
    /// optional is left out when unset.
    pub open spec fn is_json(self, j: JsonValue) -> bool {
        &&& j is Object
        &&& j->Object_0@.len() == count(self.sequence is Some) + 1int + 1int + count(self.weight is Some)
        &&& (self.sequence matches Some(x) ==> (j->Object_0@[0int].key@ == "sequence"@ && j->Object_0@[0int].value == JsonValue::Int(x)))
        &&& j->Object_0@[count(self.sequence is Some)].key@ == "txid"@
        &&& j->Object_0@[count(self.sequence is Some)].value == JsonValue::Str(self.txid)
        &&& j->Object_0@[count(self.sequence is Some) + 1int].key@ == "vout"@
        &&& j->Object_0@[count(self.sequence is Some) + 1int].value == JsonValue::Int(self.vout)
        &&& (self.weight matches Some(x) ==> (j->Object_0@[count(self.sequence is Some) + 1int + 1int].key@ == "weight"@ && j->Object_0@[count(self.sequence is Some) + 1int + 1int].value == JsonValue::Int(x)))
    }

    /// The JSON object of these fields.
    pub fn to_json(self) -> (j: JsonValue)
        ensures
            self.is_json(j),
    {
        let ghost old_self = self;
        let mut ms: Vec<JsonMember> = Vec::new();
        match self.sequence {
            Some(x) => {
                let v0 = JsonValue::Int(x);
                ms.push(member("sequence", v0));
            },
            None => {},
        }
        assert(ms@.len() == count(old_self.sequence is Some));
        let v1 = JsonValue::Str(self.txid);
        ms.push(member("txid", v1));
        assert(ms@.len() == count(old_self.sequence is Some) + 1int);
        let v2 = JsonValue::Int(self.vout);
        ms.push(member("vout", v2));
        assert(ms@.len() == count(old_self.sequence is Some) + 1int + 1int);
        match self.weight {
            Some(x) => {
                let v3 = JsonValue::Int(x);
                ms.push(member("weight", v3));
            },
            None => {},
        }
        assert(ms@.len() == count(old_self.sequence is Some) + 1int + 1int + count(old_self.weight is Some));
        JsonValue::Object(ms)
    }

    /// `j` is the JSON array of the objects of `xs`, in order.
    pub open spec fn is_json_array(j: JsonValue, xs: Seq<SendResultOptionsArgInputsItem>) -> bool {
        &&& j is Array
        &&& j->Array_0@.len() == xs.len()
        &&& forall|i: int| 0 <= i < xs.len() ==> #[trigger] xs[i].is_json(j->Array_0@[i])
    }

    /// The JSON array of the objects of `xs`, in order.
    pub fn array_to_json(xs: Vec<SendResultOptionsArgInputsItem>) -> (j: JsonValue)
        ensures
            Self::is_json_array(j, xs@),
    {
        let ghost all = xs@;
        let mut rest = xs;
        let mut out: Vec<JsonValue> = Vec::new();
        while rest.len() > 0
            invariant
                out@.len() + rest@.len() == all.len(),
                rest@ == all.subrange(out@.len() as int, all.len() as int),
                forall|i: int| 0 <= i < out@.len() ==> #[trigger] all[i].is_json(out@[i]),
            decreases rest@.len(),
        {
            let x = rest.remove(0);
            let v = x.to_json();
            out.push(v);
            assert(rest@ =~= all.subrange(out@.len() as int, all.len() as int));
        }
        JsonValue::Array(out)
    }
}

/// Keys and scripts needed for producing a final transaction with a dummy signature.
/// Used for fee estimation during coin selection.
#[derive(Clone, Debug, PartialEq)]
pub struct SendResultOptionsArgSolvingData {
    /// Descriptors that provide solving data for this transaction.
    pub descriptors: Option<Vec<String>>,
    /// Public keys involved in this transaction.
    pub pubkeys: Option<Vec<String>>,
    /// Scripts involved in this transaction.
    pub scripts: Option<Vec<String>>,
}

impl SendResultOptionsArgSolvingData {
    /// `j` is the JSON object of these fields, in order; a field marked
    /// optional is left out when unset.
    pub open spec fn is_json(self, j: JsonValue) -> bool {
        &&& j is Object
        &&& j->Object_0@.len() == count(self.descriptors is Some) + count(self.pubkeys is Some) + count(self.scripts is Some)
        &&& (self.descriptors matches Some(x) ==> (j->Object_0@[0int].key@ == "descriptors"@ && is_str_array(j->Object_0@[0int].value, x@)))
        &&& (self.pubkeys matches Some(x) ==> (j->Object_0@[count(self.descriptors is Some)].key@ == "pubkeys"@ && is_str_array(j->Object_0@[count(self.descriptors is Some)].value, x@)))
        &&& (self.scripts matches Some(x) ==> (j->Object_0@[count(self.descriptors is Some) + count(self.pubkeys is Some)].key@ == "scripts"@ && is_str_array(j->Object_0@[count(self.descriptors is Some) + count(self.pubkeys is Some)].value, x@)))
    }

    /// The JSON object of these fields.
    pub fn to_json(self) -> (j: JsonValue)
        ensures
            self.is_json(j),
    {
        let ghost old_self = self;
        let mut ms: Vec<JsonMember> = Vec::new();
        match self.descriptors {
            Some(x) => {
                let v0 = json_str_array(x);
                ms.push(member("descriptors", v0));
            },
            None => {},
        }
        assert(ms@.len() == count(old_self.descriptors is Some));
        match self.pubkeys {
            Some(x) => {
                let v1 = json_str_array(x);
                ms.push(member("pubkeys", v1));
            },
            None => {},
        }
        assert(ms@.len() == count(old_self.descriptors is Some) + count(old_self.pubkeys is Some));
        match self.scripts {
            Some(x) => {
                let v2 = json_str_array(x);
                ms.push(member("scripts", v2));
            },
            None => {},
        }
        assert(ms@.len() == count(old_self.descriptors is Some) + count(old_self.pubkeys is Some) + count(old_self.scripts is Some));
        JsonValue::Object(ms)
    }
}

#[derive(Clone, Debug, PartialEq)]
pub struct SendResultOutputsVariant1 {
    /// A key-value pair. The key must be "data", the value is hex-encoded data that becomes a part of an OP_RETURN output
    pub data: String,
}

impl SendResultOutputsVariant1 {
    /// `j` is the JSON object of these fields, in order; a field marked
    /// optional is left out when unset.
    pub open spec fn is_json(self, j: JsonValue) -> bool {
        &&& j is Object
        &&& j->Object_0@.len() == 1int
        &&& j->Object_0@[0int].key@ == "data"@
        &&& j->Object_0@[0int].value == JsonValue::Str(self.data)
    }

    /// The JSON object of these fields.
    pub fn to_json(self) -> (j: JsonValue)
        ensures
            self.is_json(j),
    {
        let ghost old_self = self;
        let mut ms: Vec<JsonMember> = Vec::new();
        let v0 = JsonValue::Str(self.data);
        ms.push(member("data", v0));
        assert(ms@.len() == 1int);
        JsonValue::Object(ms)
    }
}

#[derive(Clone, Debug, PartialEq)]
pub struct SimulateRawTransactionOptionsArg {
    /// (DEPRECATED) No longer used
    pub include_watch_only: Option<bool>,
}

impl SimulateRawTransactionOptionsArg {
    /// `j` is the JSON object of these fields, in order; a field marked
    /// optional is left out when unset.
    pub open spec fn is_json(self, j: JsonValue) -> bool {
        &&& j is Object
        &&& j->Object_0@.len() == count(self.include_watch_only is Some)
        &&& (self.include_watch_only matches Some(x) ==> (j->Object_0@[0int].key@ == "include_watchonly"@ && j->Object_0@[0int].value == JsonValue::Bool(x)))
    }

    /// The JSON object of these fields.
    pub fn to_json(self) -> (j: JsonValue)
        ensures
            self.is_json(j),
    {
        let ghost old_self = self;
        let mut ms: Vec<JsonMember> = Vec::new();
        match self.include_watch_only {
            Some(x) => {
                let v0 = JsonValue::Bool(x);
                ms.push(member("include_watchonly", v0));
            },
            None => {},
        }
        assert(ms@.len() == count(old_self.include_watch_only is Some));
        JsonValue::Object(ms)
    }
}

#[derive(Clone, Debug, PartialEq)]
pub struct WalletCreateFundedPsbtInputs {
    /// The sequence number
    pub sequence: Option<i64>,
    /// The transaction id
    pub txid: String,
    /// The output number
    pub vout: i64,
    /// The maximum weight for this input, including the weight of the outpoint and sequence number. Note that signature sizes are not guaranteed to be consistent, so the maximum DER signatures size of 73 bytes should be used when considering ECDSA signatures.Remember to convert serialized sizes to weight units when necessary.
    pub weight: Option<i64>,
}

impl WalletCreateFundedPsbtInputs {
    /// `j` is the JSON object of these fields, in order; a field marked
    /// optional is left out when unset.
    pub open spec fn is_json(self, j: JsonValue) -> bool {
        &&& j is Object
        &&& j->Object_0@.len() == count(self.sequence is Some) + 1int + 1int + count(self.weight is Some)
        &&& (self.sequence matches Some(x) ==> (j->Object_0@[0int].key@ == "sequence"@ && j->Object_0@[0int].value == JsonValue::Int(x)))
        &&& j->Object_0@[count(self.sequence is Some)].key@ == "txid"@
        &&& j->Object_0@[count(self.sequence is Some)].value == JsonValue::Str(self.txid)
        &&& j->Object_0@[count(self.sequence is Some) + 1int].key@ == "vout"@
        &&& j->Object_0@[count(self.sequence is Some) + 1int].value == JsonValue::Int(self.vout)
        &&& (self.weight matches Some(x) ==> (j->Object_0@[count(self.sequence is Some) + 1int + 1int].key@ == "weight"@ && j->Object_0@[count(self.sequence is Some) + 1int + 1int].value == JsonValue::Int(x)))
    }

    /// The JSON object of these fields.
    pub fn to_json(self) -> (j: JsonValue)
        ensures
            self.is_json(j),
    {
        let ghost old_self = self;
        let mut ms: Vec<JsonMember> = Vec::new();
        match self.sequence {
            Some(x) => {
                let v0 = JsonValue::Int(x);
                ms.push(member("sequence", v0));
            },
            None => {},
        }
        assert(ms@.len() == count(old_self.sequence is Some));
        let v1 = JsonValue::Str(self.txid);
        ms.push(member("txid", v1));
        assert(ms@.len() == count(old_self.sequence is Some) + 1int);
        let v2 = JsonValue::Int(self.vout);
        ms.push(member("vout", v2));
        assert(ms@.len() == count(old_self.sequence is Some) + 1int + 1int);
        match self.weight {
            Some(x) => {
                let v3 = JsonValue::Int(x);
                ms.push(member("weight", v3));
            },
            None => {},
        }
        assert(ms@.len() == count(old_self.sequence is Some) + 1int + 1int + count(old_self.weight is Some));
        JsonValue::Object(ms)
    }

    /// `j` is the JSON array of the objects of `xs`, in order.
    pub open spec fn is_json_array(j: JsonValue, xs: Seq<WalletCreateFundedPsbtInputs>) -> bool {
        &&& j is Array
        &&& j->Array_0@.len() == xs.len()
        &&& forall|i: int| 0 <= i < xs.len() ==> #[trigger] xs[i].is_json(j->Array_0@[i])
    }

    /// The JSON array of the objects of `xs`, in order.
    pub fn array_to_json(xs: Vec<WalletCreateFundedPsbtInputs>) -> (j: JsonValue)
        ensures
            Self::is_json_array(j, xs@),
    {
        let ghost all = xs@;
        let mut rest = xs;
        let mut out: Vec<JsonValue> = Vec::new();
        while rest.len() > 0
            invariant
                out@.len() + rest@.len() == all.len(),
                rest@ == all.subrange(out@.len() as int, all.len() as int),
                forall|i: int| 0 <= i < out@.len() ==> #[trigger] all[i].is_json(out@[i]),
            decreases rest@.len(),
        {
            let x = rest.remove(0);
            let v = x.to_json();
            out.push(v);
            assert(rest@ =~= all.subrange(out@.len() as int, all.len() as int));
        }
        JsonValue::Array(out)
    }
}

/// Keys and scripts needed for producing a final transaction with a dummy signature.
/// Used for fee estimation during coin selection.
#[derive(Clone, Debug, PartialEq)]
pub struct WalletCreateFundedPsbtOptionsArgSolvingData {
    /// Descriptors that provide solving data for this transaction.
    pub descriptors: Option<Vec<String>>,
    /// Public keys involved in this transaction.
    pub pubkeys: Option<Vec<String>>,
    /// Scripts involved in this transaction.
    pub scripts: Option<Vec<String>>,
}

impl WalletCreateFundedPsbtOptionsArgSolvingData {
    /// `j` is the JSON object of these fields, in order; a field marked
    /// optional is left out when unset.
    pub open spec fn is_json(self, j: JsonValue) -> bool {
        &&& j is Object
        &&& j->Object_0@.len() == count(self.descriptors is Some) + count(self.pubkeys is Some) + count(self.scripts is Some)
        &&& (self.descriptors matches Some(x) ==> (j->Object_0@[0int].key@ == "descriptors"@ && is_str_array(j->Object_0@[0int].value, x@)))
        &&& (self.pubkeys matches Some(x) ==> (j->Object_0@[count(self.descriptors is Some)].key@ == "pubkeys"@ && is_str_array(j->Object_0@[count(self.descriptors is Some)].value, x@)))
        &&& (self.scripts matches Some(x) ==> (j->Object_0@[count(self.descriptors is Some) + count(self.pubkeys is Some)].key@ == "scripts"@ && is_str_array(j->Object_0@[count(self.descriptors is Some) + count(self.pubkeys is Some)].value, x@)))
    }

    /// The JSON object of these fields.
    pub fn to_json(self) -> (j: JsonValue)
        ensures
            self.is_json(j),
    {
        let ghost old_self = self;
        let mut ms: Vec<JsonMember> = Vec::new();
        match self.descriptors {
            Some(x) => {
                let v0 = json_str_array(x);
                ms.push(member("descriptors", v0));
            },
            None => {},
        }
        assert(ms@.len() == count(old_self.descriptors is Some));
        match self.pubkeys {
            Some(x) => {
                let v1 = json_str_array(x);
                ms.push(member("pubkeys", v1));
            },
            None => {},
        }
        assert(ms@.len() == count(old_self.descriptors is Some) + count(old_self.pubkeys is Some));
        match self.scripts {
            Some(x) => {
                let v2 = json_str_array(x);
                ms.push(member("scripts", v2));
            },
            None => {},
        }
        assert(ms@.len() == count(old_self.descriptors is Some) + count(old_self.pubkeys is Some) + count(old_self.scripts is Some));
        JsonValue::Object(ms)
    }
}

#[derive(Clone, Debug, PartialEq)]
pub struct WalletCreateFundedPsbtOutputsVariant1 {
    /// A key-value pair. The key must be "data", the value is hex-encoded data that becomes a part of an OP_RETURN output
    pub data: String,
}

impl WalletCreateFundedPsbtOutputsVariant1 {
    /// `j` is the JSON object of these fields, in order; a field marked
    /// optional is left out when unset.
    pub open spec fn is_json(self, j: JsonValue) -> bool {
        &&& j is Object
        &&& j->Object_0@.len() == 1int
        &&& j->Object_0@[0int].key@ == "data"@
        &&& j->Object_0@[0int].value == JsonValue::Str(self.data)
    }

    /// The JSON object of these fields.
    pub fn to_json(self) -> (j: JsonValue)
        ensures
            self.is_json(j),
    {
        let ghost old_self = self;
        let mut ms: Vec<JsonMember> = Vec::new();
        let v0 = JsonValue::Str(self.data);
        ms.push(member("data", v0));
        assert(ms@.len() == 1int);
        JsonValue::Object(ms)
    }
}

/// Optional parameters for the `createwallet` JSON-RPC method (consumed by `Client::create_wallet_with`).
#[derive(Clone, Debug, Default)]
pub struct CreateWalletOptions {
    /// Disable the possibility of private keys (only watchonlys are possible in this mode).
    pub disable_private_keys: Option<bool>,
    /// Create a blank wallet. A blank wallet has no keys.
    pub blank: Option<bool>,
    /// Encrypt the wallet with this passphrase.
    pub passphrase: Option<String>,
    /// Keep track of coin reuse, and treat dirty and clean coins differently with privacy considerations in mind.
    pub avoid_reuse: Option<bool>,
    /// If set, must be "true"
    pub descriptors: Option<bool>,
    /// Save wallet name to persistent settings and load on startup. True to add wallet to startup list, false to remove, null to leave unchanged.
    pub load_on_startup: Option<bool>,
    /// Use an external signer such as a hardware wallet. Requires -signer to be configured. Wallet creation will fail if keys cannot be fetched. Requires disable_private_keys and descriptors set to true.
    pub external_signer: Option<bool>,
}

impl CreateWalletOptions {
    /// The positional arguments these options fill, after the method's
    /// required arguments: one slot per option, in order, `null` when unset.
    pub open spec fn params_spec(self, r: Seq<JsonValue>) -> bool {
        &&& r.len() == 7
        &&& r[0] == opt_bool(self.disable_private_keys)
        &&& r[1] == opt_bool(self.blank)
        &&& r[2] == opt_str(self.passphrase)
        &&& r[3] == opt_bool(self.avoid_reuse)
        &&& r[4] == opt_bool(self.descriptors)
        &&& r[5] == opt_bool(self.load_on_startup)
        &&& r[6] == opt_bool(self.external_signer)
    }

    /// The positional arguments these options fill.
    pub fn to_params(self) -> (r: Vec<JsonValue>)
        ensures
            self.params_spec(r@),
    {
        let mut r: Vec<JsonValue> = Vec::new();
        let v0 = json_opt_bool(self.disable_private_keys);
        r.push(v0);
        let v1 = json_opt_bool(self.blank);
        r.push(v1);
        let v2 = json_opt_str(self.passphrase);
        r.push(v2);
        let v3 = json_opt_bool(self.avoid_reuse);
        r.push(v3);
        let v4 = json_opt_bool(self.descriptors);
        r.push(v4);
        let v5 = json_opt_bool(self.load_on_startup);
        r.push(v5);
        let v6 = json_opt_bool(self.external_signer);
        r.push(v6);
        r
    }
}

/// Optional parameters for the `createwalletdescriptor` JSON-RPC method (consumed by `Client::create_wallet_descriptor_with`).
#[derive(Clone, Debug, Default)]
pub struct CreateWalletDescriptorOptions {
    /// The HD key that the wallet knows the private key of, listed using 'gethdkeys', to use for this descriptor's key
    pub hd_key: Option<String>,
    /// Whether to only make one descriptor that is internal (if parameter is true) or external (if parameter is false)
    pub internal: Option<bool>,
}

impl CreateWalletDescriptorOptions {
    /// `j` is the JSON object of these fields, in order; a field marked
    /// optional is left out when unset.
    pub open spec fn is_json(self, j: JsonValue) -> bool {
        &&& j is Object
        &&& j->Object_0@.len() == count(self.hd_key is Some) + count(self.internal is Some)
        &&& (self.hd_key matches Some(x) ==> (j->Object_0@[0int].key@ == "hdkey"@ && j->Object_0@[0int].value == JsonValue::Str(x)))
        &&& (self.internal matches Some(x) ==> (j->Object_0@[count(self.hd_key is Some)].key@ == "internal"@ && j->Object_0@[count(self.hd_key is Some)].value == JsonValue::Bool(x)))
    }

    /// The JSON object of these fields.
    pub fn to_json(self) -> (j: JsonValue)
        ensures
            self.is_json(j),
    {
        let ghost old_self = self;
        let mut ms: Vec<JsonMember> = Vec::new();
        match self.hd_key {
            Some(x) => {
                let v0 = JsonValue::Str(x);
                ms.push(member("hdkey", v0));
            },
            None => {},
        }
        assert(ms@.len() == count(old_self.hd_key is Some));
        match self.internal {
            Some(x) => {
                let v1 = JsonValue::Bool(x);
                ms.push(member("internal", v1));
            },
            None => {},
        }
        assert(ms@.len() == count(old_self.hd_key is Some) + count(old_self.internal is Some));
        JsonValue::Object(ms)
    }
}

/// Optional parameters for the `getbalance` JSON-RPC method (consumed by `Client::get_balance_with`).
#[derive(Clone, Debug, Default)]
pub struct GetBalanceOptions {
    /// Remains for backward compatibility. Must be excluded or set to "*".
    pub dummy: Option<String>,
    /// Only include transactions confirmed at least this many times.
    pub min_conf: Option<i64>,
    /// No longer used
    pub include_watch_only: Option<bool>,
    /// (only available if avoid_reuse wallet flag is set) Do not include balance in dirty outputs; addresses are considered dirty if they have previously been used in a transaction.
    pub avoid_reuse: Option<bool>,
}

impl GetBalanceOptions {
    /// The positional arguments these options fill, after the method's
    /// required arguments: one slot per option, in order, `null` when unset.
    pub open spec fn params_spec(self, r: Seq<JsonValue>) -> bool {
        &&& r.len() == 4
        &&& r[0] == opt_str(self.dummy)
        &&& r[1] == opt_int(self.min_conf)
        &&& r[2] == opt_bool(self.include_watch_only)
        &&& r[3] == opt_bool(self.avoid_reuse)
    }

    /// The positional arguments these options fill.
    pub fn to_params(self) -> (r: Vec<JsonValue>)
        ensures
            self.params_spec(r@),
    {
        let mut r: Vec<JsonValue> = Vec::new();
        let v0 = json_opt_str(self.dummy);
        r.push(v0);
        let v1 = json_opt_int(self.min_conf);
        r.push(v1);
        let v2 = json_opt_bool(self.include_watch_only);
        r.push(v2);
        let v3 = json_opt_bool(self.avoid_reuse);
        r.push(v3);
        r
    }
}

/// Optional parameters for the `gethdkeys` JSON-RPC method (consumed by `Client::get_hd_keys_with`).
#[derive(Clone, Debug, Default)]
pub struct GetHdKeysOptions {
    /// Show the keys for only active descriptors
    pub active_only: Option<bool>,
    /// Show private keys
    pub private: Option<bool>,
}

impl GetHdKeysOptions {
    /// `j` is the JSON object of these fields, in order; a field marked
    /// optional is left out when unset.
    pub open spec fn is_json(self, j: JsonValue) -> bool {
        &&& j is Object
        &&& j->Object_0@.len() == count(self.active_only is Some) + count(self.private is Some)
        &&& (self.active_only matches Some(x) ==> (j->Object_0@[0int].key@ == "active_only"@ && j->Object_0@[0int].value == JsonValue::Bool(x)))
        &&& (self.private matches Some(x) ==> (j->Object_0@[count(self.active_only is Some)].key@ == "private"@ && j->Object_0@[count(self.active_only is Some)].value == JsonValue::Bool(x)))
    }

    /// The JSON object of these fields.
    pub fn to_json(self) -> (j: JsonValue)
        ensures
            self.is_json(j),
    {
        let ghost old_self = self;
        let mut ms: Vec<JsonMember> = Vec::new();
        match self.active_only {
            Some(x) => {
                let v0 = JsonValue::Bool(x);
                ms.push(member("active_only", v0));
            },
            None => {},
        }
        assert(ms@.len() == count(old_self.active_only is Some));
        match self.private {
            Some(x) => {
                let v1 = JsonValue::Bool(x);
                ms.push(member("private", v1));
            },
            None => {},
        }
        assert(ms@.len() == count(old_self.active_only is Some) + count(old_self.private is Some));
        JsonValue::Object(ms)
    }
}

/// Optional parameters for the `getnewaddress` JSON-RPC method (consumed by `Client::get_new_address_with`).
#[derive(Clone, Debug, Default)]
pub struct GetNewAddressOptions {
    /// The label name for the address to be linked to. It can also be set to the empty string "" to represent the default label. The label does not need to exist, it will be created if there is no label by the given name.
    pub label: Option<String>,
    /// The address type to use. Options are "legacy", "p2sh-segwit", "bech32", "bech32m".
    pub address_type: Option<String>,
}

impl GetNewAddressOptions {
    /// The positional arguments these options fill, after the method's
    /// required arguments: one slot per option, in order, `null` when unset.
    pub open spec fn params_spec(self, r: Seq<JsonValue>) -> bool {
        &&& r.len() == 2
        &&& r[0] == opt_str(self.label)
        &&& r[1] == opt_str(self.address_type)
    }

    /// The positional arguments these options fill.
    pub fn to_params(self) -> (r: Vec<JsonValue>)
        ensures
            self.params_spec(r@),
    {
        let mut r: Vec<JsonValue> = Vec::new();
        let v0 = json_opt_str(self.label);
        r.push(v0);
        let v1 = json_opt_str(self.address_type);
        r.push(v1);
        r
    }
}

/// Optional parameters for the `getrawchangeaddress` JSON-RPC method (consumed by `Client::get_raw_change_address_with`).
#[derive(Clone, Debug, Default)]
pub struct GetRawChangeAddressOptions {
    /// The address type to use. Options are "legacy", "p2sh-segwit", "bech32", "bech32m".
    pub address_type: Option<String>,
}

impl GetRawChangeAddressOptions {
    /// The positional arguments these options fill, after the method's
    /// required arguments: one slot per option, in order, `null` when unset.
    pub open spec fn params_spec(self, r: Seq<JsonValue>) -> bool {
        &&& r.len() == 1
        &&& r[0] == opt_str(self.address_type)
    }

    /// The positional arguments these options fill.
    pub fn to_params(self) -> (r: Vec<JsonValue>)
        ensures
            self.params_spec(r@),
    {
        let mut r: Vec<JsonValue> = Vec::new();
        let v0 = json_opt_str(self.address_type);
        r.push(v0);
        r
    }
}

/// Optional parameters for the `getreceivedbyaddress` JSON-RPC method (consumed by `Client::get_received_by_address_with`).
#[derive(Clone, Debug, Default)]
pub struct GetReceivedByAddressOptions {
    /// Only include transactions confirmed at least this many times.
    pub min_conf: Option<i64>,
    /// Include immature coinbase transactions.
    pub include_immature_coinbase: Option<bool>,
}

impl GetReceivedByAddressOptions {
    /// The positional arguments these options fill, after the method's
    /// required arguments: one slot per option, in order, `null` when unset.
    pub open spec fn params_spec(self, r: Seq<JsonValue>) -> bool {
        &&& r.len() == 2
        &&& r[0] == opt_int(self.min_conf)
        &&& r[1] == opt_bool(self.include_immature_coinbase)
    }

    /// The positional arguments these options fill.
    pub fn to_params(self) -> (r: Vec<JsonValue>)
        ensures
            self.params_spec(r@),
    {
        let mut r: Vec<JsonValue> = Vec::new();
        let v0 = json_opt_int(self.min_conf);
        r.push(v0);
        let v1 = json_opt_bool(self.include_immature_coinbase);
        r.push(v1);
        r
    }
}

/// Optional parameters for the `getreceivedbylabel` JSON-RPC method (consumed by `Client::get_received_by_label_with`).
#[derive(Clone, Debug, Default)]
pub struct GetReceivedByLabelOptions {
    /// Only include transactions confirmed at least this many times.
    pub min_conf: Option<i64>,
    /// Include immature coinbase transactions.
    pub include_immature_coinbase: Option<bool>,
}

impl GetReceivedByLabelOptions {
    /// The positional arguments these options fill, after the method's
    /// required arguments: one slot per option, in order, `null` when unset.
    pub open spec fn params_spec(self, r: Seq<JsonValue>) -> bool {
        &&& r.len() == 2
        &&& r[0] == opt_int(self.min_conf)
        &&& r[1] == opt_bool(self.include_immature_coinbase)
    }

    /// The positional arguments these options fill.
    pub fn to_params(self) -> (r: Vec<JsonValue>)
        ensures
            self.params_spec(r@),
    {
        let mut r: Vec<JsonValue> = Vec::new();
        let v0 = json_opt_int(self.min_conf);
        r.push(v0);
        let v1 = json_opt_bool(self.include_immature_coinbase);
        r.push(v1);
        r
    }
}

/// Optional parameters for the `gettransaction` JSON-RPC method (consumed by `Client::get_transaction_with`).
#[derive(Clone, Debug, Default)]
pub struct GetTransactionOptions {
    /// (DEPRECATED) No longer used
    pub include_watch_only: Option<bool>,
    /// Whether to include a `decoded` field containing the decoded transaction (equivalent to RPC decoderawtransaction)
    pub verbose: Option<bool>,
}

impl GetTransactionOptions {
    /// The positional arguments these options fill, after the method's
    /// required arguments: one slot per option, in order, `null` when unset.
    pub open spec fn params_spec(self, r: Seq<JsonValue>) -> bool {
        &&& r.len() == 2
        &&& r[0] == opt_bool(self.include_watch_only)
        &&& r[1] == opt_bool(self.verbose)
    }

    /// The positional arguments these options fill.
    pub fn to_params(self) -> (r: Vec<JsonValue>)
        ensures
            self.params_spec(r@),
    {
        let mut r: Vec<JsonValue> = Vec::new();
        let v0 = json_opt_bool(self.include_watch_only);
        r.push(v0);
        let v1 = json_opt_bool(self.verbose);
        r.push(v1);
        r
    }
}

/// Optional parameters for the `listdescriptors` JSON-RPC method (consumed by `Client::list_descriptors_with`).
#[derive(Clone, Debug, Default)]
pub struct ListDescriptorsOptions {
    /// Show private descriptors.
    pub private: Option<bool>,
}

impl ListDescriptorsOptions {
    /// The positional arguments these options fill, after the method's
    /// required arguments: one slot per option, in order, `null` when unset.
    pub open spec fn params_spec(self, r: Seq<JsonValue>) -> bool {
        &&& r.len() == 1
        &&& r[0] == opt_bool(self.private)
    }

    /// The positional arguments these options fill.
    pub fn to_params(self) -> (r: Vec<JsonValue>)
        ensures
            self.params_spec(r@),
    {
        let mut r: Vec<JsonValue> = Vec::new();
        let v0 = json_opt_bool(self.private);
        r.push(v0);
        r
    }
}

/// Optional parameters for the `listlabels` JSON-RPC method (consumed by `Client::list_labels_with`).
#[derive(Clone, Debug, Default)]
pub struct ListLabelsOptions {
    /// Address purpose to list labels for ('send','receive'). An empty string is the same as not providing this argument.
    pub purpose: Option<String>,
}

impl ListLabelsOptions {
    /// The positional arguments these options fill, after the method's
    /// required arguments: one slot per option, in order, `null` when unset.
    pub open spec fn params_spec(self, r: Seq<JsonValue>) -> bool {
        &&& r.len() == 1
        &&& r[0] == opt_str(self.purpose)
    }

    /// The positional arguments these options fill.
    pub fn to_params(self) -> (r: Vec<JsonValue>)
        ensures
            self.params_spec(r@),
    {
        let mut r: Vec<JsonValue> = Vec::new();
        let v0 = json_opt_str(self.purpose);
        r.push(v0);
        r
    }
}

/// Optional parameters for the `listreceivedbyaddress` JSON-RPC method (consumed by `Client::list_received_by_address_with`).
#[derive(Clone, Debug, Default)]
pub struct ListReceivedByAddressOptions {
    /// The minimum number of confirmations before payments are included.
    pub min_conf: Option<i64>,
    /// Whether to include addresses that haven't received any payments.
    pub include_empty: Option<bool>,
    /// (DEPRECATED) No longer used
    pub include_watch_only: Option<bool>,
    /// If present and non-empty, only return information on this address.
    pub address_filter: Option<String>,
    /// Include immature coinbase transactions.
    pub include_immature_coinbase: Option<bool>,
}

impl ListReceivedByAddressOptions {
    /// The positional arguments these options fill, after the method's
    /// required arguments: one slot per option, in order, `null` when unset.
    pub open spec fn params_spec(self, r: Seq<JsonValue>) -> bool {
        &&& r.len() == 5
        &&& r[0] == opt_int(self.min_conf)
        &&& r[1] == opt_bool(self.include_empty)
        &&& r[2] == opt_bool(self.include_watch_only)
        &&& r[3] == opt_str(self.address_filter)
        &&& r[4] == opt_bool(self.include_immature_coinbase)
    }

    /// The positional arguments these options fill.
    pub fn to_params(self) -> (r: Vec<JsonValue>)
        ensures
            self.params_spec(r@),
    {
        let mut r: Vec<JsonValue> = Vec::new();
        let v0 = json_opt_int(self.min_conf);
        r.push(v0);
        let v1 = json_opt_bool(self.include_empty);
        r.push(v1);
        let v2 = json_opt_bool(self.include_watch_only);
        r.push(v2);
        let v3 = json_opt_str(self.address_filter);
        r.push(v3);
        let v4 = json_opt_bool(self.include_immature_coinbase);
        r.push(v4);
        r
    }
}

/// Optional parameters for the `listreceivedbylabel` JSON-RPC method (consumed by `Client::list_received_by_label_with`).
#[derive(Clone, Debug, Default)]
pub struct ListReceivedByLabelOptions {
    /// The minimum number of confirmations before payments are included.
    pub min_conf: Option<i64>,
    /// Whether to include labels that haven't received any payments.
    pub include_empty: Option<bool>,
    /// (DEPRECATED) No longer used
    pub include_watch_only: Option<bool>,
    /// Include immature coinbase transactions.
    pub include_immature_coinbase: Option<bool>,
}

impl ListReceivedByLabelOptions {
    /// The positional arguments these options fill, after the method's
    /// required arguments: one slot per option, in order, `null` when unset.
    pub open spec fn params_spec(self, r: Seq<JsonValue>) -> bool {
        &&& r.len() == 4
        &&& r[0] == opt_int(self.min_conf)
        &&& r[1] == opt_bool(self.include_empty)
        &&& r[2] == opt_bool(self.include_watch_only)
        &&& r[3] == opt_bool(self.include_immature_coinbase)
    }

    /// The positional arguments these options fill.
    pub fn to_params(self) -> (r: Vec<JsonValue>)
        ensures
            self.params_spec(r@),
    {
        let mut r: Vec<JsonValue> = Vec::new();
        let v0 = json_opt_int(self.min_conf);
        r.push(v0);
        let v1 = json_opt_bool(self.include_empty);
        r.push(v1);
        let v2 = json_opt_bool(self.include_watch_only);
        r.push(v2);
        let v3 = json_opt_bool(self.include_immature_coinbase);
        r.push(v3);
        r
    }
}

/// Optional parameters for the `listtransactions` JSON-RPC method (consumed by `Client::list_transactions_with`).
#[derive(Clone, Debug, Default)]
pub struct ListTransactionsOptions {
    /// If set, should be a valid label name to return only incoming transactions
    /// with the specified label, or "*" to disable filtering and return all transactions.
    pub label: Option<String>,
    /// The number of transactions to return
    pub count: Option<i64>,
    /// The number of transactions to skip
    pub skip: Option<i64>,
    /// (DEPRECATED) No longer used
    pub include_watch_only: Option<bool>,
}

impl ListTransactionsOptions {
    /// The positional arguments these options fill, after the method's
    /// required arguments: one slot per option, in order, `null` when unset.
    pub open spec fn params_spec(self, r: Seq<JsonValue>) -> bool {
        &&& r.len() == 4
        &&& r[0] == opt_str(self.label)
        &&& r[1] == opt_int(self.count)
        &&& r[2] == opt_int(self.skip)
        &&& r[3] == opt_bool(self.include_watch_only)
    }

    /// The positional arguments these options fill.
    pub fn to_params(self) -> (r: Vec<JsonValue>)
        ensures
            self.params_spec(r@),
    {
        let mut r: Vec<JsonValue> = Vec::new();
        let v0 = json_opt_str(self.label);
        r.push(v0);
        let v1 = json_opt_int(self.count);
        r.push(v1);
        let v2 = json_opt_int(self.skip);
        r.push(v2);
        let v3 = json_opt_bool(self.include_watch_only);
        r.push(v3);
        r
    }
}

/// Optional parameters for the `loadwallet` JSON-RPC method (consumed by `Client::load_wallet_with`).
#[derive(Clone, Debug, Default)]
pub struct LoadWalletOptions {
    /// Save wallet name to persistent settings and load on startup. True to add wallet to startup list, false to remove, null to leave unchanged.
    pub load_on_startup: Option<bool>,
}

impl LoadWalletOptions {
    /// The positional arguments these options fill, after the method's
    /// required arguments: one slot per option, in order, `null` when unset.
    pub open spec fn params_spec(self, r: Seq<JsonValue>) -> bool {
        &&& r.len() == 1
        &&& r[0] == opt_bool(self.load_on_startup)
    }

    /// The positional arguments these options fill.
    pub fn to_params(self) -> (r: Vec<JsonValue>)
        ensures
            self.params_spec(r@),
    {
        let mut r: Vec<JsonValue> = Vec::new();
        let v0 = json_opt_bool(self.load_on_startup);
        r.push(v0);
        r
    }
}

/// Optional parameters for the `lockunspent` JSON-RPC method (consumed by `Client::lock_unspent_with`).
#[derive(Clone, Debug, Default)]
pub struct LockUnspentOptions {
    /// The transaction outputs and within each, the txid (string) vout (numeric).
    pub transactions: Option<Vec<LockUnspentTransactions>>,
    /// Whether to write/erase this lock in the wallet database, or keep the change in memory only. Ignored for unlocking.
    pub persistent: Option<bool>,
}

impl LockUnspentOptions {
    /// The positional arguments these options fill, after the method's
    /// required arguments: one slot per option, in order, `null` when unset.
    pub open spec fn params_spec(self, r: Seq<JsonValue>) -> bool {
        &&& r.len() == 2
        &&& (match self.transactions { Some(x) => LockUnspentTransactions::is_json_array(r[0], x@), None => r[0] == JsonValue::Null })
        &&& r[1] == opt_bool(self.persistent)
    }

    /// The positional arguments these options fill.
    pub fn to_params(self) -> (r: Vec<JsonValue>)
        ensures
            self.params_spec(r@),
    {
        let mut r: Vec<JsonValue> = Vec::new();
        let v0 = match self.transactions { Some(x) => LockUnspentTransactions::array_to_json(x), None => JsonValue::Null };
        r.push(v0);
        let v1 = json_opt_bool(self.persistent);
        r.push(v1);
        r
    }
}

/// Optional parameters for the `migratewallet` JSON-RPC method (consumed by `Client::migrate_wallet_with`).
#[derive(Clone, Debug, Default)]
pub struct MigrateWalletOptions {
    /// The name of the wallet to migrate. If provided both here and in the RPC endpoint, the two must be identical.
    pub wallet_name: Option<String>,
    /// The wallet passphrase
    pub passphrase: Option<String>,
}

impl MigrateWalletOptions {
    /// The positional arguments these options fill, after the method's
    /// required arguments: one slot per option, in order, `null` when unset.
    pub open spec fn params_spec(self, r: Seq<JsonValue>) -> bool {
        &&& r.len() == 2
        &&& r[0] == opt_str(self.wallet_name)
        &&& r[1] == opt_str(self.passphrase)
    }

    /// The positional arguments these options fill.
    pub fn to_params(self) -> (r: Vec<JsonValue>)
        ensures
            self.params_spec(r@),
    {
        let mut r: Vec<JsonValue> = Vec::new();
        let v0 = json_opt_str(self.wallet_name);
        r.push(v0);
        let v1 = json_opt_str(self.passphrase);
        r.push(v1);
        r
    }
}

/// Optional parameters for the `rescanblockchain` JSON-RPC method (consumed by `Client::rescan_blockchain_with`).
#[derive(Clone, Debug, Default)]
pub struct RescanBlockchainOptions {
    /// block height where the rescan should start
    pub start_height: Option<i64>,
    /// the last block height that should be scanned. If none is provided it will rescan up to the tip at return time of this call.
    pub stop_height: Option<i64>,
}

impl RescanBlockchainOptions {
    /// The positional arguments these options fill, after the method's
    /// required arguments: one slot per option, in order, `null` when unset.
    pub open spec fn params_spec(self, r: Seq<JsonValue>) -> bool {
        &&& r.len() == 2
        &&& r[0] == opt_int(self.start_height)
        &&& r[1] == opt_int(self.stop_height)
    }

    /// The positional arguments these options fill.
    pub fn to_params(self) -> (r: Vec<JsonValue>)
        ensures
            self.params_spec(r@),
    {
        let mut r: Vec<JsonValue> = Vec::new();
        let v0 = json_opt_int(self.start_height);
        r.push(v0);
        let v1 = json_opt_int(self.stop_height);
        r.push(v1);
        r
    }
}

/// Optional parameters for the `restorewallet` JSON-RPC method (consumed by `Client::restore_wallet_with`).
#[derive(Clone, Debug, Default)]
pub struct RestoreWalletOptions {
    /// Save wallet name to persistent settings and load on startup. True to add wallet to startup list, false to remove, null to leave unchanged.
    pub load_on_startup: Option<bool>,
}

impl RestoreWalletOptions {
    /// The positional arguments these options fill, after the method's
    /// required arguments: one slot per option, in order, `null` when unset.
    pub open spec fn params_spec(self, r: Seq<JsonValue>) -> bool {
        &&& r.len() == 1
        &&& r[0] == opt_bool(self.load_on_startup)
    }

    /// The positional arguments these options fill.
    pub fn to_params(self) -> (r: Vec<JsonValue>)
        ensures
            self.params_spec(r@),
    {
        let mut r: Vec<JsonValue> = Vec::new();
        let v0 = json_opt_bool(self.load_on_startup);
        r.push(v0);
        r
    }
}

/// Optional parameters for the `setwalletflag` JSON-RPC method (consumed by `Client::set_wallet_flag_with`).
#[derive(Clone, Debug, Default)]
pub struct SetWalletFlagOptions {
    /// The new state.
    pub value: Option<bool>,
}

impl SetWalletFlagOptions {
    /// The positional arguments these options fill, after the method's
    /// required arguments: one slot per option, in order, `null` when unset.
    pub open spec fn params_spec(self, r: Seq<JsonValue>) -> bool {
        &&& r.len() == 1
        &&& r[0] == opt_bool(self.value)
    }

    /// The positional arguments these options fill.
    pub fn to_params(self) -> (r: Vec<JsonValue>)
        ensures
            self.params_spec(r@),
    {
        let mut r: Vec<JsonValue> = Vec::new();
        let v0 = json_opt_bool(self.value);
        r.push(v0);
        r
    }
}

/// Optional parameters for the `simulaterawtransaction` JSON-RPC method (consumed by `Client::simulate_raw_transaction_with`).
#[derive(Clone, Debug, Default)]
pub struct SimulateRawTransactionOptions {
    /// An array of hex strings of raw transactions.
    pub raw_txs: Option<Vec<String>>,
    pub options: Option<SimulateRawTransactionOptionsArg>,
}

impl SimulateRawTransactionOptions {
    /// The positional arguments these options fill, after the method's
    /// required arguments: one slot per option, in order, `null` when unset.
    pub open spec fn params_spec(self, r: Seq<JsonValue>) -> bool {
        &&& r.len() == 2
        &&& (match self.raw_txs { Some(x) => is_str_array(r[0], x@), None => r[0] == JsonValue::Null })
        &&& (match self.options { Some(x) => x.is_json(r[1]), None => r[1] == JsonValue::Null })
    }

    /// The positional arguments these options fill.
    pub fn to_params(self) -> (r: Vec<JsonValue>)
        ensures
            self.params_spec(r@),
    {
        let mut r: Vec<JsonValue> = Vec::new();
        let v0 = match self.raw_txs { Some(x) => json_str_array(x), None => JsonValue::Null };
        r.push(v0);
        let v1 = match self.options { Some(x) => x.to_json(), None => JsonValue::Null };
        r.push(v1);
        r
    }
}

/// Optional parameters for the `unloadwallet` JSON-RPC method (consumed by `Client::unload_wallet_with`).
#[derive(Clone, Debug, Default)]
pub struct UnloadWalletOptions {
    /// The name of the wallet to unload. If provided both here and in the RPC endpoint, the two must be identical.
    pub wallet_name: Option<String>,
    /// Save wallet name to persistent settings and load on startup. True to add wallet to startup list, false to remove, null to leave unchanged.
    pub load_on_startup: Option<bool>,
}

impl UnloadWalletOptions {
    /// The positional arguments these options fill, after the method's
    /// required arguments: one slot per option, in order, `null` when unset.
    pub open spec fn params_spec(self, r: Seq<JsonValue>) -> bool {
        &&& r.len() == 2
        &&& r[0] == opt_str(self.wallet_name)
        &&& r[1] == opt_bool(self.load_on_startup)
    }

    /// The positional arguments these options fill.
    pub fn to_params(self) -> (r: Vec<JsonValue>)
        ensures
            self.params_spec(r@),
    {
        let mut r: Vec<JsonValue> = Vec::new();
        let v0 = json_opt_str(self.wallet_name);
        r.push(v0);
        let v1 = json_opt_bool(self.load_on_startup);
        r.push(v1);
        r
    }
}

/// Optional parameters for the `walletprocesspsbt` JSON-RPC method (consumed by `Client::wallet_process_psbt_with`).
#[derive(Clone, Debug, Default)]
pub struct WalletProcessPsbtOptions {
    /// Also sign the transaction when updating (requires wallet to be unlocked)
    pub sign: Option<bool>,
    /// The signature hash type to sign with if not specified by the PSBT. Must be one of
    ///        "DEFAULT"
    ///        "ALL"
    ///        "NONE"
    ///        "SINGLE"
    ///        "ALL|ANYONECANPAY"
    ///        "NONE|ANYONECANPAY"
    ///        "SINGLE|ANYONECANPAY"
    pub sig_hash_type: Option<String>,
    /// Include BIP 32 derivation paths for public keys if we know them
    pub bip32derivs: Option<bool>,
    /// Also finalize inputs if possible
    pub finalize: Option<bool>,
}

impl WalletProcessPsbtOptions {
    /// The positional arguments these options fill, after the method's
    /// required arguments: one slot per option, in order, `null` when unset.
    pub open spec fn params_spec(self, r: Seq<JsonValue>) -> bool {
        &&& r.len() == 4
        &&& r[0] == opt_bool(self.sign)
        &&& r[1] == opt_str(self.sig_hash_type)
        &&& r[2] == opt_bool(self.bip32derivs)
        &&& r[3] == opt_bool(self.finalize)
    }

    /// The positional arguments these options fill.
    pub fn to_params(self) -> (r: Vec<JsonValue>)
        ensures
            self.params_spec(r@),
    {
        let mut r: Vec<JsonValue> = Vec::new();
        let v0 = json_opt_bool(self.sign);
        r.push(v0);
        let v1 = json_opt_str(self.sig_hash_type);
        r.push(v1);
        let v2 = json_opt_bool(self.bip32derivs);
        r.push(v2);
        let v3 = json_opt_bool(self.finalize);
        r.push(v3);
        r
    }
}

/// `abandontransaction` with required arguments only: its positional parameters.
pub open spec fn abandon_transaction_params_spec(txid: String, r: Seq<JsonValue>) -> bool {
    &&& r.len() == 1
    &&& r[0] == JsonValue::Str(txid)
}

/// `abandontransaction` with required arguments only: its positional parameters.
pub fn abandon_transaction_params(txid: String) -> (r: Vec<JsonValue>)
    ensures
        abandon_transaction_params_spec(txid, r@),
{
    let mut r: Vec<JsonValue> = Vec::new();
    let v0 = JsonValue::Str(txid);
    r.push(v0);
    r
}

/// `abortrescan` with required arguments only: its positional parameters.
pub open spec fn abort_rescan_params_spec(r: Seq<JsonValue>) -> bool {
    &&& r.len() == 0
}

/// `abortrescan` with required arguments only: its positional parameters.
pub fn abort_rescan_params() -> (r: Vec<JsonValue>)
    ensures
        abort_rescan_params_spec(r@),
{
    let mut r: Vec<JsonValue> = Vec::new();
    r
}

/// `backupwallet` with required arguments only: its positional parameters.
pub open spec fn backup_wallet_params_spec(destination: String, r: Seq<JsonValue>) -> bool {
    &&& r.len() == 1
    &&& r[0] == JsonValue::Str(destination)
}

/// `backupwallet` with required arguments only: its positional parameters.
pub fn backup_wallet_params(destination: String) -> (r: Vec<JsonValue>)
    ensures
        backup_wallet_params_spec(destination, r@),
{
    let mut r: Vec<JsonValue> = Vec::new();
    let v0 = JsonValue::Str(destination);
    r.push(v0);
    r
}

/// `bumpfee` with required arguments only: its positional parameters.
pub open spec fn bump_fee_params_spec(txid: String, r: Seq<JsonValue>) -> bool {
    &&& r.len() == 1
    &&& r[0] == JsonValue::Str(txid)
}

/// `bumpfee` with required arguments only: its positional parameters.
pub fn bump_fee_params(txid: String) -> (r: Vec<JsonValue>)
    ensures
        bump_fee_params_spec(txid, r@),
{
    let mut r: Vec<JsonValue> = Vec::new();
    let v0 = JsonValue::Str(txid);
    r.push(v0);
    r
}

/// `createwallet` with required arguments only: its positional parameters.
pub open spec fn create_wallet_params_spec(wallet_name: String, r: Seq<JsonValue>) -> bool {
    &&& r.len() == 1
    &&& r[0] == JsonValue::Str(wallet_name)
}

/// `createwallet` with required arguments only: its positional parameters.
pub fn create_wallet_params(wallet_name: String) -> (r: Vec<JsonValue>)
    ensures
        create_wallet_params_spec(wallet_name, r@),
{
    let mut r: Vec<JsonValue> = Vec::new();
    let v0 = JsonValue::Str(wallet_name);
    r.push(v0);
    r
}

/// `createwallet` with all optional arguments via [`CreateWalletOptions`]: its positional parameters.
pub open spec fn create_wallet_with_params_spec(wallet_name: String, opts: CreateWalletOptions, r: Seq<JsonValue>) -> bool {
    &&& r.len() == 8
    &&& r[0] == JsonValue::Str(wallet_name)
    &&& opts.params_spec(r.subrange(1, 8))
}

/// `createwallet` with all optional arguments via [`CreateWalletOptions`]: its positional parameters.
pub fn create_wallet_with_params(wallet_name: String, opts: CreateWalletOptions) -> (r: Vec<JsonValue>)
    ensures
        create_wallet_with_params_spec(wallet_name, opts, r@),
{
    let mut r: Vec<JsonValue> = Vec::new();
    let v0 = JsonValue::Str(wallet_name);
    r.push(v0);
    let mut tail = opts.to_params();
    r.append(&mut tail);
    r
}

/// `createwalletdescriptor` with required arguments only: its positional parameters.
pub open spec fn create_wallet_descriptor_params_spec(type_: String, r: Seq<JsonValue>) -> bool {
    &&& r.len() == 1
    &&& r[0] == JsonValue::Str(type_)
}

/// `createwalletdescriptor` with required arguments only: its positional parameters.
pub fn create_wallet_descriptor_params(type_: String) -> (r: Vec<JsonValue>)
    ensures
        create_wallet_descriptor_params_spec(type_, r@),
{
    let mut r: Vec<JsonValue> = Vec::new();
    let v0 = JsonValue::Str(type_);
    r.push(v0);
    r
}

/// `createwalletdescriptor` with all optional arguments via [`CreateWalletDescriptorOptions`]: its positional parameters.
pub open spec fn create_wallet_descriptor_with_params_spec(type_: String, opts: CreateWalletDescriptorOptions, r: Seq<JsonValue>) -> bool {
    &&& r.len() == 2
    &&& r[0] == JsonValue::Str(type_)
    &&& opts.is_json(r[1])
}

/// `createwalletdescriptor` with all optional arguments via [`CreateWalletDescriptorOptions`]: its positional parameters.
pub fn create_wallet_descriptor_with_params(type_: String, opts: CreateWalletDescriptorOptions) -> (r: Vec<JsonValue>)
    ensures
        create_wallet_descriptor_with_params_spec(type_, opts, r@),
{
    let mut r: Vec<JsonValue> = Vec::new();
    let v0 = JsonValue::Str(type_);
    r.push(v0);
    r.push(opts.to_json());
    r
}

/// `encryptwallet` with required arguments only: its positional parameters.
pub open spec fn encrypt_wallet_params_spec(passphrase: String, r: Seq<JsonValue>) -> bool {
    &&& r.len() == 1
    &&& r[0] == JsonValue::Str(passphrase)
}

/// `encryptwallet` with required arguments only: its positional parameters.
pub fn encrypt_wallet_params(passphrase: String) -> (r: Vec<JsonValue>)
    ensures
        encrypt_wallet_params_spec(passphrase, r@),
{
    let mut r: Vec<JsonValue> = Vec::new();
    let v0 = JsonValue::Str(passphrase);
    r.push(v0);
    r
}

/// `getaddressesbylabel` with required arguments only: its positional parameters.
pub open spec fn get_addresses_by_label_params_spec(label: String, r: Seq<JsonValue>) -> bool {
    &&& r.len() == 1
    &&& r[0] == JsonValue::Str(label)
}

/// `getaddressesbylabel` with required arguments only: its positional parameters.
pub fn get_addresses_by_label_params(label: String) -> (r: Vec<JsonValue>)
    ensures
        get_addresses_by_label_params_spec(label, r@),
{
    let mut r: Vec<JsonValue> = Vec::new();
    let v0 = JsonValue::Str(label);
    r.push(v0);
    r
}

/// `getaddressinfo` with required arguments only: its positional parameters.
pub open spec fn get_address_info_params_spec(address: String, r: Seq<JsonValue>) -> bool {
    &&& r.len() == 1
    &&& r[0] == JsonValue::Str(address)
}

/// `getaddressinfo` with required arguments only: its positional parameters.
pub fn get_address_info_params(address: String) -> (r: Vec<JsonValue>)
    ensures
        get_address_info_params_spec(address, r@),
{
    let mut r: Vec<JsonValue> = Vec::new();
    let v0 = JsonValue::Str(address);
    r.push(v0);
    r
}

/// `getbalance` with required arguments only: its positional parameters.
pub open spec fn get_balance_params_spec(r: Seq<JsonValue>) -> bool {
    &&& r.len() == 0
}

/// `getbalance` with required arguments only: its positional parameters.
pub fn get_balance_params() -> (r: Vec<JsonValue>)
    ensures
        get_balance_params_spec(r@),
{
    let mut r: Vec<JsonValue> = Vec::new();
    r
}

/// `getbalance` with all optional arguments via [`GetBalanceOptions`]: its positional parameters.
pub open spec fn get_balance_with_params_spec(opts: GetBalanceOptions, r: Seq<JsonValue>) -> bool {
    &&& r.len() == 4
    &&& opts.params_spec(r.subrange(0, 4))
}

/// `getbalance` with all optional arguments via [`GetBalanceOptions`]: its positional parameters.
pub fn get_balance_with_params(opts: GetBalanceOptions) -> (r: Vec<JsonValue>)
    ensures
        get_balance_with_params_spec(opts, r@),
{
    let mut r: Vec<JsonValue> = Vec::new();
    let mut tail = opts.to_params();
    r.append(&mut tail);
    r
}

/// `getbalances` with required arguments only: its positional parameters.
pub open spec fn get_balances_params_spec(r: Seq<JsonValue>) -> bool {
    &&& r.len() == 0
}

/// `getbalances` with required arguments only: its positional parameters.
pub fn get_balances_params() -> (r: Vec<JsonValue>)
    ensures
        get_balances_params_spec(r@),
{
    let mut r: Vec<JsonValue> = Vec::new();
    r
}

/// `gethdkeys` with required arguments only: its positional parameters.
pub open spec fn get_hd_keys_params_spec(r: Seq<JsonValue>) -> bool {
    &&& r.len() == 0
}

/// `gethdkeys` with required arguments only: its positional parameters.
pub fn get_hd_keys_params() -> (r: Vec<JsonValue>)
    ensures
        get_hd_keys_params_spec(r@),
{
    let mut r: Vec<JsonValue> = Vec::new();
    r
}

/// `gethdkeys` with all optional arguments via [`GetHdKeysOptions`]: its positional parameters.
pub open spec fn get_hd_keys_with_params_spec(opts: GetHdKeysOptions, r: Seq<JsonValue>) -> bool {
    &&& r.len() == 1
    &&& opts.is_json(r[0])
}

/// `gethdkeys` with all optional arguments via [`GetHdKeysOptions`]: its positional parameters.
pub fn get_hd_keys_with_params(opts: GetHdKeysOptions) -> (r: Vec<JsonValue>)
    ensures
        get_hd_keys_with_params_spec(opts, r@),
{
    let mut r: Vec<JsonValue> = Vec::new();
    r.push(opts.to_json());
    r
}

/// `getnewaddress` with required arguments only: its positional parameters.
pub open spec fn get_new_address_params_spec(r: Seq<JsonValue>) -> bool {
    &&& r.len() == 0
}

/// `getnewaddress` with required arguments only: its positional parameters.
pub fn get_new_address_params() -> (r: Vec<JsonValue>)
    ensures
        get_new_address_params_spec(r@),
{
    let mut r: Vec<JsonValue> = Vec::new();
    r
}

/// `getnewaddress` with all optional arguments via [`GetNewAddressOptions`]: its positional parameters.
pub open spec fn get_new_address_with_params_spec(opts: GetNewAddressOptions, r: Seq<JsonValue>) -> bool {
    &&& r.len() == 2
    &&& opts.params_spec(r.subrange(0, 2))
}

/// `getnewaddress` with all optional arguments via [`GetNewAddressOptions`]: its positional parameters.
pub fn get_new_address_with_params(opts: GetNewAddressOptions) -> (r: Vec<JsonValue>)
    ensures
        get_new_address_with_params_spec(opts, r@),
{
    let mut r: Vec<JsonValue> = Vec::new();
    let mut tail = opts.to_params();
    r.append(&mut tail);
    r
}

/// `getrawchangeaddress` with required arguments only: its positional parameters.
pub open spec fn get_raw_change_address_params_spec(r: Seq<JsonValue>) -> bool {
    &&& r.len() == 0
}

/// `getrawchangeaddress` with required arguments only: its positional parameters.
pub fn get_raw_change_address_params() -> (r: Vec<JsonValue>)
    ensures
        get_raw_change_address_params_spec(r@),
{
    let mut r: Vec<JsonValue> = Vec::new();
    r
}

/// `getrawchangeaddress` with all optional arguments via [`GetRawChangeAddressOptions`]: its positional parameters.
pub open spec fn get_raw_change_address_with_params_spec(opts: GetRawChangeAddressOptions, r: Seq<JsonValue>) -> bool {
    &&& r.len() == 1
    &&& opts.params_spec(r.subrange(0, 1))
}

/// `getrawchangeaddress` with all optional arguments via [`GetRawChangeAddressOptions`]: its positional parameters.
pub fn get_raw_change_address_with_params(opts: GetRawChangeAddressOptions) -> (r: Vec<JsonValue>)
    ensures
        get_raw_change_address_with_params_spec(opts, r@),
{
    let mut r: Vec<JsonValue> = Vec::new();
    let mut tail = opts.to_params();
    r.append(&mut tail);
    r
}

/// `getreceivedbyaddress` with required arguments only: its positional parameters.
pub open spec fn get_received_by_address_params_spec(address: String, r: Seq<JsonValue>) -> bool {
    &&& r.len() == 1
    &&& r[0] == JsonValue::Str(address)
}

/// `getreceivedbyaddress` with required arguments only: its positional parameters.
pub fn get_received_by_address_params(address: String) -> (r: Vec<JsonValue>)
    ensures
        get_received_by_address_params_spec(address, r@),
{
    let mut r: Vec<JsonValue> = Vec::new();
    let v0 = JsonValue::Str(address);
    r.push(v0);
    r
}

/// `getreceivedbyaddress` with all optional arguments via [`GetReceivedByAddressOptions`]: its positional parameters.
pub open spec fn get_received_by_address_with_params_spec(address: String, opts: GetReceivedByAddressOptions, r: Seq<JsonValue>) -> bool {
    &&& r.len() == 3
    &&& r[0] == JsonValue::Str(address)
    &&& opts.params_spec(r.subrange(1, 3))
}

/// `getreceivedbyaddress` with all optional arguments via [`GetReceivedByAddressOptions`]: its positional parameters.
pub fn get_received_by_address_with_params(address: String, opts: GetReceivedByAddressOptions) -> (r: Vec<JsonValue>)
    ensures
        get_received_by_address_with_params_spec(address, opts, r@),
{
    let mut r: Vec<JsonValue> = Vec::new();
    let v0 = JsonValue::Str(address);
    r.push(v0);
    let mut tail = opts.to_params();
    r.append(&mut tail);
    r
}

/// `getreceivedbylabel` with required arguments only: its positional parameters.
pub open spec fn get_received_by_label_params_spec(label: String, r: Seq<JsonValue>) -> bool {
    &&& r.len() == 1
    &&& r[0] == JsonValue::Str(label)
}

/// `getreceivedbylabel` with required arguments only: its positional parameters.
pub fn get_received_by_label_params(label: String) -> (r: Vec<JsonValue>)
    ensures
        get_received_by_label_params_spec(label, r@),
{
    let mut r: Vec<JsonValue> = Vec::new();
    let v0 = JsonValue::Str(label);
    r.push(v0);
    r
}

/// `getreceivedbylabel` with all optional arguments via [`GetReceivedByLabelOptions`]: its positional parameters.
pub open spec fn get_received_by_label_with_params_spec(label: String, opts: GetReceivedByLabelOptions, r: Seq<JsonValue>) -> bool {
    &&& r.len() == 3
    &&& r[0] == JsonValue::Str(label)
    &&& opts.params_spec(r.subrange(1, 3))
}

/// `getreceivedbylabel` with all optional arguments via [`GetReceivedByLabelOptions`]: its positional parameters.
pub fn get_received_by_label_with_params(label: String, opts: GetReceivedByLabelOptions) -> (r: Vec<JsonValue>)
    ensures
        get_received_by_label_with_params_spec(label, opts, r@),
{
    let mut r: Vec<JsonValue> = Vec::new();
    let v0 = JsonValue::Str(label);
    r.push(v0);
    let mut tail = opts.to_params();
    r.append(&mut tail);
    r
}

/// `gettransaction` with required arguments only: its positional parameters.
pub open spec fn get_transaction_params_spec(txid: String, r: Seq<JsonValue>) -> bool {
    &&& r.len() == 1
    &&& r[0] == JsonValue::Str(txid)
}

/// `gettransaction` with required arguments only: its positional parameters.
pub fn get_transaction_params(txid: String) -> (r: Vec<JsonValue>)
    ensures
        get_transaction_params_spec(txid, r@),
{
    let mut r: Vec<JsonValue> = Vec::new();
    let v0 = JsonValue::Str(txid);
    r.push(v0);
    r
}

/// `gettransaction` with all optional arguments via [`GetTransactionOptions`]: its positional parameters.
pub open spec fn get_transaction_with_params_spec(txid: String, opts: GetTransactionOptions, r: Seq<JsonValue>) -> bool {
    &&& r.len() == 3
    &&& r[0] == JsonValue::Str(txid)
    &&& opts.params_spec(r.subrange(1, 3))
}

/// `gettransaction` with all optional arguments via [`GetTransactionOptions`]: its positional parameters.
pub fn get_transaction_with_params(txid: String, opts: GetTransactionOptions) -> (r: Vec<JsonValue>)
    ensures
        get_transaction_with_params_spec(txid, opts, r@),
{
    let mut r: Vec<JsonValue> = Vec::new();
    let v0 = JsonValue::Str(txid);
    r.push(v0);
    let mut tail = opts.to_params();
    r.append(&mut tail);
    r
}

/// `getwalletinfo` with required arguments only: its positional parameters.
pub open spec fn get_wallet_info_params_spec(r: Seq<JsonValue>) -> bool {
    &&& r.len() == 0
}

/// `getwalletinfo` with required arguments only: its positional parameters.
pub fn get_wallet_info_params() -> (r: Vec<JsonValue>)
    ensures
        get_wallet_info_params_spec(r@),
{
    let mut r: Vec<JsonValue> = Vec::new();
    r
}

/// `importprunedfunds` with required arguments only: its positional parameters.
pub open spec fn import_pruned_funds_params_spec(raw_transaction: String, tx_out_proof: String, r: Seq<JsonValue>) -> bool {
    &&& r.len() == 2
    &&& r[0] == JsonValue::Str(raw_transaction)
    &&& r[1] == JsonValue::Str(tx_out_proof)
}

/// `importprunedfunds` with required arguments only: its positional parameters.
pub fn import_pruned_funds_params(raw_transaction: String, tx_out_proof: String) -> (r: Vec<JsonValue>)
    ensures
        import_pruned_funds_params_spec(raw_transaction, tx_out_proof, r@),
{
    let mut r: Vec<JsonValue> = Vec::new();
    let v0 = JsonValue::Str(raw_transaction);
    r.push(v0);
    let v1 = JsonValue::Str(tx_out_proof);
    r.push(v1);
    r
}

/// `keypoolrefill` with required arguments only: its positional parameters.
pub open spec fn keypool_refill_params_spec(r: Seq<JsonValue>) -> bool {
    &&& r.len() == 0
}

/// `keypoolrefill` with required arguments only: its positional parameters.
pub fn keypool_refill_params() -> (r: Vec<JsonValue>)
    ensures
        keypool_refill_params_spec(r@),
{
    let mut r: Vec<JsonValue> = Vec::new();
    r
}

/// `listaddressgroupings` with required arguments only: its positional parameters.
pub open spec fn list_address_groupings_params_spec(r: Seq<JsonValue>) -> bool {
    &&& r.len() == 0
}

/// `listaddressgroupings` with required arguments only: its positional parameters.
pub fn list_address_groupings_params() -> (r: Vec<JsonValue>)
    ensures
        list_address_groupings_params_spec(r@),
{
    let mut r: Vec<JsonValue> = Vec::new();
    r
}

/// `listdescriptors` with required arguments only: its positional parameters.
pub open spec fn list_descriptors_params_spec(r: Seq<JsonValue>) -> bool {
    &&& r.len() == 0
}

/// `listdescriptors` with required arguments only: its positional parameters.
pub fn list_descriptors_params() -> (r: Vec<JsonValue>)
    ensures
        list_descriptors_params_spec(r@),
{
    let mut r: Vec<JsonValue> = Vec::new();
    r
}

/// `listdescriptors` with all optional arguments via [`ListDescriptorsOptions`]: its positional parameters.
pub open spec fn list_descriptors_with_params_spec(opts: ListDescriptorsOptions, r: Seq<JsonValue>) -> bool {
    &&& r.len() == 1
    &&& opts.params_spec(r.subrange(0, 1))
}

/// `listdescriptors` with all optional arguments via [`ListDescriptorsOptions`]: its positional parameters.
pub fn list_descriptors_with_params(opts: ListDescriptorsOptions) -> (r: Vec<JsonValue>)
    ensures
        list_descriptors_with_params_spec(opts, r@),
{
    let mut r: Vec<JsonValue> = Vec::new();
    let mut tail = opts.to_params();
    r.append(&mut tail);
    r
}

/// `listlabels` with required arguments only: its positional parameters.
pub open spec fn list_labels_params_spec(r: Seq<JsonValue>) -> bool {
    &&& r.len() == 0
}

/// `listlabels` with required arguments only: its positional parameters.
pub fn list_labels_params() -> (r: Vec<JsonValue>)
    ensures
        list_labels_params_spec(r@),
{
    let mut r: Vec<JsonValue> = Vec::new();
    r
}

/// `listlabels` with all optional arguments via [`ListLabelsOptions`]: its positional parameters.
pub open spec fn list_labels_with_params_spec(opts: ListLabelsOptions, r: Seq<JsonValue>) -> bool {
    &&& r.len() == 1
    &&& opts.params_spec(r.subrange(0, 1))
}

/// `listlabels` with all optional arguments via [`ListLabelsOptions`]: its positional parameters.
pub fn list_labels_with_params(opts: ListLabelsOptions) -> (r: Vec<JsonValue>)
    ensures
        list_labels_with_params_spec(opts, r@),
{
    let mut r: Vec<JsonValue> = Vec::new();
    let mut tail = opts.to_params();
    r.append(&mut tail);
    r
}

/// `listlockunspent` with required arguments only: its positional parameters.
pub open spec fn list_lock_unspent_params_spec(r: Seq<JsonValue>) -> bool {
    &&& r.len() == 0
}

/// `listlockunspent` with required arguments only: its positional parameters.
pub fn list_lock_unspent_params() -> (r: Vec<JsonValue>)
    ensures
        list_lock_unspent_params_spec(r@),
{
    let mut r: Vec<JsonValue> = Vec::new();
    r
}

/// `listreceivedbyaddress` with required arguments only: its positional parameters.
pub open spec fn list_received_by_address_params_spec(r: Seq<JsonValue>) -> bool {
    &&& r.len() == 0
}

/// `listreceivedbyaddress` with required arguments only: its positional parameters.
pub fn list_received_by_address_params() -> (r: Vec<JsonValue>)
    ensures
        list_received_by_address_params_spec(r@),
{
    let mut r: Vec<JsonValue> = Vec::new();
    r
}

/// `listreceivedbyaddress` with all optional arguments via [`ListReceivedByAddressOptions`]: its positional parameters.
pub open spec fn list_received_by_address_with_params_spec(opts: ListReceivedByAddressOptions, r: Seq<JsonValue>) -> bool {
    &&& r.len() == 5
    &&& opts.params_spec(r.subrange(0, 5))
}

/// `listreceivedbyaddress` with all optional arguments via [`ListReceivedByAddressOptions`]: its positional parameters.
pub fn list_received_by_address_with_params(opts: ListReceivedByAddressOptions) -> (r: Vec<JsonValue>)
    ensures
        list_received_by_address_with_params_spec(opts, r@),
{
    let mut r: Vec<JsonValue> = Vec::new();
    let mut tail = opts.to_params();
    r.append(&mut tail);
    r
}

/// `listreceivedbylabel` with required arguments only: its positional parameters.
pub open spec fn list_received_by_label_params_spec(r: Seq<JsonValue>) -> bool {
    &&& r.len() == 0
}

/// `listreceivedbylabel` with required arguments only: its positional parameters.
pub fn list_received_by_label_params() -> (r: Vec<JsonValue>)
    ensures
        list_received_by_label_params_spec(r@),
{
    let mut r: Vec<JsonValue> = Vec::new();
    r
}

/// `listreceivedbylabel` with all optional arguments via [`ListReceivedByLabelOptions`]: its positional parameters.
pub open spec fn list_received_by_label_with_params_spec(opts: ListReceivedByLabelOptions, r: Seq<JsonValue>) -> bool {
    &&& r.len() == 4
    &&& opts.params_spec(r.subrange(0, 4))
}

/// `listreceivedbylabel` with all optional arguments via [`ListReceivedByLabelOptions`]: its positional parameters.
pub fn list_received_by_label_with_params(opts: ListReceivedByLabelOptions) -> (r: Vec<JsonValue>)
    ensures
        list_received_by_label_with_params_spec(opts, r@),
{
    let mut r: Vec<JsonValue> = Vec::new();
    let mut tail = opts.to_params();
    r.append(&mut tail);
    r
}

/// `listsinceblock` with required arguments only: its positional parameters.
pub open spec fn list_since_block_params_spec(r: Seq<JsonValue>) -> bool {
    &&& r.len() == 0
}

/// `listsinceblock` with required arguments only: its positional parameters.
pub fn list_since_block_params() -> (r: Vec<JsonValue>)
    ensures
        list_since_block_params_spec(r@),
{
    let mut r: Vec<JsonValue> = Vec::new();
    r
}

/// `listtransactions` with required arguments only: its positional parameters.
pub open spec fn list_transactions_params_spec(r: Seq<JsonValue>) -> bool {
    &&& r.len() == 0
}

/// `listtransactions` with required arguments only: its positional parameters.
pub fn list_transactions_params() -> (r: Vec<JsonValue>)
    ensures
        list_transactions_params_spec(r@),
{
    let mut r: Vec<JsonValue> = Vec::new();
    r
}

/// `listtransactions` with all optional arguments via [`ListTransactionsOptions`]: its positional parameters.
pub open spec fn list_transactions_with_params_spec(opts: ListTransactionsOptions, r: Seq<JsonValue>) -> bool {
    &&& r.len() == 4
    &&& opts.params_spec(r.subrange(0, 4))
}

/// `listtransactions` with all optional arguments via [`ListTransactionsOptions`]: its positional parameters.
pub fn list_transactions_with_params(opts: ListTransactionsOptions) -> (r: Vec<JsonValue>)
    ensures
        list_transactions_with_params_spec(opts, r@),
{
    let mut r: Vec<JsonValue> = Vec::new();
    let mut tail = opts.to_params();
    r.append(&mut tail);
    r
}

/// `listunspent` with required arguments only: its positional parameters.
pub open spec fn list_unspent_params_spec(r: Seq<JsonValue>) -> bool {
    &&& r.len() == 0
}

/// `listunspent` with required arguments only: its positional parameters.
pub fn list_unspent_params() -> (r: Vec<JsonValue>)
    ensures
        list_unspent_params_spec(r@),
{
    let mut r: Vec<JsonValue> = Vec::new();
    r
}

/// `listwalletdir` with required arguments only: its positional parameters.
pub open spec fn list_wallet_dir_params_spec(r: Seq<JsonValue>) -> bool {
    &&& r.len() == 0
}

/// `listwalletdir` with required arguments only: its positional parameters.
pub fn list_wallet_dir_params() -> (r: Vec<JsonValue>)
    ensures
        list_wallet_dir_params_spec(r@),
{
    let mut r: Vec<JsonValue> = Vec::new();
    r
}

/// `listwallets` with required arguments only: its positional parameters.
pub open spec fn list_wallets_params_spec(r: Seq<JsonValue>) -> bool {
    &&& r.len() == 0
}

/// `listwallets` with required arguments only: its positional parameters.
pub fn list_wallets_params() -> (r: Vec<JsonValue>)
    ensures
        list_wallets_params_spec(r@),
{
    let mut r: Vec<JsonValue> = Vec::new();
    r
}

/// `loadwallet` with required arguments only: its positional parameters.
pub open spec fn load_wallet_params_spec(file_name: String, r: Seq<JsonValue>) -> bool {
    &&& r.len() == 1
    &&& r[0] == JsonValue::Str(file_name)
}

/// `loadwallet` with required arguments only: its positional parameters.
pub fn load_wallet_params(file_name: String) -> (r: Vec<JsonValue>)
    ensures
        load_wallet_params_spec(file_name, r@),
{
    let mut r: Vec<JsonValue> = Vec::new();
    let v0 = JsonValue::Str(file_name);
    r.push(v0);
    r
}

/// `loadwallet` with all optional arguments via [`LoadWalletOptions`]: its positional parameters.
pub open spec fn load_wallet_with_params_spec(file_name: String, opts: LoadWalletOptions, r: Seq<JsonValue>) -> bool {
    &&& r.len() == 2
    &&& r[0] == JsonValue::Str(file_name)
    &&& opts.params_spec(r.subrange(1, 2))
}

/// `loadwallet` with all optional arguments via [`LoadWalletOptions`]: its positional parameters.
pub fn load_wallet_with_params(file_name: String, opts: LoadWalletOptions) -> (r: Vec<JsonValue>)
    ensures
        load_wallet_with_params_spec(file_name, opts, r@),
{
    let mut r: Vec<JsonValue> = Vec::new();
    let v0 = JsonValue::Str(file_name);
    r.push(v0);
    let mut tail = opts.to_params();
    r.append(&mut tail);
    r
}

/// `lockunspent` with required arguments only: its positional parameters.
pub open spec fn lock_unspent_params_spec(unlock: bool, r: Seq<JsonValue>) -> bool {
    &&& r.len() == 1
    &&& r[0] == JsonValue::Bool(unlock)
}

/// `lockunspent` with required arguments only: its positional parameters.
pub fn lock_unspent_params(unlock: bool) -> (r: Vec<JsonValue>)
    ensures
        lock_unspent_params_spec(unlock, r@),
{
    let mut r: Vec<JsonValue> = Vec::new();
    let v0 = JsonValue::Bool(unlock);
    r.push(v0);
    r
}

/// `lockunspent` with all optional arguments via [`LockUnspentOptions`]: its positional parameters.
pub open spec fn lock_unspent_with_params_spec(unlock: bool, opts: LockUnspentOptions, r: Seq<JsonValue>) -> bool {
    &&& r.len() == 3
    &&& r[0] == JsonValue::Bool(unlock)
    &&& opts.params_spec(r.subrange(1, 3))
}

/// `lockunspent` with all optional arguments via [`LockUnspentOptions`]: its positional parameters.
pub fn lock_unspent_with_params(unlock: bool, opts: LockUnspentOptions) -> (r: Vec<JsonValue>)
    ensures
        lock_unspent_with_params_spec(unlock, opts, r@),
{
    let mut r: Vec<JsonValue> = Vec::new();
    let v0 = JsonValue::Bool(unlock);
    r.push(v0);
    let mut tail = opts.to_params();
    r.append(&mut tail);
    r
}

/// `migratewallet` with required arguments only: its positional parameters.
pub open spec fn migrate_wallet_params_spec(r: Seq<JsonValue>) -> bool {
    &&& r.len() == 0
}

/// `migratewallet` with required arguments only: its positional parameters.
pub fn migrate_wallet_params() -> (r: Vec<JsonValue>)
    ensures
        migrate_wallet_params_spec(r@),
{
    let mut r: Vec<JsonValue> = Vec::new();
    r
}

/// `migratewallet` with all optional arguments via [`MigrateWalletOptions`]: its positional parameters.
pub open spec fn migrate_wallet_with_params_spec(opts: MigrateWalletOptions, r: Seq<JsonValue>) -> bool {
    &&& r.len() == 2
    &&& opts.params_spec(r.subrange(0, 2))
}

/// `migratewallet` with all optional arguments via [`MigrateWalletOptions`]: its positional parameters.
pub fn migrate_wallet_with_params(opts: MigrateWalletOptions) -> (r: Vec<JsonValue>)
    ensures
        migrate_wallet_with_params_spec(opts, r@),
{
    let mut r: Vec<JsonValue> = Vec::new();
    let mut tail = opts.to_params();
    r.append(&mut tail);
    r
}

/// `psbtbumpfee` with required arguments only: its positional parameters.
pub open spec fn psbt_bump_fee_params_spec(txid: String, r: Seq<JsonValue>) -> bool {
    &&& r.len() == 1
    &&& r[0] == JsonValue::Str(txid)
}

/// `psbtbumpfee` with required arguments only: its positional parameters.
pub fn psbt_bump_fee_params(txid: String) -> (r: Vec<JsonValue>)
    ensures
        psbt_bump_fee_params_spec(txid, r@),
{
    let mut r: Vec<JsonValue> = Vec::new();
    let v0 = JsonValue::Str(txid);
    r.push(v0);
    r
}

/// `removeprunedfunds` with required arguments only: its positional parameters.
pub open spec fn remove_pruned_funds_params_spec(txid: String, r: Seq<JsonValue>) -> bool {
    &&& r.len() == 1
    &&& r[0] == JsonValue::Str(txid)
}

/// `removeprunedfunds` with required arguments only: its positional parameters.
pub fn remove_pruned_funds_params(txid: String) -> (r: Vec<JsonValue>)
    ensures
        remove_pruned_funds_params_spec(txid, r@),
{
    let mut r: Vec<JsonValue> = Vec::new();
    let v0 = JsonValue::Str(txid);
    r.push(v0);
    r
}

/// `rescanblockchain` with required arguments only: its positional parameters.
pub open spec fn rescan_blockchain_params_spec(r: Seq<JsonValue>) -> bool {
    &&& r.len() == 0
}

/// `rescanblockchain` with required arguments only: its positional parameters.
pub fn rescan_blockchain_params() -> (r: Vec<JsonValue>)
    ensures
        rescan_blockchain_params_spec(r@),
{
    let mut r: Vec<JsonValue> = Vec::new();
    r
}

/// `rescanblockchain` with all optional arguments via [`RescanBlockchainOptions`]: its positional parameters.
pub open spec fn rescan_blockchain_with_params_spec(opts: RescanBlockchainOptions, r: Seq<JsonValue>) -> bool {
    &&& r.len() == 2
    &&& opts.params_spec(r.subrange(0, 2))
}

/// `rescanblockchain` with all optional arguments via [`RescanBlockchainOptions`]: its positional parameters.
pub fn rescan_blockchain_with_params(opts: RescanBlockchainOptions) -> (r: Vec<JsonValue>)
    ensures
        rescan_blockchain_with_params_spec(opts, r@),
{
    let mut r: Vec<JsonValue> = Vec::new();
    let mut tail = opts.to_params();
    r.append(&mut tail);
    r
}

/// `restorewallet` with required arguments only: its positional parameters.
pub open spec fn restore_wallet_params_spec(wallet_name: String, backup_file: String, r: Seq<JsonValue>) -> bool {
    &&& r.len() == 2
    &&& r[0] == JsonValue::Str(wallet_name)
    &&& r[1] == JsonValue::Str(backup_file)
}

/// `restorewallet` with required arguments only: its positional parameters.
pub fn restore_wallet_params(wallet_name: String, backup_file: String) -> (r: Vec<JsonValue>)
    ensures
        restore_wallet_params_spec(wallet_name, backup_file, r@),
{
    let mut r: Vec<JsonValue> = Vec::new();
    let v0 = JsonValue::Str(wallet_name);
    r.push(v0);
    let v1 = JsonValue::Str(backup_file);
    r.push(v1);
    r
}

/// `restorewallet` with all optional arguments via [`RestoreWalletOptions`]: its positional parameters.
pub open spec fn restore_wallet_with_params_spec(wallet_name: String, backup_file: String, opts: RestoreWalletOptions, r: Seq<JsonValue>) -> bool {
    &&& r.len() == 3
    &&& r[0] == JsonValue::Str(wallet_name)
    &&& r[1] == JsonValue::Str(backup_file)
    &&& opts.params_spec(r.subrange(2, 3))
}

/// `restorewallet` with all optional arguments via [`RestoreWalletOptions`]: its positional parameters.
pub fn restore_wallet_with_params(wallet_name: String, backup_file: String, opts: RestoreWalletOptions) -> (r: Vec<JsonValue>)
    ensures
        restore_wallet_with_params_spec(wallet_name, backup_file, opts, r@),
{
    let mut r: Vec<JsonValue> = Vec::new();
    let v0 = JsonValue::Str(wallet_name);
    r.push(v0);
    let v1 = JsonValue::Str(backup_file);
    r.push(v1);
    let mut tail = opts.to_params();
    r.append(&mut tail);
    r
}

/// `setlabel` with required arguments only: its positional parameters.
pub open spec fn set_label_params_spec(address: String, label: String, r: Seq<JsonValue>) -> bool {
    &&& r.len() == 2
    &&& r[0] == JsonValue::Str(address)
    &&& r[1] == JsonValue::Str(label)
}

/// `setlabel` with required arguments only: its positional parameters.
pub fn set_label_params(address: String, label: String) -> (r: Vec<JsonValue>)
    ensures
        set_label_params_spec(address, label, r@),
{
    let mut r: Vec<JsonValue> = Vec::new();
    let v0 = JsonValue::Str(address);
    r.push(v0);
    let v1 = JsonValue::Str(label);
    r.push(v1);
    r
}

/// `setwalletflag` with required arguments only: its positional parameters.
pub open spec fn set_wallet_flag_params_spec(flag: String, r: Seq<JsonValue>) -> bool {
    &&& r.len() == 1
    &&& r[0] == JsonValue::Str(flag)
}

/// `setwalletflag` with required arguments only: its positional parameters.
pub fn set_wallet_flag_params(flag: String) -> (r: Vec<JsonValue>)
    ensures
        set_wallet_flag_params_spec(flag, r@),
{
    let mut r: Vec<JsonValue> = Vec::new();
    let v0 = JsonValue::Str(flag);
    r.push(v0);
    r
}

/// `setwalletflag` with all optional arguments via [`SetWalletFlagOptions`]: its positional parameters.
pub open spec fn set_wallet_flag_with_params_spec(flag: String, opts: SetWalletFlagOptions, r: Seq<JsonValue>) -> bool {
    &&& r.len() == 2
    &&& r[0] == JsonValue::Str(flag)
    &&& opts.params_spec(r.subrange(1, 2))
}

/// `setwalletflag` with all optional arguments via [`SetWalletFlagOptions`]: its positional parameters.
pub fn set_wallet_flag_with_params(flag: String, opts: SetWalletFlagOptions) -> (r: Vec<JsonValue>)
    ensures
        set_wallet_flag_with_params_spec(flag, opts, r@),
{
    let mut r: Vec<JsonValue> = Vec::new();
    let v0 = JsonValue::Str(flag);
    r.push(v0);
    let mut tail = opts.to_params();
    r.append(&mut tail);
    r
}

/// `signmessage` with required arguments only: its positional parameters.
pub open spec fn sign_message_params_spec(address: String, message: String, r: Seq<JsonValue>) -> bool {
    &&& r.len() == 2
    &&& r[0] == JsonValue::Str(address)
    &&& r[1] == JsonValue::Str(message)
}

/// `signmessage` with required arguments only: its positional parameters.
pub fn sign_message_params(address: String, message: String) -> (r: Vec<JsonValue>)
    ensures
        sign_message_params_spec(address, message, r@),
{
    let mut r: Vec<JsonValue> = Vec::new();
    let v0 = JsonValue::Str(address);
    r.push(v0);
    let v1 = JsonValue::Str(message);
    r.push(v1);
    r
}

/// `signrawtransactionwithwallet` with required arguments only: its positional parameters.
pub open spec fn sign_raw_transaction_with_wallet_params_spec(hexstring: String, r: Seq<JsonValue>) -> bool {
    &&& r.len() == 1
    &&& r[0] == JsonValue::Str(hexstring)
}

/// `signrawtransactionwithwallet` with required arguments only: its positional parameters.
pub fn sign_raw_transaction_with_wallet_params(hexstring: String) -> (r: Vec<JsonValue>)
    ensures
        sign_raw_transaction_with_wallet_params_spec(hexstring, r@),
{
    let mut r: Vec<JsonValue> = Vec::new();
    let v0 = JsonValue::Str(hexstring);
    r.push(v0);
    r
}

/// `simulaterawtransaction` with required arguments only: its positional parameters.
pub open spec fn simulate_raw_transaction_params_spec(r: Seq<JsonValue>) -> bool {
    &&& r.len() == 0
}

/// `simulaterawtransaction` with required arguments only: its positional parameters.
pub fn simulate_raw_transaction_params() -> (r: Vec<JsonValue>)
    ensures
        simulate_raw_transaction_params_spec(r@),
{
    let mut r: Vec<JsonValue> = Vec::new();
    r
}

/// `simulaterawtransaction` with all optional arguments via [`SimulateRawTransactionOptions`]: its positional parameters.
pub open spec fn simulate_raw_transaction_with_params_spec(opts: SimulateRawTransactionOptions, r: Seq<JsonValue>) -> bool {
    &&& r.len() == 2
    &&& opts.params_spec(r.subrange(0, 2))
}

/// `simulaterawtransaction` with all optional arguments via [`SimulateRawTransactionOptions`]: its positional parameters.
pub fn simulate_raw_transaction_with_params(opts: SimulateRawTransactionOptions) -> (r: Vec<JsonValue>)
    ensures
        simulate_raw_transaction_with_params_spec(opts, r@),
{
    let mut r: Vec<JsonValue> = Vec::new();
    let mut tail = opts.to_params();
    r.append(&mut tail);
    r
}

/// `unloadwallet` with required arguments only: its positional parameters.
pub open spec fn unload_wallet_params_spec(r: Seq<JsonValue>) -> bool {
    &&& r.len() == 0
}

/// `unloadwallet` with required arguments only: its positional parameters.
pub fn unload_wallet_params() -> (r: Vec<JsonValue>)
    ensures
        unload_wallet_params_spec(r@),
{
    let mut r: Vec<JsonValue> = Vec::new();
    r
}

/// `unloadwallet` with all optional arguments via [`UnloadWalletOptions`]: its positional parameters.
pub open spec fn unload_wallet_with_params_spec(opts: UnloadWalletOptions, r: Seq<JsonValue>) -> bool {
    &&& r.len() == 2
    &&& opts.params_spec(r.subrange(0, 2))
}

/// `unloadwallet` with all optional arguments via [`UnloadWalletOptions`]: its positional parameters.
pub fn unload_wallet_with_params(opts: UnloadWalletOptions) -> (r: Vec<JsonValue>)
    ensures
        unload_wallet_with_params_spec(opts, r@),
{
    let mut r: Vec<JsonValue> = Vec::new();
    let mut tail = opts.to_params();
    r.append(&mut tail);
    r
}

/// `walletdisplayaddress` with required arguments only: its positional parameters.
pub open spec fn wallet_display_address_params_spec(address: String, r: Seq<JsonValue>) -> bool {
    &&& r.len() == 1
    &&& r[0] == JsonValue::Str(address)
}

/// `walletdisplayaddress` with required arguments only: its positional parameters.
pub fn wallet_display_address_params(address: String) -> (r: Vec<JsonValue>)
    ensures
        wallet_display_address_params_spec(address, r@),
{
    let mut r: Vec<JsonValue> = Vec::new();
    let v0 = JsonValue::Str(address);
    r.push(v0);
    r
}

/// `walletlock` with required arguments only: its positional parameters.
pub open spec fn wallet_lock_params_spec(r: Seq<JsonValue>) -> bool {
    &&& r.len() == 0
}

/// `walletlock` with required arguments only: its positional parameters.
pub fn wallet_lock_params() -> (r: Vec<JsonValue>)
    ensures
        wallet_lock_params_spec(r@),
{
    let mut r: Vec<JsonValue> = Vec::new();
    r
}

/// `walletpassphrase` with required arguments only: its positional parameters.
pub open spec fn wallet_passphrase_params_spec(passphrase: String, time_out: i64, r: Seq<JsonValue>) -> bool {
    &&& r.len() == 2
    &&& r[0] == JsonValue::Str(passphrase)
    &&& r[1] == JsonValue::Int(time_out)
}

/// `walletpassphrase` with required arguments only: its positional parameters.
pub fn wallet_passphrase_params(passphrase: String, time_out: i64) -> (r: Vec<JsonValue>)
    ensures
        wallet_passphrase_params_spec(passphrase, time_out, r@),
{
    let mut r: Vec<JsonValue> = Vec::new();
    let v0 = JsonValue::Str(passphrase);
    r.push(v0);
    let v1 = JsonValue::Int(time_out);
    r.push(v1);
    r
}

/// `walletpassphrasechange` with required arguments only: its positional parameters.
pub open spec fn wallet_passphrase_change_params_spec(old_passphrase: String, new_passphrase: String, r: Seq<JsonValue>) -> bool {
    &&& r.len() == 2
    &&& r[0] == JsonValue::Str(old_passphrase)
    &&& r[1] == JsonValue::Str(new_passphrase)
}

/// `walletpassphrasechange` with required arguments only: its positional parameters.
pub fn wallet_passphrase_change_params(old_passphrase: String, new_passphrase: String) -> (r: Vec<JsonValue>)
    ensures
        wallet_passphrase_change_params_spec(old_passphrase, new_passphrase, r@),
{
    let mut r: Vec<JsonValue> = Vec::new();
    let v0 = JsonValue::Str(old_passphrase);
    r.push(v0);
    let v1 = JsonValue::Str(new_passphrase);
    r.push(v1);
    r
}

/// `walletprocesspsbt` with required arguments only: its positional parameters.
pub open spec fn wallet_process_psbt_params_spec(psbt: String, r: Seq<JsonValue>) -> bool {
    &&& r.len() == 1
    &&& r[0] == JsonValue::Str(psbt)
}

/// `walletprocesspsbt` with required arguments only: its positional parameters.
pub fn wallet_process_psbt_params(psbt: String) -> (r: Vec<JsonValue>)
    ensures
        wallet_process_psbt_params_spec(psbt, r@),
{
    let mut r: Vec<JsonValue> = Vec::new();
    let v0 = JsonValue::Str(psbt);
    r.push(v0);
    r
}

/// `walletprocesspsbt` with all optional arguments via [`WalletProcessPsbtOptions`]: its positional parameters.
pub open spec fn wallet_process_psbt_with_params_spec(psbt: String, opts: WalletProcessPsbtOptions, r: Seq<JsonValue>) -> bool {
    &&& r.len() == 5
    &&& r[0] == JsonValue::Str(psbt)
    &&& opts.params_spec(r.subrange(1, 5))
}

/// `walletprocesspsbt` with all optional arguments via [`WalletProcessPsbtOptions`]: its positional parameters.
pub fn wallet_process_psbt_with_params(psbt: String, opts: WalletProcessPsbtOptions) -> (r: Vec<JsonValue>)
    ensures
        wallet_process_psbt_with_params_spec(psbt, opts, r@),
{
    let mut r: Vec<JsonValue> = Vec::new();
    let v0 = JsonValue::Str(psbt);
    r.push(v0);
    let mut tail = opts.to_params();
    r.append(&mut tail);
    r
}

/// The methods that take no arguments send no parameters at all.
pub proof fn lemma_argumentless_requests_send_nothing()
    ensures
        forall|r: Seq<JsonValue>| #[trigger] abort_rescan_params_spec(r) ==> r.len() == 0,
        forall|r: Seq<JsonValue>| #[trigger] get_balance_params_spec(r) ==> r.len() == 0,
        forall|r: Seq<JsonValue>| #[trigger] get_balances_params_spec(r) ==> r.len() == 0,
        forall|r: Seq<JsonValue>| #[trigger] get_hd_keys_params_spec(r) ==> r.len() == 0,
        forall|r: Seq<JsonValue>| #[trigger] get_new_address_params_spec(r) ==> r.len() == 0,
        forall|r: Seq<JsonValue>| #[trigger] get_raw_change_address_params_spec(r) ==> r.len() == 0,
        forall|r: Seq<JsonValue>| #[trigger] get_wallet_info_params_spec(r) ==> r.len() == 0,
        forall|r: Seq<JsonValue>| #[trigger] keypool_refill_params_spec(r) ==> r.len() == 0,
        forall|r: Seq<JsonValue>| #[trigger] list_address_groupings_params_spec(r) ==> r.len() == 0,
        forall|r: Seq<JsonValue>| #[trigger] list_descriptors_params_spec(r) ==> r.len() == 0,
        forall|r: Seq<JsonValue>| #[trigger] list_labels_params_spec(r) ==> r.len() == 0,
        forall|r: Seq<JsonValue>| #[trigger] list_lock_unspent_params_spec(r) ==> r.len() == 0,
        forall|r: Seq<JsonValue>| #[trigger] list_received_by_address_params_spec(r) ==> r.len() == 0,
        forall|r: Seq<JsonValue>| #[trigger] list_received_by_label_params_spec(r) ==> r.len() == 0,
        forall|r: Seq<JsonValue>| #[trigger] list_since_block_params_spec(r) ==> r.len() == 0,
        forall|r: Seq<JsonValue>| #[trigger] list_transactions_params_spec(r) ==> r.len() == 0,
        forall|r: Seq<JsonValue>| #[trigger] list_unspent_params_spec(r) ==> r.len() == 0,
        forall|r: Seq<JsonValue>| #[trigger] list_wallet_dir_params_spec(r) ==> r.len() == 0,
        forall|r: Seq<JsonValue>| #[trigger] list_wallets_params_spec(r) ==> r.len() == 0,
        forall|r: Seq<JsonValue>| #[trigger] migrate_wallet_params_spec(r) ==> r.len() == 0,
        forall|r: Seq<JsonValue>| #[trigger] rescan_blockchain_params_spec(r) ==> r.len() == 0,
        forall|r: Seq<JsonValue>| #[trigger] simulate_raw_transaction_params_spec(r) ==> r.len() == 0,
        forall|r: Seq<JsonValue>| #[trigger] unload_wallet_params_spec(r) ==> r.len() == 0,
        forall|r: Seq<JsonValue>| #[trigger] wallet_lock_params_spec(r) ==> r.len() == 0,
{
}

/// `abandontransaction` sends, in Core's argument order: `txid`.
pub proof fn lemma_abandon_transaction_request(txid: String, r: Seq<JsonValue>)
    requires
        abandon_transaction_params_spec(txid, r),
    ensures
        r.len() == 1,
        r[0] == JsonValue::Str(txid),
{
}

/// `backupwallet` sends, in Core's argument order: `destination`.
pub proof fn lemma_backup_wallet_request(destination: String, r: Seq<JsonValue>)
    requires
        backup_wallet_params_spec(destination, r),
    ensures
        r.len() == 1,
        r[0] == JsonValue::Str(destination),
{
}

/// `bumpfee` sends, in Core's argument order: `txid`.
pub proof fn lemma_bump_fee_request(txid: String, r: Seq<JsonValue>)
    requires
        bump_fee_params_spec(txid, r),
    ensures
        r.len() == 1,
        r[0] == JsonValue::Str(txid),
{
}

/// `createwallet` sends, in Core's argument order: `wallet_name`.
pub proof fn lemma_create_wallet_request(wallet_name: String, r: Seq<JsonValue>)
    requires
        create_wallet_params_spec(wallet_name, r),
    ensures
        r.len() == 1,
        r[0] == JsonValue::Str(wallet_name),
{
}

/// `createwallet` sends, in Core's argument order: `wallet_name`, `disable_private_keys`, `blank`, `passphrase`, `avoid_reuse`, `descriptors`, `load_on_startup`, `external_signer`.
pub proof fn lemma_create_wallet_with_request(wallet_name: String, opts: CreateWalletOptions, r: Seq<JsonValue>)
    requires
        create_wallet_with_params_spec(wallet_name, opts, r),
    ensures
        r.len() == 8,
        r[0] == JsonValue::Str(wallet_name),
        r[1] == opt_bool(opts.disable_private_keys),
        r[2] == opt_bool(opts.blank),
        r[3] == opt_str(opts.passphrase),
        r[4] == opt_bool(opts.avoid_reuse),
        r[5] == opt_bool(opts.descriptors),
        r[6] == opt_bool(opts.load_on_startup),
        r[7] == opt_bool(opts.external_signer),
{
}

/// `createwalletdescriptor` sends, in Core's argument order: `type_`.
pub proof fn lemma_create_wallet_descriptor_request(type_: String, r: Seq<JsonValue>)
    requires
        create_wallet_descriptor_params_spec(type_, r),
    ensures
        r.len() == 1,
        r[0] == JsonValue::Str(type_),
{
}

/// `createwalletdescriptor` sends, in Core's argument order: `type_`, the options object.
pub proof fn lemma_create_wallet_descriptor_with_request(type_: String, opts: CreateWalletDescriptorOptions, r: Seq<JsonValue>)
    requires
        create_wallet_descriptor_with_params_spec(type_, opts, r),
    ensures
        r.len() == 2,
        r[0] == JsonValue::Str(type_),
        opts.is_json(r[1]),
{
}

/// `encryptwallet` sends, in Core's argument order: `passphrase`.
pub proof fn lemma_encrypt_wallet_request(passphrase: String, r: Seq<JsonValue>)
    requires
        encrypt_wallet_params_spec(passphrase, r),
    ensures
        r.len() == 1,
        r[0] == JsonValue::Str(passphrase),
{
}

/// `getaddressesbylabel` sends, in Core's argument order: `label`.
pub proof fn lemma_get_addresses_by_label_request(label: String, r: Seq<JsonValue>)
    requires
        get_addresses_by_label_params_spec(label, r),
    ensures
        r.len() == 1,
        r[0] == JsonValue::Str(label),
{
}

/// `getaddressinfo` sends, in Core's argument order: `address`.
pub proof fn lemma_get_address_info_request(address: String, r: Seq<JsonValue>)
    requires
        get_address_info_params_spec(address, r),
    ensures
        r.len() == 1,
        r[0] == JsonValue::Str(address),
{
}

/// `getbalance` sends, in Core's argument order: `dummy`, `min_conf`, `include_watch_only`, `avoid_reuse`.
pub proof fn lemma_get_balance_with_request(opts: GetBalanceOptions, r: Seq<JsonValue>)
    requires
        get_balance_with_params_spec(opts, r),
    ensures
        r.len() == 4,
        r[0] == opt_str(opts.dummy),
        r[1] == opt_int(opts.min_conf),
        r[2] == opt_bool(opts.include_watch_only),
        r[3] == opt_bool(opts.avoid_reuse),
{
}

/// `gethdkeys` sends, in Core's argument order: the options object.
pub proof fn lemma_get_hd_keys_with_request(opts: GetHdKeysOptions, r: Seq<JsonValue>)
    requires
        get_hd_keys_with_params_spec(opts, r),
    ensures
        r.len() == 1,
        opts.is_json(r[0]),
{
}

/// `getnewaddress` sends, in Core's argument order: `label`, `address_type`.
pub proof fn lemma_get_new_address_with_request(opts: GetNewAddressOptions, r: Seq<JsonValue>)
    requires
        get_new_address_with_params_spec(opts, r),
    ensures
        r.len() == 2,
        r[0] == opt_str(opts.label),
        r[1] == opt_str(opts.address_type),
{
}

/// `getrawchangeaddress` sends, in Core's argument order: `address_type`.
pub proof fn lemma_get_raw_change_address_with_request(opts: GetRawChangeAddressOptions, r: Seq<JsonValue>)
    requires
        get_raw_change_address_with_params_spec(opts, r),
    ensures
        r.len() == 1,
        r[0] == opt_str(opts.address_type),
{
}

/// `getreceivedbyaddress` sends, in Core's argument order: `address`.
pub proof fn lemma_get_received_by_address_request(address: String, r: Seq<JsonValue>)
    requires
        get_received_by_address_params_spec(address, r),
    ensures
        r.len() == 1,
        r[0] == JsonValue::Str(address),
{
}

/// `getreceivedbyaddress` sends, in Core's argument order: `address`, `min_conf`, `include_immature_coinbase`.
pub proof fn lemma_get_received_by_address_with_request(address: String, opts: GetReceivedByAddressOptions, r: Seq<JsonValue>)
    requires
        get_received_by_address_with_params_spec(address, opts, r),
    ensures
        r.len() == 3,
        r[0] == JsonValue::Str(address),
        r[1] == opt_int(opts.min_conf),
        r[2] == opt_bool(opts.include_immature_coinbase),
{
}

/// `getreceivedbylabel` sends, in Core's argument order: `label`.
pub proof fn lemma_get_received_by_label_request(label: String, r: Seq<JsonValue>)
    requires
        get_received_by_label_params_spec(label, r),
    ensures
        r.len() == 1,
        r[0] == JsonValue::Str(label),
{
}

/// `getreceivedbylabel` sends, in Core's argument order: `label`, `min_conf`, `include_immature_coinbase`.
pub proof fn lemma_get_received_by_label_with_request(label: String, opts: GetReceivedByLabelOptions, r: Seq<JsonValue>)
    requires
        get_received_by_label_with_params_spec(label, opts, r),
    ensures
        r.len() == 3,
        r[0] == JsonValue::Str(label),
        r[1] == opt_int(opts.min_conf),
        r[2] == opt_bool(opts.include_immature_coinbase),
{
}

/// `gettransaction` sends, in Core's argument order: `txid`.
pub proof fn lemma_get_transaction_request(txid: String, r: Seq<JsonValue>)
    requires
        get_transaction_params_spec(txid, r),
    ensures
        r.len() == 1,
        r[0] == JsonValue::Str(txid),
{
}

/// `gettransaction` sends, in Core's argument order: `txid`, `include_watch_only`, `verbose`.
pub proof fn lemma_get_transaction_with_request(txid: String, opts: GetTransactionOptions, r: Seq<JsonValue>)
    requires
        get_transaction_with_params_spec(txid, opts, r),
    ensures
        r.len() == 3,
        r[0] == JsonValue::Str(txid),
        r[1] == opt_bool(opts.include_watch_only),
        r[2] == opt_bool(opts.verbose),
{
}

/// `importprunedfunds` sends, in Core's argument order: `raw_transaction`, `tx_out_proof`.
pub proof fn lemma_import_pruned_funds_request(raw_transaction: String, tx_out_proof: String, r: Seq<JsonValue>)
    requires
        import_pruned_funds_params_spec(raw_transaction, tx_out_proof, r),
    ensures
        r.len() == 2,
        r[0] == JsonValue::Str(raw_transaction),
        r[1] == JsonValue::Str(tx_out_proof),
{
}

/// `listdescriptors` sends, in Core's argument order: `private`.
pub proof fn lemma_list_descriptors_with_request(opts: ListDescriptorsOptions, r: Seq<JsonValue>)
    requires
        list_descriptors_with_params_spec(opts, r),
    ensures
        r.len() == 1,
        r[0] == opt_bool(opts.private),
{
}

/// `listlabels` sends, in Core's argument order: `purpose`.
pub proof fn lemma_list_labels_with_request(opts: ListLabelsOptions, r: Seq<JsonValue>)
    requires
        list_labels_with_params_spec(opts, r),
    ensures
        r.len() == 1,
        r[0] == opt_str(opts.purpose),
{
}

/// `listreceivedbyaddress` sends, in Core's argument order: `min_conf`, `include_empty`, `include_watch_only`, `address_filter`, `include_immature_coinbase`.
pub proof fn lemma_list_received_by_address_with_request(opts: ListReceivedByAddressOptions, r: Seq<JsonValue>)
    requires
        list_received_by_address_with_params_spec(opts, r),
    ensures
        r.len() == 5,
        r[0] == opt_int(opts.min_conf),
        r[1] == opt_bool(opts.include_empty),
        r[2] == opt_bool(opts.include_watch_only),
        r[3] == opt_str(opts.address_filter),
        r[4] == opt_bool(opts.include_immature_coinbase),
{
}

/// `listreceivedbylabel` sends, in Core's argument order: `min_conf`, `include_empty`, `include_watch_only`, `include_immature_coinbase`.
pub proof fn lemma_list_received_by_label_with_request(opts: ListReceivedByLabelOptions, r: Seq<JsonValue>)
    requires
        list_received_by_label_with_params_spec(opts, r),
    ensures
        r.len() == 4,
        r[0] == opt_int(opts.min_conf),
        r[1] == opt_bool(opts.include_empty),
        r[2] == opt_bool(opts.include_watch_only),
        r[3] == opt_bool(opts.include_immature_coinbase),
{
}

/// `listtransactions` sends, in Core's argument order: `label`, `count`, `skip`, `include_watch_only`.
pub proof fn lemma_list_transactions_with_request(opts: ListTransactionsOptions, r: Seq<JsonValue>)
    requires
        list_transactions_with_params_spec(opts, r),
    ensures
        r.len() == 4,
        r[0] == opt_str(opts.label),
        r[1] == opt_int(opts.count),
        r[2] == opt_int(opts.skip),
        r[3] == opt_bool(opts.include_watch_only),
{
}

/// `loadwallet` sends, in Core's argument order: `file_name`.
pub proof fn lemma_load_wallet_request(file_name: String, r: Seq<JsonValue>)
    requires
        load_wallet_params_spec(file_name, r),
    ensures
        r.len() == 1,
        r[0] == JsonValue::Str(file_name),
{
}

/// `loadwallet` sends, in Core's argument order: `file_name`, `load_on_startup`.
pub proof fn lemma_load_wallet_with_request(file_name: String, opts: LoadWalletOptions, r: Seq<JsonValue>)
    requires
        load_wallet_with_params_spec(file_name, opts, r),
    ensures
        r.len() == 2,
        r[0] == JsonValue::Str(file_name),
        r[1] == opt_bool(opts.load_on_startup),
{
}

/// `lockunspent` sends, in Core's argument order: `unlock`.
pub proof fn lemma_lock_unspent_request(unlock: bool, r: Seq<JsonValue>)
    requires
        lock_unspent_params_spec(unlock, r),
    ensures
        r.len() == 1,
        r[0] == JsonValue::Bool(unlock),
{
}

/// `lockunspent` sends, in Core's argument order: `unlock`, `transactions`, `persistent`.
pub proof fn lemma_lock_unspent_with_request(unlock: bool, opts: LockUnspentOptions, r: Seq<JsonValue>)
    requires
        lock_unspent_with_params_spec(unlock, opts, r),
    ensures
        r.len() == 3,
        r[0] == JsonValue::Bool(unlock),
        (match opts.transactions { Some(x) => LockUnspentTransactions::is_json_array(r[1], x@), None => r[1] == JsonValue::Null }),
        r[2] == opt_bool(opts.persistent),
{
}

/// `migratewallet` sends, in Core's argument order: `wallet_name`, `passphrase`.
pub proof fn lemma_migrate_wallet_with_request(opts: MigrateWalletOptions, r: Seq<JsonValue>)
    requires
        migrate_wallet_with_params_spec(opts, r),
    ensures
        r.len() == 2,
        r[0] == opt_str(opts.wallet_name),
        r[1] == opt_str(opts.passphrase),
{
}

/// `psbtbumpfee` sends, in Core's argument order: `txid`.
pub proof fn lemma_psbt_bump_fee_request(txid: String, r: Seq<JsonValue>)
    requires
        psbt_bump_fee_params_spec(txid, r),
    ensures
        r.len() == 1,
        r[0] == JsonValue::Str(txid),
{
}

/// `removeprunedfunds` sends, in Core's argument order: `txid`.
pub proof fn lemma_remove_pruned_funds_request(txid: String, r: Seq<JsonValue>)
    requires
        remove_pruned_funds_params_spec(txid, r),
    ensures
        r.len() == 1,
        r[0] == JsonValue::Str(txid),
{
}

/// `rescanblockchain` sends, in Core's argument order: `start_height`, `stop_height`.
pub proof fn lemma_rescan_blockchain_with_request(opts: RescanBlockchainOptions, r: Seq<JsonValue>)
    requires
        rescan_blockchain_with_params_spec(opts, r),
    ensures
        r.len() == 2,
        r[0] == opt_int(opts.start_height),
        r[1] == opt_int(opts.stop_height),
{
}

/// `restorewallet` sends, in Core's argument order: `wallet_name`, `backup_file`.
pub proof fn lemma_restore_wallet_request(wallet_name: String, backup_file: String, r: Seq<JsonValue>)
    requires
        restore_wallet_params_spec(wallet_name, backup_file, r),
    ensures
        r.len() == 2,
        r[0] == JsonValue::Str(wallet_name),
        r[1] == JsonValue::Str(backup_file),
{
}

/// `restorewallet` sends, in Core's argument order: `wallet_name`, `backup_file`, `load_on_startup`.
pub proof fn lemma_restore_wallet_with_request(wallet_name: String, backup_file: String, opts: RestoreWalletOptions, r: Seq<JsonValue>)
    requires
        restore_wallet_with_params_spec(wallet_name, backup_file, opts, r),
    ensures
        r.len() == 3,
        r[0] == JsonValue::Str(wallet_name),
        r[1] == JsonValue::Str(backup_file),
        r[2] == opt_bool(opts.load_on_startup),
{
}

/// `setlabel` sends, in Core's argument order: `address`, `label`.
pub proof fn lemma_set_label_request(address: String, label: String, r: Seq<JsonValue>)
    requires
        set_label_params_spec(address, label, r),
    ensures
        r.len() == 2,
        r[0] == JsonValue::Str(address),
        r[1] == JsonValue::Str(label),
{
}

/// `setwalletflag` sends, in Core's argument order: `flag`.
pub proof fn lemma_set_wallet_flag_request(flag: String, r: Seq<JsonValue>)
    requires
        set_wallet_flag_params_spec(flag, r),
    ensures
        r.len() == 1,
        r[0] == JsonValue::Str(flag),
{
}

/// `setwalletflag` sends, in Core's argument order: `flag`, `value`.
pub proof fn lemma_set_wallet_flag_with_request(flag: String, opts: SetWalletFlagOptions, r: Seq<JsonValue>)
    requires
        set_wallet_flag_with_params_spec(flag, opts, r),
    ensures
        r.len() == 2,
        r[0] == JsonValue::Str(flag),
        r[1] == opt_bool(opts.value),
{
}

/// `signmessage` sends, in Core's argument order: `address`, `message`.
pub proof fn lemma_sign_message_request(address: String, message: String, r: Seq<JsonValue>)
    requires
        sign_message_params_spec(address, message, r),
    ensures
        r.len() == 2,
        r[0] == JsonValue::Str(address),
        r[1] == JsonValue::Str(message),
{
}

/// `signrawtransactionwithwallet` sends, in Core's argument order: `hexstring`.
pub proof fn lemma_sign_raw_transaction_with_wallet_request(hexstring: String, r: Seq<JsonValue>)
    requires
        sign_raw_transaction_with_wallet_params_spec(hexstring, r),
    ensures
        r.len() == 1,
        r[0] == JsonValue::Str(hexstring),
{
}

/// `simulaterawtransaction` sends, in Core's argument order: `raw_txs`, `options`.
pub proof fn lemma_simulate_raw_transaction_with_request(opts: SimulateRawTransactionOptions, r: Seq<JsonValue>)
    requires
        simulate_raw_transaction_with_params_spec(opts, r),
    ensures
        r.len() == 2,
        (match opts.raw_txs { Some(x) => is_str_array(r[0], x@), None => r[0] == JsonValue::Null }),
        (match opts.options { Some(x) => x.is_json(r[1]), None => r[1] == JsonValue::Null }),
{
}

/// `unloadwallet` sends, in Core's argument order: `wallet_name`, `load_on_startup`.
pub proof fn lemma_unload_wallet_with_request(opts: UnloadWalletOptions, r: Seq<JsonValue>)
    requires
        unload_wallet_with_params_spec(opts, r),
    ensures
        r.len() == 2,
        r[0] == opt_str(opts.wallet_name),
        r[1] == opt_bool(opts.load_on_startup),
{
}

/// `walletdisplayaddress` sends, in Core's argument order: `address`.
pub proof fn lemma_wallet_display_address_request(address: String, r: Seq<JsonValue>)
    requires
        wallet_display_address_params_spec(address, r),
    ensures
        r.len() == 1,
        r[0] == JsonValue::Str(address),
{
}

/// `walletpassphrase` sends, in Core's argument order: `passphrase`, `time_out`.
pub proof fn lemma_wallet_passphrase_request(passphrase: String, time_out: i64, r: Seq<JsonValue>)
    requires
        wallet_passphrase_params_spec(passphrase, time_out, r),
    ensures
        r.len() == 2,
        r[0] == JsonValue::Str(passphrase),
        r[1] == JsonValue::Int(time_out),
{
}

/// `walletpassphrasechange` sends, in Core's argument order: `old_passphrase`, `new_passphrase`.
pub proof fn lemma_wallet_passphrase_change_request(old_passphrase: String, new_passphrase: String, r: Seq<JsonValue>)
    requires
        wallet_passphrase_change_params_spec(old_passphrase, new_passphrase, r),
    ensures
        r.len() == 2,
        r[0] == JsonValue::Str(old_passphrase),
        r[1] == JsonValue::Str(new_passphrase),
{
}

/// `walletprocesspsbt` sends, in Core's argument order: `psbt`.
pub proof fn lemma_wallet_process_psbt_request(psbt: String, r: Seq<JsonValue>)
    requires
        wallet_process_psbt_params_spec(psbt, r),
    ensures
        r.len() == 1,
        r[0] == JsonValue::Str(psbt),
{
}

/// `walletprocesspsbt` sends, in Core's argument order: `psbt`, `sign`, `sig_hash_type`, `bip32derivs`, `finalize`.
pub proof fn lemma_wallet_process_psbt_with_request(psbt: String, opts: WalletProcessPsbtOptions, r: Seq<JsonValue>)
    requires
        wallet_process_psbt_with_params_spec(psbt, opts, r),
    ensures
        r.len() == 5,
        r[0] == JsonValue::Str(psbt),
        r[1] == opt_bool(opts.sign),
        r[2] == opt_str(opts.sig_hash_type),
        r[3] == opt_bool(opts.bip32derivs),
        r[4] == opt_bool(opts.finalize),
{
}

/// The options of `createwallet` fill its optional arguments in Core's order: `disable_private_keys`, `blank`, `passphrase`, `avoid_reuse`, `descriptors`, `load_on_startup`, `external_signer`.
pub proof fn lemma_create_wallet_options_slots(o: CreateWalletOptions, r: Seq<JsonValue>)
    requires
        o.params_spec(r),
    ensures
        r.len() == 7,
        r[0] == opt_bool(o.disable_private_keys),
        r[1] == opt_bool(o.blank),
        r[2] == opt_str(o.passphrase),
        r[3] == opt_bool(o.avoid_reuse),
        r[4] == opt_bool(o.descriptors),
        r[5] == opt_bool(o.load_on_startup),
        r[6] == opt_bool(o.external_signer),
{
}

/// The options of `getbalance` fill its optional arguments in Core's order: `dummy`, `min_conf`, `include_watch_only`, `avoid_reuse`.
pub proof fn lemma_get_balance_options_slots(o: GetBalanceOptions, r: Seq<JsonValue>)
    requires
        o.params_spec(r),
    ensures
        r.len() == 4,
        r[0] == opt_str(o.dummy),
        r[1] == opt_int(o.min_conf),
        r[2] == opt_bool(o.include_watch_only),
        r[3] == opt_bool(o.avoid_reuse),
{
}

/// The options of `getnewaddress` fill its optional arguments in Core's order: `label`, `address_type`.
pub proof fn lemma_get_new_address_options_slots(o: GetNewAddressOptions, r: Seq<JsonValue>)
    requires
        o.params_spec(r),
    ensures
        r.len() == 2,
        r[0] == opt_str(o.label),
        r[1] == opt_str(o.address_type),
{
}

/// The options of `getrawchangeaddress` fill its optional arguments in Core's order: `address_type`.
pub proof fn lemma_get_raw_change_address_options_slots(o: GetRawChangeAddressOptions, r: Seq<JsonValue>)
    requires
        o.params_spec(r),
    ensures
        r.len() == 1,
        r[0] == opt_str(o.address_type),
{
}

/// The options of `getreceivedbyaddress` fill its optional arguments in Core's order: `min_conf`, `include_immature_coinbase`.
pub proof fn lemma_get_received_by_address_options_slots(o: GetReceivedByAddressOptions, r: Seq<JsonValue>)
    requires
        o.params_spec(r),
    ensures
        r.len() == 2,
        r[0] == opt_int(o.min_conf),
        r[1] == opt_bool(o.include_immature_coinbase),
{
}

/// The options of `getreceivedbylabel` fill its optional arguments in Core's order: `min_conf`, `include_immature_coinbase`.
pub proof fn lemma_get_received_by_label_options_slots(o: GetReceivedByLabelOptions, r: Seq<JsonValue>)
    requires
        o.params_spec(r),
    ensures
        r.len() == 2,
        r[0] == opt_int(o.min_conf),
        r[1] == opt_bool(o.include_immature_coinbase),
{
}

/// The options of `gettransaction` fill its optional arguments in Core's order: `include_watch_only`, `verbose`.
pub proof fn lemma_get_transaction_options_slots(o: GetTransactionOptions, r: Seq<JsonValue>)
    requires
        o.params_spec(r),
    ensures
        r.len() == 2,
        r[0] == opt_bool(o.include_watch_only),
        r[1] == opt_bool(o.verbose),
{
}

/// The options of `listdescriptors` fill its optional arguments in Core's order: `private`.
pub proof fn lemma_list_descriptors_options_slots(o: ListDescriptorsOptions, r: Seq<JsonValue>)
    requires
        o.params_spec(r),
    ensures
        r.len() == 1,
        r[0] == opt_bool(o.private),
{
}

/// The options of `listlabels` fill its optional arguments in Core's order: `purpose`.
pub proof fn lemma_list_labels_options_slots(o: ListLabelsOptions, r: Seq<JsonValue>)
    requires
        o.params_spec(r),
    ensures
        r.len() == 1,
        r[0] == opt_str(o.purpose),
{
}

/// The options of `listreceivedbyaddress` fill its optional arguments in Core's order: `min_conf`, `include_empty`, `include_watch_only`, `address_filter`, `include_immature_coinbase`.
pub proof fn lemma_list_received_by_address_options_slots(o: ListReceivedByAddressOptions, r: Seq<JsonValue>)
    requires
        o.params_spec(r),
    ensures
        r.len() == 5,
        r[0] == opt_int(o.min_conf),
        r[1] == opt_bool(o.include_empty),
        r[2] == opt_bool(o.include_watch_only),
        r[3] == opt_str(o.address_filter),
        r[4] == opt_bool(o.include_immature_coinbase),
{
}

/// The options of `listreceivedbylabel` fill its optional arguments in Core's order: `min_conf`, `include_empty`, `include_watch_only`, `include_immature_coinbase`.
pub proof fn lemma_list_received_by_label_options_slots(o: ListReceivedByLabelOptions, r: Seq<JsonValue>)
    requires
        o.params_spec(r),
    ensures
        r.len() == 4,
        r[0] == opt_int(o.min_conf),
        r[1] == opt_bool(o.include_empty),
        r[2] == opt_bool(o.include_watch_only),
        r[3] == opt_bool(o.include_immature_coinbase),
{
}

/// The options of `listtransactions` fill its optional arguments in Core's order: `label`, `count`, `skip`, `include_watch_only`.
pub proof fn lemma_list_transactions_options_slots(o: ListTransactionsOptions, r: Seq<JsonValue>)
    requires
        o.params_spec(r),
    ensures
        r.len() == 4,
        r[0] == opt_str(o.label),
        r[1] == opt_int(o.count),
        r[2] == opt_int(o.skip),
        r[3] == opt_bool(o.include_watch_only),
{
}

/// The options of `loadwallet` fill its optional arguments in Core's order: `load_on_startup`.
pub proof fn lemma_load_wallet_options_slots(o: LoadWalletOptions, r: Seq<JsonValue>)
    requires
        o.params_spec(r),
    ensures
        r.len() == 1,
        r[0] == opt_bool(o.load_on_startup),
{
}

/// The options of `lockunspent` fill its optional arguments in Core's order: `transactions`, `persistent`.
pub proof fn lemma_lock_unspent_options_slots(o: LockUnspentOptions, r: Seq<JsonValue>)
    requires
        o.params_spec(r),
    ensures
        r.len() == 2,
        (match o.transactions { Some(x) => LockUnspentTransactions::is_json_array(r[0], x@), None => r[0] == JsonValue::Null }),
        r[1] == opt_bool(o.persistent),
{
}

/// The options of `migratewallet` fill its optional arguments in Core's order: `wallet_name`, `passphrase`.
pub proof fn lemma_migrate_wallet_options_slots(o: MigrateWalletOptions, r: Seq<JsonValue>)
    requires
        o.params_spec(r),
    ensures
        r.len() == 2,
        r[0] == opt_str(o.wallet_name),
        r[1] == opt_str(o.passphrase),
{
}

/// The options of `rescanblockchain` fill its optional arguments in Core's order: `start_height`, `stop_height`.
pub proof fn lemma_rescan_blockchain_options_slots(o: RescanBlockchainOptions, r: Seq<JsonValue>)
    requires
        o.params_spec(r),
    ensures
        r.len() == 2,
        r[0] == opt_int(o.start_height),
        r[1] == opt_int(o.stop_height),
{
}

/// The options of `restorewallet` fill its optional arguments in Core's order: `load_on_startup`.
pub proof fn lemma_restore_wallet_options_slots(o: RestoreWalletOptions, r: Seq<JsonValue>)
    requires
        o.params_spec(r),
    ensures
        r.len() == 1,
        r[0] == opt_bool(o.load_on_startup),
{
}

/// The options of `setwalletflag` fill its optional arguments in Core's order: `value`.
pub proof fn lemma_set_wallet_flag_options_slots(o: SetWalletFlagOptions, r: Seq<JsonValue>)
    requires
        o.params_spec(r),
    ensures
        r.len() == 1,
        r[0] == opt_bool(o.value),
{
}

/// The options of `simulaterawtransaction` fill its optional arguments in Core's order: `raw_txs`, `options`.
pub proof fn lemma_simulate_raw_transaction_options_slots(o: SimulateRawTransactionOptions, r: Seq<JsonValue>)
    requires
        o.params_spec(r),
    ensures
        r.len() == 2,
        (match o.raw_txs { Some(x) => is_str_array(r[0], x@), None => r[0] == JsonValue::Null }),
        (match o.options { Some(x) => x.is_json(r[1]), None => r[1] == JsonValue::Null }),
{
}

/// The options of `unloadwallet` fill its optional arguments in Core's order: `wallet_name`, `load_on_startup`.
pub proof fn lemma_unload_wallet_options_slots(o: UnloadWalletOptions, r: Seq<JsonValue>)
    requires
        o.params_spec(r),
    ensures
        r.len() == 2,
        r[0] == opt_str(o.wallet_name),
        r[1] == opt_bool(o.load_on_startup),
{
}

/// The options of `walletprocesspsbt` fill its optional arguments in Core's order: `sign`, `sig_hash_type`, `bip32derivs`, `finalize`.
pub proof fn lemma_wallet_process_psbt_options_slots(o: WalletProcessPsbtOptions, r: Seq<JsonValue>)
    requires
        o.params_spec(r),
    ensures
        r.len() == 4,
        r[0] == opt_bool(o.sign),
        r[1] == opt_str(o.sig_hash_type),
        r[2] == opt_bool(o.bip32derivs),
        r[3] == opt_bool(o.finalize),
{
}

/// [`BumpFeeOptionsOutputsVariant1`] is sent as a JSON object whose members are, in order: `data`.
pub proof fn lemma_bump_fee_options_outputs_variant1_members(o: BumpFeeOptionsOutputsVariant1, j: JsonValue)
    requires
        o.is_json(j),
    ensures
        j is Object,
        j->Object_0@.len() == 1,
        j->Object_0@[0].key@ == "data"@,
        j->Object_0@[0].value == JsonValue::Str(o.data),
{
}

/// [`LockUnspentTransactions`] is sent as a JSON object whose members are, in order: `txid`, `vout`.
pub proof fn lemma_lock_unspent_transactions_members(o: LockUnspentTransactions, j: JsonValue)
    requires
        o.is_json(j),
    ensures
        j is Object,
        j->Object_0@.len() == 2,
        j->Object_0@[0].key@ == "txid"@,
        j->Object_0@[0].value == JsonValue::Str(o.txid),
        j->Object_0@[1].key@ == "vout"@,
        j->Object_0@[1].value == JsonValue::Int(o.vout),
{
}

/// [`PsbtBumpFeeOptionsOutputsVariant1`] is sent as a JSON object whose members are, in order: `data`.
pub proof fn lemma_psbt_bump_fee_options_outputs_variant1_members(o: PsbtBumpFeeOptionsOutputsVariant1, j: JsonValue)
    requires
        o.is_json(j),
    ensures
        j is Object,
        j->Object_0@.len() == 1,
        j->Object_0@[0].key@ == "data"@,
        j->Object_0@[0].value == JsonValue::Str(o.data),
{
}

/// [`SendAllOptionsArgInputsItem`] is sent as a JSON object whose members are, in order: `sequence` (when set), `txid`, `vout`.
pub proof fn lemma_send_all_options_arg_inputs_item_members(o: SendAllOptionsArgInputsItem, j: JsonValue)
    requires
        o.is_json(j),
    ensures
        j is Object,
        j->Object_0@.len() == 2 + count(o.sequence is Some),
        o.sequence matches Some(x) ==> (j->Object_0@[0].key@ == "sequence"@ && j->Object_0@[0].value == JsonValue::Int(x)),
        j->Object_0@[count(o.sequence is Some)].key@ == "txid"@,
        j->Object_0@[count(o.sequence is Some)].value == JsonValue::Str(o.txid),
        j->Object_0@[1 + count(o.sequence is Some)].key@ == "vout"@,
        j->Object_0@[1 + count(o.sequence is Some)].value == JsonValue::Int(o.vout),
{
}

/// [`SendAllOptionsArgSolvingData`] is sent as a JSON object whose members are, in order: `descriptors` (when set), `pubkeys` (when set), `scripts` (when set).
pub proof fn lemma_send_all_options_arg_solving_data_members(o: SendAllOptionsArgSolvingData, j: JsonValue)
    requires
        o.is_json(j),
    ensures
        j is Object,
        j->Object_0@.len() == count(o.descriptors is Some) + count(o.pubkeys is Some) + count(o.scripts is Some),
        o.descriptors matches Some(x) ==> (j->Object_0@[0].key@ == "descriptors"@ && is_str_array(j->Object_0@[0].value, x@)),
        o.pubkeys matches Some(x) ==> (j->Object_0@[count(o.descriptors is Some)].key@ == "pubkeys"@ && is_str_array(j->Object_0@[count(o.descriptors is Some)].value, x@)),
        o.scripts matches Some(x) ==> (j->Object_0@[count(o.descriptors is Some) + count(o.pubkeys is Some)].key@ == "scripts"@ && is_str_array(j->Object_0@[count(o.descriptors is Some) + count(o.pubkeys is Some)].value, x@)),
{
}

/// [`SendResultOptionsArgInputsItem`] is sent as a JSON object whose members are, in order: `sequence` (when set), `txid`, `vout`, `weight` (when set).
pub proof fn lemma_send_result_options_arg_inputs_item_members(o: SendResultOptionsArgInputsItem, j: JsonValue)
    requires
        o.is_json(j),
    ensures
        j is Object,
        j->Object_0@.len() == 2 + count(o.sequence is Some) + count(o.weight is Some),
        o.sequence matches Some(x) ==> (j->Object_0@[0].key@ == "sequence"@ && j->Object_0@[0].value == JsonValue::Int(x)),
        j->Object_0@[count(o.sequence is Some)].key@ == "txid"@,
        j->Object_0@[count(o.sequence is Some)].value == JsonValue::Str(o.txid),
        j->Object_0@[1 + count(o.sequence is Some)].key@ == "vout"@,
        j->Object_0@[1 + count(o.sequence is Some)].value == JsonValue::Int(o.vout),
        o.weight matches Some(x) ==> (j->Object_0@[2 + count(o.sequence is Some)].key@ == "weight"@ && j->Object_0@[2 + count(o.sequence is Some)].value == JsonValue::Int(x)),
{
}

/// [`SendResultOptionsArgSolvingData`] is sent as a JSON object whose members are, in order: `descriptors` (when set), `pubkeys` (when set), `scripts` (when set).
pub proof fn lemma_send_result_options_arg_solving_data_members(o: SendResultOptionsArgSolvingData, j: JsonValue)
    requires
        o.is_json(j),
    ensures
        j is Object,
        j->Object_0@.len() == count(o.descriptors is Some) + count(o.pubkeys is Some) + count(o.scripts is Some),
        o.descriptors matches Some(x) ==> (j->Object_0@[0].key@ == "descriptors"@ && is_str_array(j->Object_0@[0].value, x@)),
        o.pubkeys matches Some(x) ==> (j->Object_0@[count(o.descriptors is Some)].key@ == "pubkeys"@ && is_str_array(j->Object_0@[count(o.descriptors is Some)].value, x@)),
        o.scripts matches Some(x) ==> (j->Object_0@[count(o.descriptors is Some) + count(o.pubkeys is Some)].key@ == "scripts"@ && is_str_array(j->Object_0@[count(o.descriptors is Some) + count(o.pubkeys is Some)].value, x@)),
{
}

/// [`SendResultOutputsVariant1`] is sent as a JSON object whose members are, in order: `data`.
pub proof fn lemma_send_result_outputs_variant1_members(o: SendResultOutputsVariant1, j: JsonValue)
    requires
        o.is_json(j),
    ensures
        j is Object,
        j->Object_0@.len() == 1,
        j->Object_0@[0].key@ == "data"@,
        j->Object_0@[0].value == JsonValue::Str(o.data),
{
}

/// [`SimulateRawTransactionOptionsArg`] is sent as a JSON object whose members are, in order: `include_watchonly` (when set).
pub proof fn lemma_simulate_raw_transaction_options_arg_members(o: SimulateRawTransactionOptionsArg, j: JsonValue)
    requires
        o.is_json(j),
    ensures
        j is Object,
        j->Object_0@.len() == count(o.include_watch_only is Some),
        o.include_watch_only matches Some(x) ==> (j->Object_0@[0].key@ == "include_watchonly"@ && j->Object_0@[0].value == JsonValue::Bool(x)),
{
}

/// [`WalletCreateFundedPsbtInputs`] is sent as a JSON object whose members are, in order: `sequence` (when set), `txid`, `vout`, `weight` (when set).
pub proof fn lemma_wallet_create_funded_psbt_inputs_members(o: WalletCreateFundedPsbtInputs, j: JsonValue)
    requires
        o.is_json(j),
    ensures
        j is Object,
        j->Object_0@.len() == 2 + count(o.sequence is Some) + count(o.weight is Some),
        o.sequence matches Some(x) ==> (j->Object_0@[0].key@ == "sequence"@ && j->Object_0@[0].value == JsonValue::Int(x)),
        j->Object_0@[count(o.sequence is Some)].key@ == "txid"@,
        j->Object_0@[count(o.sequence is Some)].value == JsonValue::Str(o.txid),
        j->Object_0@[1 + count(o.sequence is Some)].key@ == "vout"@,
        j->Object_0@[1 + count(o.sequence is Some)].value == JsonValue::Int(o.vout),
        o.weight matches Some(x) ==> (j->Object_0@[2 + count(o.sequence is Some)].key@ == "weight"@ && j->Object_0@[2 + count(o.sequence is Some)].value == JsonValue::Int(x)),
{
}

/// [`WalletCreateFundedPsbtOptionsArgSolvingData`] is sent as a JSON object whose members are, in order: `descriptors` (when set), `pubkeys` (when set), `scripts` (when set).
pub proof fn lemma_wallet_create_funded_psbt_options_arg_solving_data_members(o: WalletCreateFundedPsbtOptionsArgSolvingData, j: JsonValue)
    requires
        o.is_json(j),
    ensures
        j is Object,
        j->Object_0@.len() == count(o.descriptors is Some) + count(o.pubkeys is Some) + count(o.scripts is Some),
        o.descriptors matches Some(x) ==> (j->Object_0@[0].key@ == "descriptors"@ && is_str_array(j->Object_0@[0].value, x@)),
        o.pubkeys matches Some(x) ==> (j->Object_0@[count(o.descriptors is Some)].key@ == "pubkeys"@ && is_str_array(j->Object_0@[count(o.descriptors is Some)].value, x@)),
        o.scripts matches Some(x) ==> (j->Object_0@[count(o.descriptors is Some) + count(o.pubkeys is Some)].key@ == "scripts"@ && is_str_array(j->Object_0@[count(o.descriptors is Some) + count(o.pubkeys is Some)].value, x@)),
{
}

/// [`WalletCreateFundedPsbtOutputsVariant1`] is sent as a JSON object whose members are, in order: `data`.
pub proof fn lemma_wallet_create_funded_psbt_outputs_variant1_members(o: WalletCreateFundedPsbtOutputsVariant1, j: JsonValue)
    requires
        o.is_json(j),
    ensures
        j is Object,
        j->Object_0@.len() == 1,
        j->Object_0@[0].key@ == "data"@,
        j->Object_0@[0].value == JsonValue::Str(o.data),
{
}

/// [`CreateWalletDescriptorOptions`] is sent as a JSON object whose members are, in order: `hdkey` (when set), `internal` (when set).
pub proof fn lemma_create_wallet_descriptor_options_members(o: CreateWalletDescriptorOptions, j: JsonValue)
    requires
        o.is_json(j),
    ensures
        j is Object,
        j->Object_0@.len() == count(o.hd_key is Some) + count(o.internal is Some),
        o.hd_key matches Some(x) ==> (j->Object_0@[0].key@ == "hdkey"@ && j->Object_0@[0].value == JsonValue::Str(x)),
        o.internal matches Some(x) ==> (j->Object_0@[count(o.hd_key is Some)].key@ == "internal"@ && j->Object_0@[count(o.hd_key is Some)].value == JsonValue::Bool(x)),
{
}

/// [`GetHdKeysOptions`] is sent as a JSON object whose members are, in order: `active_only` (when set), `private` (when set).
pub proof fn lemma_get_hd_keys_options_members(o: GetHdKeysOptions, j: JsonValue)
    requires
        o.is_json(j),
    ensures
        j is Object,
        j->Object_0@.len() == count(o.active_only is Some) + count(o.private is Some),
        o.active_only matches Some(x) ==> (j->Object_0@[0].key@ == "active_only"@ && j->Object_0@[0].value == JsonValue::Bool(x)),
        o.private matches Some(x) ==> (j->Object_0@[count(o.active_only is Some)].key@ == "private"@ && j->Object_0@[count(o.active_only is Some)].value == JsonValue::Bool(x)),
{
}

} // verus!
