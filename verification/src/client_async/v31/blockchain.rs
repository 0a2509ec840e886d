//! Options of the blockchain RPC methods (`getblock`, `getrawmempool`, `gettxout`, ...).

use vstd::prelude::*;

use crate::client_async::json::{JsonValue, JsonMember, opt_bool, opt_int, opt_str, is_str_array, is_int_array, count, json_str_array, json_int_array, json_opt_bool, json_opt_int, json_opt_str, member};

verus! {

#[derive(Clone, Debug, PartialEq)]
pub struct DumpTxOutSetOptionsArg {
    /// Height or hash of the block to roll back to before creating the snapshot. Note: The further this number is from the tip, the longer this process will take. Consider setting a higher -rpcclienttimeout value in this case.
    pub rollback: Option<i64>,
}

impl DumpTxOutSetOptionsArg {
    /// `j` is the JSON object of these fields, in order; a field marked
    /// optional is left out when unset.
    pub open spec fn is_json(self, j: JsonValue) -> bool {
        &&& j is Object
        &&& j->Object_0@.len() == count(self.rollback is Some)
        &&& (self.rollback matches Some(x) ==> (j->Object_0@[0int].key@ == "rollback"@ && j->Object_0@[0int].value == JsonValue::Int(x)))
    }

    /// The JSON object of these fields.
    pub fn to_json(self) -> (j: JsonValue)
        ensures
            self.is_json(j),
    {
        let ghost old_self = self;
        let mut ms: Vec<JsonMember> = Vec::new();
        match self.rollback {
            Some(x) => {
                let v0 = JsonValue::Int(x);
                ms.push(member("rollback", v0));
            },
            None => {},
        }
        assert(ms@.len() == count(old_self.rollback is Some));
        JsonValue::Object(ms)
    }
}

#[derive(Clone, Debug, PartialEq)]
pub struct GetTxSpendingPrevoutOutputs {
    /// The transaction id
    pub txid: String,
    /// The output number
    pub vout: i64,
}

impl GetTxSpendingPrevoutOutputs {
    /// `j` is the JSON object of these fields, in order; a field marked
    /// optional is left out when unset.
    pub open spec fn is_json(self, j: JsonValue) -> bool {
        &&& j is Object
        &&& j->Object_0@.len() == 1int + 1int
        &&& j->Object_0@[0int].key@ == "txid"@
        &&& j->Object_0@[0int].value == JsonValue::Str(self.txid)
        &&& j->Object_0@[1int].key@ == "vout"@
        &&& j->Object_0@[1int].value == JsonValue::Int(self.vout)
    }

    /// The JSON object of these fields.
    pub fn to_json(self) -> (j: JsonValue)
        ensures
            self.is_json(j),
    {
        let ghost old_self = self;
        let mut ms: Vec<JsonMember> = Vec::new();
        let v0 = JsonValue::Str(self.txid);
        ms.push(member("txid", v0));
        assert(ms@.len() == 1int);
        let v1 = JsonValue::Int(self.vout);
        ms.push(member("vout", v1));
        assert(ms@.len() == 1int + 1int);
        JsonValue::Object(ms)
    }

    /// `j` is the JSON array of the objects of `xs`, in order.
    pub open spec fn is_json_array(j: JsonValue, xs: Seq<GetTxSpendingPrevoutOutputs>) -> bool {
        &&& j is Array
        &&& j->Array_0@.len() == xs.len()
        &&& forall|i: int| 0 <= i < xs.len() ==> #[trigger] xs[i].is_json(j->Array_0@[i])
    }

    /// The JSON array of the objects of `xs`, in order.
    pub fn array_to_json(xs: Vec<GetTxSpendingPrevoutOutputs>) -> (j: JsonValue)
        ensures
            Self::is_json_array(j, xs@),
    {
        let ghost all = xs@;
        let mut rest = xs;
        let mut out: Vec<JsonValue> = Vec::new();
        while rest.len() > 0
            invariant
                out@.len() + rest@.len() == all.len(),
                rest@ == all.subrange(out@.len() as int, all.len() as int),
                forall|i: int| 0 <= i < out@.len() ==> #[trigger] all[i].is_json(out@[i]),
            decreases rest@.len(),
        {
            let x = rest.remove(0);
            let v = x.to_json();
            out.push(v);
            assert(rest@ =~= all.subrange(out@.len() as int, all.len() as int));
        }
        JsonValue::Array(out)
    }
}

#[derive(Clone, Debug, PartialEq)]
pub struct ScanBlocksOptionsArg {
    /// Filter false positives (slower and may fail on pruned nodes). Otherwise they may occur at a rate of 1/M
    pub filter_false_positives: Option<bool>,
}

impl ScanBlocksOptionsArg {
    /// `j` is the JSON object of these fields, in order; a field marked
    /// optional is left out when unset.
    pub open spec fn is_json(self, j: JsonValue) -> bool {
        &&& j is Object
        &&& j->Object_0@.len() == count(self.filter_false_positives is Some)
        &&& (self.filter_false_positives matches Some(x) ==> (j->Object_0@[0int].key@ == "filter_false_positives"@ && j->Object_0@[0int].value == JsonValue::Bool(x)))
    }

    /// The JSON object of these fields.
    pub fn to_json(self) -> (j: JsonValue)
        ensures
            self.is_json(j),
    {
        let ghost old_self = self;
        let mut ms: Vec<JsonMember> = Vec::new();
        match self.filter_false_positives {
            Some(x) => {
                let v0 = JsonValue::Bool(x);
                ms.push(member("filter_false_positives", v0));
            },
            None => {},
        }
        assert(ms@.len() == count(old_self.filter_false_positives is Some));
        JsonValue::Object(ms)
    }
}

/// Optional parameters for the `dumptxoutset` JSON-RPC method (consumed by `Client::dump_tx_out_set_with`).
#[derive(Clone, Debug, Default)]
pub struct DumpTxOutSetOptions {
    /// The type of snapshot to create. Can be "latest" to create a snapshot of the current UTXO set or "rollback" to temporarily roll back the state of the node to a historical block before creating the snapshot of a historical UTXO set. This parameter can be omitted if a separate "rollback" named parameter is specified indicating the height or hash of a specific historical block. If "rollback" is specified and separate "rollback" named parameter is not specified, this will roll back to the latest valid snapshot block that can currently be loaded with loadtxoutset.
    pub type_: Option<String>,
    pub options: Option<DumpTxOutSetOptionsArg>,
}

impl DumpTxOutSetOptions {
    /// The positional arguments these options fill, after the method's
    /// required arguments: one slot per option, in order, `null` when unset.
    pub open spec fn params_spec(self, r: Seq<JsonValue>) -> bool {
        &&& r.len() == 2
        &&& r[0] == opt_str(self.type_)
        &&& (match self.options { Some(x) => x.is_json(r[1]), None => r[1] == JsonValue::Null })
    }

    /// The positional arguments these options fill.
    pub fn to_params(self) -> (r: Vec<JsonValue>)
        ensures
            self.params_spec(r@),
    {
        let mut r: Vec<JsonValue> = Vec::new();
        let v0 = json_opt_str(self.type_);
        r.push(v0);
        let v1 = match self.options { Some(x) => x.to_json(), None => JsonValue::Null };
        r.push(v1);
        r
    }
}

/// Optional parameters for the `getblockfilter` JSON-RPC method (consumed by `Client::get_block_filter_with`).
#[derive(Clone, Debug, Default)]
pub struct GetBlockFilterOptions {
    /// The type name of the filter
    pub filter_type: Option<String>,
}

impl GetBlockFilterOptions {
    /// The positional arguments these options fill, after the method's
    /// required arguments: one slot per option, in order, `null` when unset.
    pub open spec fn params_spec(self, r: Seq<JsonValue>) -> bool {
        &&& r.len() == 1
        &&& r[0] == opt_str(self.filter_type)
    }

    /// The positional arguments these options fill.
    pub fn to_params(self) -> (r: Vec<JsonValue>)
        ensures
            self.params_spec(r@),
    {
        let mut r: Vec<JsonValue> = Vec::new();
        let v0 = json_opt_str(self.filter_type);
        r.push(v0);
        r
    }
}

/// Optional parameters for the `getblockstats` JSON-RPC method (consumed by `Client::get_block_stats_with`).
#[derive(Clone, Debug, Default)]
pub struct GetBlockStatsOptions {
    /// Values to plot (see result below)
    pub stats: Option<Vec<String>>,
}

impl GetBlockStatsOptions {
    /// The positional arguments these options fill, after the method's
    /// required arguments: one slot per option, in order, `null` when unset.
    pub open spec fn params_spec(self, r: Seq<JsonValue>) -> bool {
        &&& r.len() == 1
        &&& (match self.stats { Some(x) => is_str_array(r[0], x@), None => r[0] == JsonValue::Null })
    }

    /// The positional arguments these options fill.
    pub fn to_params(self) -> (r: Vec<JsonValue>)
        ensures
            self.params_spec(r@),
    {
        let mut r: Vec<JsonValue> = Vec::new();
        let v0 = match self.stats { Some(x) => json_str_array(x), None => JsonValue::Null };
        r.push(v0);
        r
    }
}

/// Optional parameters for the `getchaintxstats` JSON-RPC method (consumed by `Client::get_chain_tx_stats_with`).
#[derive(Clone, Debug, Default)]
pub struct GetChainTxStatsOptions {
    /// Size of the window in number of blocks
    pub n_blocks: Option<i64>,
    /// The hash of the block that ends the window.
    pub block_hash: Option<String>,
}

impl GetChainTxStatsOptions {
    /// The positional arguments these options fill, after the method's
    /// required arguments: one slot per option, in order, `null` when unset.
    pub open spec fn params_spec(self, r: Seq<JsonValue>) -> bool {
        &&& r.len() == 2
        &&& r[0] == opt_int(self.n_blocks)
        &&& r[1] == opt_str(self.block_hash)
    }

    /// The positional arguments these options fill.
    pub fn to_params(self) -> (r: Vec<JsonValue>)
        ensures
            self.params_spec(r@),
    {
        let mut r: Vec<JsonValue> = Vec::new();
        let v0 = json_opt_int(self.n_blocks);
        r.push(v0);
        let v1 = json_opt_str(self.block_hash);
        r.push(v1);
        r
    }
}

/// Optional parameters for the `getdeploymentinfo` JSON-RPC method (consumed by `Client::get_deployment_info_with`).
#[derive(Clone, Debug, Default)]
pub struct GetDeploymentInfoOptions {
    /// The block hash at which to query deployment state
    pub block_hash: Option<String>,
}

impl GetDeploymentInfoOptions {
    /// The positional arguments these options fill, after the method's
    /// required arguments: one slot per option, in order, `null` when unset.
    pub open spec fn params_spec(self, r: Seq<JsonValue>) -> bool {
        &&& r.len() == 1
        &&& r[0] == opt_str(self.block_hash)
    }

    /// The positional arguments these options fill.
    pub fn to_params(self) -> (r: Vec<JsonValue>)
        ensures
            self.params_spec(r@),
    {
        let mut r: Vec<JsonValue> = Vec::new();
        let v0 = json_opt_str(self.block_hash);
        r.push(v0);
        r
    }
}

/// Optional parameters for the `getdescriptoractivity` JSON-RPC method (consumed by `Client::get_descriptor_activity_with`).
#[derive(Clone, Debug, Default)]
pub struct GetDescriptorActivityOptions {
    /// Whether to include unconfirmed activity
    pub include_mempool: Option<bool>,
}

impl GetDescriptorActivityOptions {
    /// The positional arguments these options fill, after the method's
    /// required arguments: one slot per option, in order, `null` when unset.
    pub open spec fn params_spec(self, r: Seq<JsonValue>) -> bool {
        &&& r.len() == 1
        &&& r[0] == opt_bool(self.include_mempool)
    }

    /// The positional arguments these options fill.
    pub fn to_params(self) -> (r: Vec<JsonValue>)
        ensures
            self.params_spec(r@),
    {
        let mut r: Vec<JsonValue> = Vec::new();
        let v0 = json_opt_bool(self.include_mempool);
        r.push(v0);
        r
    }
}

/// Optional parameters for the `getrawmempool` JSON-RPC method (consumed by `Client::get_raw_mempool_with`).
#[derive(Clone, Debug, Default)]
pub struct GetRawMempoolOptions {
    /// True for a json object, false for array of transaction ids
    pub verbose: Option<bool>,
    /// If verbose=false, returns a json object with transaction list and mempool sequence number attached.
    pub mempool_sequence: Option<bool>,
}

impl GetRawMempoolOptions {
    /// The positional arguments these options fill, after the method's
    /// required arguments: one slot per option, in order, `null` when unset.
    pub open spec fn params_spec(self, r: Seq<JsonValue>) -> bool {
        &&& r.len() == 2
        &&& r[0] == opt_bool(self.verbose)
        &&& r[1] == opt_bool(self.mempool_sequence)
    }

    /// The positional arguments these options fill.
    pub fn to_params(self) -> (r: Vec<JsonValue>)
        ensures
            self.params_spec(r@),
    {
        let mut r: Vec<JsonValue> = Vec::new();
        let v0 = json_opt_bool(self.verbose);
        r.push(v0);
        let v1 = json_opt_bool(self.mempool_sequence);
        r.push(v1);
        r
    }
}

/// Optional parameters for the `gettxout` JSON-RPC method (consumed by `Client::get_tx_out_with`).
#[derive(Clone, Debug, Default)]
pub struct GetTxOutOptions {
    /// Whether to include the mempool. Note that an unspent output that is spent in the mempool won't appear.
    pub include_mempool: Option<bool>,
}

impl GetTxOutOptions {
    /// The positional arguments these options fill, after the method's
    /// required arguments: one slot per option, in order, `null` when unset.
    pub open spec fn params_spec(self, r: Seq<JsonValue>) -> bool {
        &&& r.len() == 1
        &&& r[0] == opt_bool(self.include_mempool)
    }

    /// The positional arguments these options fill.
    pub fn to_params(self) -> (r: Vec<JsonValue>)
        ensures
            self.params_spec(r@),
    {
        let mut r: Vec<JsonValue> = Vec::new();
        let v0 = json_opt_bool(self.include_mempool);
        r.push(v0);
        r
    }
}

/// Optional parameters for the `gettxoutproof` JSON-RPC method (consumed by `Client::get_tx_out_proof_with`).
#[derive(Clone, Debug, Default)]
pub struct GetTxOutProofOptions {
    /// If specified, looks for txid in the block with this hash
    pub block_hash: Option<String>,
}

impl GetTxOutProofOptions {
    /// The positional arguments these options fill, after the method's
    /// required arguments: one slot per option, in order, `null` when unset.
    pub open spec fn params_spec(self, r: Seq<JsonValue>) -> bool {
        &&& r.len() == 1
        &&& r[0] == opt_str(self.block_hash)
    }

    /// The positional arguments these options fill.
    pub fn to_params(self) -> (r: Vec<JsonValue>)
        ensures
            self.params_spec(r@),
    {
        let mut r: Vec<JsonValue> = Vec::new();
        let v0 = json_opt_str(self.block_hash);
        r.push(v0);
        r
    }
}

/// Optional parameters for the `gettxspendingprevout` JSON-RPC method (consumed by `Client::get_tx_spending_prevout_with`).
#[derive(Clone, Debug, Default)]
pub struct GetTxSpendingPrevoutOptions {
    /// If false and mempool lacks a relevant spend, use txospenderindex (throws an exception if not available).
    pub mempool_only: Option<bool>,
    /// If true, return the full spending tx.
    pub return_spending_tx: Option<bool>,
}

impl GetTxSpendingPrevoutOptions {
    /// `j` is the JSON object of these fields, in order; a field marked
    /// optional is left out when unset.
    pub open spec fn is_json(self, j: JsonValue) -> bool {
        &&& j is Object
        &&& j->Object_0@.len() == count(self.mempool_only is Some) + count(self.return_spending_tx is Some)
        &&& (self.mempool_only matches Some(x) ==> (j->Object_0@[0int].key@ == "mempool_only"@ && j->Object_0@[0int].value == JsonValue::Bool(x)))
        &&& (self.return_spending_tx matches Some(x) ==> (j->Object_0@[count(self.mempool_only is Some)].key@ == "return_spending_tx"@ && j->Object_0@[count(self.mempool_only is Some)].value == JsonValue::Bool(x)))
    }

    /// The JSON object of these fields.
    pub fn to_json(self) -> (j: JsonValue)
        ensures
            self.is_json(j),
    {
        let ghost old_self = self;
        let mut ms: Vec<JsonMember> = Vec::new();
        match self.mempool_only {
            Some(x) => {
                let v0 = JsonValue::Bool(x);
                ms.push(member("mempool_only", v0));
            },
            None => {},
        }
        assert(ms@.len() == count(old_self.mempool_only is Some));
        match self.return_spending_tx {
            Some(x) => {
                let v1 = JsonValue::Bool(x);
                ms.push(member("return_spending_tx", v1));
            },
            None => {},
        }
        assert(ms@.len() == count(old_self.mempool_only is Some) + count(old_self.return_spending_tx is Some));
        JsonValue::Object(ms)
    }
}

/// Optional parameters for the `importmempool` JSON-RPC method (consumed by `Client::import_mempool_with`).
#[derive(Clone, Debug, Default)]
pub struct ImportMempoolOptions {
    /// Whether to apply the fee delta metadata from the mempool file.
    /// It will be added to any existing fee deltas.
    /// The fee delta can be set by the prioritisetransaction RPC.
    /// Warning: Importing untrusted metadata may lead to unexpected issues and undesirable behavior.
    /// Only set this bool if you understand what it does.
    pub apply_fee_delta_priority: Option<bool>,
    /// Whether to apply the unbroadcast set metadata from the mempool file.
    /// Warning: Importing untrusted metadata may lead to unexpected issues and undesirable behavior.
    pub apply_unbroadcast_set: Option<bool>,
    /// Whether to use the current system time or use the entry time metadata from the mempool file.
    /// Warning: Importing untrusted metadata may lead to unexpected issues and undesirable behavior.
    pub use_current_time: Option<bool>,
}

impl ImportMempoolOptions {
    /// `j` is the JSON object of these fields, in order; a field marked
    /// optional is left out when unset.
    pub open spec fn is_json(self, j: JsonValue) -> bool {
        &&& j is Object
        &&& j->Object_0@.len() == count(self.apply_fee_delta_priority is Some) + count(self.apply_unbroadcast_set is Some) + count(self.use_current_time is Some)
        &&& (self.apply_fee_delta_priority matches Some(x) ==> (j->Object_0@[0int].key@ == "apply_fee_delta_priority"@ && j->Object_0@[0int].value == JsonValue::Bool(x)))
        &&& (self.apply_unbroadcast_set matches Some(x) ==> (j->Object_0@[count(self.apply_fee_delta_priority is Some)].key@ == "apply_unbroadcast_set"@ && j->Object_0@[count(self.apply_fee_delta_priority is Some)].value == JsonValue::Bool(x)))
        &&& (self.use_current_time matches Some(x) ==> (j->Object_0@[count(self.apply_fee_delta_priority is Some) + count(self.apply_unbroadcast_set is Some)].key@ == "use_current_time"@ && j->Object_0@[count(self.apply_fee_delta_priority is Some) + count(self.apply_unbroadcast_set is Some)].value == JsonValue::Bool(x)))
    }

    /// The JSON object of these fields.
    pub fn to_json(self) -> (j: JsonValue)
        ensures
            self.is_json(j),
    {
        let ghost old_self = self;
        let mut ms: Vec<JsonMember> = Vec::new();
        match self.apply_fee_delta_priority {
            Some(x) => {
                let v0 = JsonValue::Bool(x);
                ms.push(member("apply_fee_delta_priority", v0));
            },
            None => {},
        }
        assert(ms@.len() == count(old_self.apply_fee_delta_priority is Some));
        match self.apply_unbroadcast_set {
            Some(x) => {
                let v1 = JsonValue::Bool(x);
                ms.push(member("apply_unbroadcast_set", v1));
            },
            None => {},
        }
        assert(ms@.len() == count(old_self.apply_fee_delta_priority is Some) + count(old_self.apply_unbroadcast_set is Some));
        match self.use_current_time {
            Some(x) => {
                let v2 = JsonValue::Bool(x);
                ms.push(member("use_current_time", v2));
            },
            None => {},
        }
        assert(ms@.len() == count(old_self.apply_fee_delta_priority is Some) + count(old_self.apply_unbroadcast_set is Some) + count(old_self.use_current_time is Some));
        JsonValue::Object(ms)
    }
}

/// Optional parameters for the `waitforblock` JSON-RPC method (consumed by `Client::wait_for_block_with`).
#[derive(Clone, Debug, Default)]
pub struct WaitForBlockOptions {
    /// Time in milliseconds to wait for a response. 0 indicates no timeout.
    pub time_out: Option<i64>,
}

impl WaitForBlockOptions {
    /// The positional arguments these options fill, after the method's
    /// required arguments: one slot per option, in order, `null` when unset.
    pub open spec fn params_spec(self, r: Seq<JsonValue>) -> bool {
        &&& r.len() == 1
        &&& r[0] == opt_int(self.time_out)
    }

    /// The positional arguments these options fill.
    pub fn to_params(self) -> (r: Vec<JsonValue>)
        ensures
            self.params_spec(r@),
    {
        let mut r: Vec<JsonValue> = Vec::new();
        let v0 = json_opt_int(self.time_out);
        r.push(v0);
        r
    }
}

/// Optional parameters for the `waitforblockheight` JSON-RPC method (consumed by `Client::wait_for_block_height_with`).
#[derive(Clone, Debug, Default)]
pub struct WaitForBlockHeightOptions {
    /// Time in milliseconds to wait for a response. 0 indicates no timeout.
    pub time_out: Option<i64>,
}

impl WaitForBlockHeightOptions {
    /// The positional arguments these options fill, after the method's
    /// required arguments: one slot per option, in order, `null` when unset.
    pub open spec fn params_spec(self, r: Seq<JsonValue>) -> bool {
        &&& r.len() == 1
        &&& r[0] == opt_int(self.time_out)
    }

    /// The positional arguments these options fill.
    pub fn to_params(self) -> (r: Vec<JsonValue>)
        ensures
            self.params_spec(r@),
    {
        let mut r: Vec<JsonValue> = Vec::new();
        let v0 = json_opt_int(self.time_out);
        r.push(v0);
        r
    }
}

/// Optional parameters for the `waitfornewblock` JSON-RPC method (consumed by `Client::wait_for_new_block_with`).
#[derive(Clone, Debug, Default)]
pub struct WaitForNewBlockOptions {
    /// Time in milliseconds to wait for a response. 0 indicates no timeout.
    pub time_out: Option<i64>,
    /// Method waits for the chain tip to differ from this.
    pub current_tip: Option<String>,
}

impl WaitForNewBlockOptions {
    /// The positional arguments these options fill, after the method's
    /// required arguments: one slot per option, in order, `null` when unset.
    pub open spec fn params_spec(self, r: Seq<JsonValue>) -> bool {
        &&& r.len() == 2
        &&& r[0] == opt_int(self.time_out)
        &&& r[1] == opt_str(self.current_tip)
    }

    /// The positional arguments these options fill.
    pub fn to_params(self) -> (r: Vec<JsonValue>)
        ensures
            self.params_spec(r@),
    {
        let mut r: Vec<JsonValue> = Vec::new();
        let v0 = json_opt_int(self.time_out);
        r.push(v0);
        let v1 = json_opt_str(self.current_tip);
        r.push(v1);
        r
    }
}

/// `dumptxoutset` with required arguments only: its positional parameters.
pub open spec fn dump_tx_out_set_params_spec(path: String, r: Seq<JsonValue>) -> bool {
    &&& r.len() == 1
    &&& r[0] == JsonValue::Str(path)
}

/// `dumptxoutset` with required arguments only: its positional parameters.
pub fn dump_tx_out_set_params(path: String) -> (r: Vec<JsonValue>)
    ensures
        dump_tx_out_set_params_spec(path, r@),
{
    let mut r: Vec<JsonValue> = Vec::new();
    let v0 = JsonValue::Str(path);
    r.push(v0);
    r
}

/// `dumptxoutset` with all optional arguments via [`DumpTxOutSetOptions`]: its positional parameters.
pub open spec fn dump_tx_out_set_with_params_spec(path: String, opts: DumpTxOutSetOptions, r: Seq<JsonValue>) -> bool {
    &&& r.len() == 3
    &&& r[0] == JsonValue::Str(path)
    &&& opts.params_spec(r.subrange(1, 3))
}

/// `dumptxoutset` with all optional arguments via [`DumpTxOutSetOptions`]: its positional parameters.
pub fn dump_tx_out_set_with_params(path: String, opts: DumpTxOutSetOptions) -> (r: Vec<JsonValue>)
    ensures
        dump_tx_out_set_with_params_spec(path, opts, r@),
{
    let mut r: Vec<JsonValue> = Vec::new();
    let v0 = JsonValue::Str(path);
    r.push(v0);
    let mut tail = opts.to_params();
    r.append(&mut tail);
    r
}

/// `getbestblockhash` with required arguments only: its positional parameters.
pub open spec fn get_best_block_hash_params_spec(r: Seq<JsonValue>) -> bool {
    &&& r.len() == 0
}

/// `getbestblockhash` with required arguments only: its positional parameters.
pub fn get_best_block_hash_params() -> (r: Vec<JsonValue>)
    ensures
        get_best_block_hash_params_spec(r@),
{
    let mut r: Vec<JsonValue> = Vec::new();
    r
}

/// `getblock` with the result selected for verbosity `0`: its positional parameters.
pub open spec fn get_block_verbose_0_params_spec(block_hash: String, r: Seq<JsonValue>) -> bool {
    &&& r.len() == 2
    &&& r[0] == JsonValue::Str(block_hash)
    &&& r[1] == JsonValue::Int(0)
}

/// `getblock` with the result selected for verbosity `0`: its positional parameters.
pub fn get_block_verbose_0_params(block_hash: String) -> (r: Vec<JsonValue>)
    ensures
        get_block_verbose_0_params_spec(block_hash, r@),
{
    let mut r: Vec<JsonValue> = Vec::new();
    let v0 = JsonValue::Str(block_hash);
    r.push(v0);
    r.push(JsonValue::Int(0));
    r
}

/// `getblock` with the result selected for verbosity `1`: its positional parameters.
pub open spec fn get_block_verbose_1_params_spec(block_hash: String, r: Seq<JsonValue>) -> bool {
    &&& r.len() == 2
    &&& r[0] == JsonValue::Str(block_hash)
    &&& r[1] == JsonValue::Int(1)
}

/// `getblock` with the result selected for verbosity `1`: its positional parameters.
pub fn get_block_verbose_1_params(block_hash: String) -> (r: Vec<JsonValue>)
    ensures
        get_block_verbose_1_params_spec(block_hash, r@),
{
    let mut r: Vec<JsonValue> = Vec::new();
    let v0 = JsonValue::Str(block_hash);
    r.push(v0);
    r.push(JsonValue::Int(1));
    r
}

/// `getblock` with the result selected for verbosity `2`: its positional parameters.
pub open spec fn get_block_verbose_2_params_spec(block_hash: String, r: Seq<JsonValue>) -> bool {
    &&& r.len() == 2
    &&& r[0] == JsonValue::Str(block_hash)
    &&& r[1] == JsonValue::Int(2)
}

/// `getblock` with the result selected for verbosity `2`: its positional parameters.
pub fn get_block_verbose_2_params(block_hash: String) -> (r: Vec<JsonValue>)
    ensures
        get_block_verbose_2_params_spec(block_hash, r@),
{
    let mut r: Vec<JsonValue> = Vec::new();
    let v0 = JsonValue::Str(block_hash);
    r.push(v0);
    r.push(JsonValue::Int(2));
    r
}

/// `getblock` with the result selected for verbosity `3`: its positional parameters.
pub open spec fn get_block_verbose_3_params_spec(block_hash: String, r: Seq<JsonValue>) -> bool {
    &&& r.len() == 2
    &&& r[0] == JsonValue::Str(block_hash)
    &&& r[1] == JsonValue::Int(3)
}

/// `getblock` with the result selected for verbosity `3`: its positional parameters.
pub fn get_block_verbose_3_params(block_hash: String) -> (r: Vec<JsonValue>)
    ensures
        get_block_verbose_3_params_spec(block_hash, r@),
{
    let mut r: Vec<JsonValue> = Vec::new();
    let v0 = JsonValue::Str(block_hash);
    r.push(v0);
    r.push(JsonValue::Int(3));
    r
}

/// `getblockchaininfo` with required arguments only: its positional parameters.
pub open spec fn get_blockchain_info_params_spec(r: Seq<JsonValue>) -> bool {
    &&& r.len() == 0
}

/// `getblockchaininfo` with required arguments only: its positional parameters.
pub fn get_blockchain_info_params() -> (r: Vec<JsonValue>)
    ensures
        get_blockchain_info_params_spec(r@),
{
    let mut r: Vec<JsonValue> = Vec::new();
    r
}

/// `getblockcount` with required arguments only: its positional parameters.
pub open spec fn get_block_count_params_spec(r: Seq<JsonValue>) -> bool {
    &&& r.len() == 0
}

/// `getblockcount` with required arguments only: its positional parameters.
pub fn get_block_count_params() -> (r: Vec<JsonValue>)
    ensures
        get_block_count_params_spec(r@),
{
    let mut r: Vec<JsonValue> = Vec::new();
    r
}

/// `getblockfilter` with required arguments only: its positional parameters.
pub open spec fn get_block_filter_params_spec(block_hash: String, r: Seq<JsonValue>) -> bool {
    &&& r.len() == 1
    &&& r[0] == JsonValue::Str(block_hash)
}

/// `getblockfilter` with required arguments only: its positional parameters.
pub fn get_block_filter_params(block_hash: String) -> (r: Vec<JsonValue>)
    ensures
        get_block_filter_params_spec(block_hash, r@),
{
    let mut r: Vec<JsonValue> = Vec::new();
    let v0 = JsonValue::Str(block_hash);
    r.push(v0);
    r
}

/// `getblockfilter` with all optional arguments via [`GetBlockFilterOptions`]: its positional parameters.
pub open spec fn get_block_filter_with_params_spec(block_hash: String, opts: GetBlockFilterOptions, r: Seq<JsonValue>) -> bool {
    &&& r.len() == 2
    &&& r[0] == JsonValue::Str(block_hash)
    &&& opts.params_spec(r.subrange(1, 2))
}

/// `getblockfilter` with all optional arguments via [`GetBlockFilterOptions`]: its positional parameters.
pub fn get_block_filter_with_params(block_hash: String, opts: GetBlockFilterOptions) -> (r: Vec<JsonValue>)
    ensures
        get_block_filter_with_params_spec(block_hash, opts, r@),
{
    let mut r: Vec<JsonValue> = Vec::new();
    let v0 = JsonValue::Str(block_hash);
    r.push(v0);
    let mut tail = opts.to_params();
    r.append(&mut tail);
    r
}

/// `getblockhash` with required arguments only: its positional parameters.
pub open spec fn get_block_hash_params_spec(height: i64, r: Seq<JsonValue>) -> bool {
    &&& r.len() == 1
    &&& r[0] == JsonValue::Int(height)
}

/// `getblockhash` with required arguments only: its positional parameters.
pub fn get_block_hash_params(height: i64) -> (r: Vec<JsonValue>)
    ensures
        get_block_hash_params_spec(height, r@),
{
    let mut r: Vec<JsonValue> = Vec::new();
    let v0 = JsonValue::Int(height);
    r.push(v0);
    r
}

/// `getblockheader` with the result selected for verbosity `true`: its positional parameters.
pub open spec fn get_block_header_verbose_1_params_spec(block_hash: String, r: Seq<JsonValue>) -> bool {
    &&& r.len() == 2
    &&& r[0] == JsonValue::Str(block_hash)
    &&& r[1] == JsonValue::Bool(true)
}

/// `getblockheader` with the result selected for verbosity `true`: its positional parameters.
pub fn get_block_header_verbose_1_params(block_hash: String) -> (r: Vec<JsonValue>)
    ensures
        get_block_header_verbose_1_params_spec(block_hash, r@),
{
    let mut r: Vec<JsonValue> = Vec::new();
    let v0 = JsonValue::Str(block_hash);
    r.push(v0);
    r.push(JsonValue::Bool(true));
    r
}

/// `getblockheader` with the result selected for verbosity `false`: its positional parameters.
pub open spec fn get_block_header_verbose_0_params_spec(block_hash: String, r: Seq<JsonValue>) -> bool {
    &&& r.len() == 2
    &&& r[0] == JsonValue::Str(block_hash)
    &&& r[1] == JsonValue::Bool(false)
}

/// `getblockheader` with the result selected for verbosity `false`: its positional parameters.
pub fn get_block_header_verbose_0_params(block_hash: String) -> (r: Vec<JsonValue>)
    ensures
        get_block_header_verbose_0_params_spec(block_hash, r@),
{
    let mut r: Vec<JsonValue> = Vec::new();
    let v0 = JsonValue::Str(block_hash);
    r.push(v0);
    r.push(JsonValue::Bool(false));
    r
}

/// `getchainstates` with required arguments only: its positional parameters.
pub open spec fn get_chain_states_params_spec(r: Seq<JsonValue>) -> bool {
    &&& r.len() == 0
}

/// `getchainstates` with required arguments only: its positional parameters.
pub fn get_chain_states_params() -> (r: Vec<JsonValue>)
    ensures
        get_chain_states_params_spec(r@),
{
    let mut r: Vec<JsonValue> = Vec::new();
    r
}

/// `getchaintips` with required arguments only: its positional parameters.
pub open spec fn get_chain_tips_params_spec(r: Seq<JsonValue>) -> bool {
    &&& r.len() == 0
}

/// `getchaintips` with required arguments only: its positional parameters.
pub fn get_chain_tips_params() -> (r: Vec<JsonValue>)
    ensures
        get_chain_tips_params_spec(r@),
{
    let mut r: Vec<JsonValue> = Vec::new();
    r
}

/// `getchaintxstats` with required arguments only: its positional parameters.
pub open spec fn get_chain_tx_stats_params_spec(r: Seq<JsonValue>) -> bool {
    &&& r.len() == 0
}

/// `getchaintxstats` with required arguments only: its positional parameters.
pub fn get_chain_tx_stats_params() -> (r: Vec<JsonValue>)
    ensures
        get_chain_tx_stats_params_spec(r@),
{
    let mut r: Vec<JsonValue> = Vec::new();
    r
}

/// `getchaintxstats` with all optional arguments via [`GetChainTxStatsOptions`]: its positional parameters.
pub open spec fn get_chain_tx_stats_with_params_spec(opts: GetChainTxStatsOptions, r: Seq<JsonValue>) -> bool {
    &&& r.len() == 2
    &&& opts.params_spec(r.subrange(0, 2))
}

/// `getchaintxstats` with all optional arguments via [`GetChainTxStatsOptions`]: its positional parameters.
pub fn get_chain_tx_stats_with_params(opts: GetChainTxStatsOptions) -> (r: Vec<JsonValue>)
    ensures
        get_chain_tx_stats_with_params_spec(opts, r@),
{
    let mut r: Vec<JsonValue> = Vec::new();
    let mut tail = opts.to_params();
    r.append(&mut tail);
    r
}

/// `getdeploymentinfo` with required arguments only: its positional parameters.
pub open spec fn get_deployment_info_params_spec(r: Seq<JsonValue>) -> bool {
    &&& r.len() == 0
}

/// `getdeploymentinfo` with required arguments only: its positional parameters.
pub fn get_deployment_info_params() -> (r: Vec<JsonValue>)
    ensures
        get_deployment_info_params_spec(r@),
{
    let mut r: Vec<JsonValue> = Vec::new();
    r
}

/// `getdeploymentinfo` with all optional arguments via [`GetDeploymentInfoOptions`]: its positional parameters.
pub open spec fn get_deployment_info_with_params_spec(opts: GetDeploymentInfoOptions, r: Seq<JsonValue>) -> bool {
    &&& r.len() == 1
    &&& opts.params_spec(r.subrange(0, 1))
}

/// `getdeploymentinfo` with all optional arguments via [`GetDeploymentInfoOptions`]: its positional parameters.
pub fn get_deployment_info_with_params(opts: GetDeploymentInfoOptions) -> (r: Vec<JsonValue>)
    ensures
        get_deployment_info_with_params_spec(opts, r@),
{
    let mut r: Vec<JsonValue> = Vec::new();
    let mut tail = opts.to_params();
    r.append(&mut tail);
    r
}

/// `getdifficulty` with required arguments only: its positional parameters.
pub open spec fn get_difficulty_params_spec(r: Seq<JsonValue>) -> bool {
    &&& r.len() == 0
}

/// `getdifficulty` with required arguments only: its positional parameters.
pub fn get_difficulty_params() -> (r: Vec<JsonValue>)
    ensures
        get_difficulty_params_spec(r@),
{
    let mut r: Vec<JsonValue> = Vec::new();
    r
}

/// `getmempoolancestors` with the result selected for verbosity `false`: its positional parameters.
pub open spec fn get_mempool_ancestors_verbose_0_params_spec(txid: String, r: Seq<JsonValue>) -> bool {
    &&& r.len() == 2
    &&& r[0] == JsonValue::Str(txid)
    &&& r[1] == JsonValue::Bool(false)
}

/// `getmempoolancestors` with the result selected for verbosity `false`: its positional parameters.
pub fn get_mempool_ancestors_verbose_0_params(txid: String) -> (r: Vec<JsonValue>)
    ensures
        get_mempool_ancestors_verbose_0_params_spec(txid, r@),
{
    let mut r: Vec<JsonValue> = Vec::new();
    let v0 = JsonValue::Str(txid);
    r.push(v0);
    r.push(JsonValue::Bool(false));
    r
}

/// `getmempoolancestors` with the result selected for verbosity `true`: its positional parameters.
pub open spec fn get_mempool_ancestors_verbose_1_params_spec(txid: String, r: Seq<JsonValue>) -> bool {
    &&& r.len() == 2
    &&& r[0] == JsonValue::Str(txid)
    &&& r[1] == JsonValue::Bool(true)
}

/// `getmempoolancestors` with the result selected for verbosity `true`: its positional parameters.
pub fn get_mempool_ancestors_verbose_1_params(txid: String) -> (r: Vec<JsonValue>)
    ensures
        get_mempool_ancestors_verbose_1_params_spec(txid, r@),
{
    let mut r: Vec<JsonValue> = Vec::new();
    let v0 = JsonValue::Str(txid);
    r.push(v0);
    r.push(JsonValue::Bool(true));
    r
}

/// `getmempoolcluster` with required arguments only: its positional parameters.
pub open spec fn get_mempool_cluster_params_spec(txid: String, r: Seq<JsonValue>) -> bool {
    &&& r.len() == 1
    &&& r[0] == JsonValue::Str(txid)
}

/// `getmempoolcluster` with required arguments only: its positional parameters.
pub fn get_mempool_cluster_params(txid: String) -> (r: Vec<JsonValue>)
    ensures
        get_mempool_cluster_params_spec(txid, r@),
{
    let mut r: Vec<JsonValue> = Vec::new();
    let v0 = JsonValue::Str(txid);
    r.push(v0);
    r
}

/// `getmempooldescendants` with the result selected for verbosity `false`: its positional parameters.
pub open spec fn get_mempool_descendants_verbose_0_params_spec(txid: String, r: Seq<JsonValue>) -> bool {
    &&& r.len() == 2
    &&& r[0] == JsonValue::Str(txid)
    &&& r[1] == JsonValue::Bool(false)
}

/// `getmempooldescendants` with the result selected for verbosity `false`: its positional parameters.
pub fn get_mempool_descendants_verbose_0_params(txid: String) -> (r: Vec<JsonValue>)
    ensures
        get_mempool_descendants_verbose_0_params_spec(txid, r@),
{
    let mut r: Vec<JsonValue> = Vec::new();
    let v0 = JsonValue::Str(txid);
    r.push(v0);
    r.push(JsonValue::Bool(false));
    r
}

/// `getmempooldescendants` with the result selected for verbosity `true`: its positional parameters.
pub open spec fn get_mempool_descendants_verbose_1_params_spec(txid: String, r: Seq<JsonValue>) -> bool {
    &&& r.len() == 2
    &&& r[0] == JsonValue::Str(txid)
    &&& r[1] == JsonValue::Bool(true)
}

/// `getmempooldescendants` with the result selected for verbosity `true`: its positional parameters.
pub fn get_mempool_descendants_verbose_1_params(txid: String) -> (r: Vec<JsonValue>)
    ensures
        get_mempool_descendants_verbose_1_params_spec(txid, r@),
{
    let mut r: Vec<JsonValue> = Vec::new();
    let v0 = JsonValue::Str(txid);
    r.push(v0);
    r.push(JsonValue::Bool(true));
    r
}

/// `getmempoolentry` with required arguments only: its positional parameters.
pub open spec fn get_mempool_entry_params_spec(txid: String, r: Seq<JsonValue>) -> bool {
    &&& r.len() == 1
    &&& r[0] == JsonValue::Str(txid)
}

/// `getmempoolentry` with required arguments only: its positional parameters.
pub fn get_mempool_entry_params(txid: String) -> (r: Vec<JsonValue>)
    ensures
        get_mempool_entry_params_spec(txid, r@),
{
    let mut r: Vec<JsonValue> = Vec::new();
    let v0 = JsonValue::Str(txid);
    r.push(v0);
    r
}

/// `getmempoolinfo` with required arguments only: its positional parameters.
pub open spec fn get_mempool_info_params_spec(r: Seq<JsonValue>) -> bool {
    &&& r.len() == 0
}

/// `getmempoolinfo` with required arguments only: its positional parameters.
pub fn get_mempool_info_params() -> (r: Vec<JsonValue>)
    ensures
        get_mempool_info_params_spec(r@),
{
    let mut r: Vec<JsonValue> = Vec::new();
    r
}

/// `getrawmempool` with required arguments only: its positional parameters.
pub open spec fn get_raw_mempool_params_spec(r: Seq<JsonValue>) -> bool {
    &&& r.len() == 0
}

/// `getrawmempool` with required arguments only: its positional parameters.
pub fn get_raw_mempool_params() -> (r: Vec<JsonValue>)
    ensures
        get_raw_mempool_params_spec(r@),
{
    let mut r: Vec<JsonValue> = Vec::new();
    r
}

/// `getrawmempool` with all optional arguments via [`GetRawMempoolOptions`]: its positional parameters.
pub open spec fn get_raw_mempool_with_params_spec(opts: GetRawMempoolOptions, r: Seq<JsonValue>) -> bool {
    &&& r.len() == 2
    &&& opts.params_spec(r.subrange(0, 2))
}

/// `getrawmempool` with all optional arguments via [`GetRawMempoolOptions`]: its positional parameters.
pub fn get_raw_mempool_with_params(opts: GetRawMempoolOptions) -> (r: Vec<JsonValue>)
    ensures
        get_raw_mempool_with_params_spec(opts, r@),
{
    let mut r: Vec<JsonValue> = Vec::new();
    let mut tail = opts.to_params();
    r.append(&mut tail);
    r
}

/// `gettxout` with required arguments only: its positional parameters.
pub open spec fn get_tx_out_params_spec(txid: String, n: i64, r: Seq<JsonValue>) -> bool {
    &&& r.len() == 2
    &&& r[0] == JsonValue::Str(txid)
    &&& r[1] == JsonValue::Int(n)
}

/// `gettxout` with required arguments only: its positional parameters.
pub fn get_tx_out_params(txid: String, n: i64) -> (r: Vec<JsonValue>)
    ensures
        get_tx_out_params_spec(txid, n, r@),
{
    let mut r: Vec<JsonValue> = Vec::new();
    let v0 = JsonValue::Str(txid);
    r.push(v0);
    let v1 = JsonValue::Int(n);
    r.push(v1);
    r
}

/// `gettxout` with all optional arguments via [`GetTxOutOptions`]: its positional parameters.
pub open spec fn get_tx_out_with_params_spec(txid: String, n: i64, opts: GetTxOutOptions, r: Seq<JsonValue>) -> bool {
    &&& r.len() == 3
    &&& r[0] == JsonValue::Str(txid)
    &&& r[1] == JsonValue::Int(n)
    &&& opts.params_spec(r.subrange(2, 3))
}

/// `gettxout` with all optional arguments via [`GetTxOutOptions`]: its positional parameters.
pub fn get_tx_out_with_params(txid: String, n: i64, opts: GetTxOutOptions) -> (r: Vec<JsonValue>)
    ensures
        get_tx_out_with_params_spec(txid, n, opts, r@),
{
    let mut r: Vec<JsonValue> = Vec::new();
    let v0 = JsonValue::Str(txid);
    r.push(v0);
    let v1 = JsonValue::Int(n);
    r.push(v1);
    let mut tail = opts.to_params();
    r.append(&mut tail);
    r
}

/// `gettxoutproof` with required arguments only: its positional parameters.
pub open spec fn get_tx_out_proof_params_spec(txids: Vec<String>, r: Seq<JsonValue>) -> bool {
    &&& r.len() == 1
    &&& is_str_array(r[0], txids@)
}

/// `gettxoutproof` with required arguments only: its positional parameters.
pub fn get_tx_out_proof_params(txids: Vec<String>) -> (r: Vec<JsonValue>)
    ensures
        get_tx_out_proof_params_spec(txids, r@),
{
    let mut r: Vec<JsonValue> = Vec::new();
    let v0 = json_str_array(txids);
    r.push(v0);
    r
}

/// `gettxoutproof` with all optional arguments via [`GetTxOutProofOptions`]: its positional parameters.
pub open spec fn get_tx_out_proof_with_params_spec(txids: Vec<String>, opts: GetTxOutProofOptions, r: Seq<JsonValue>) -> bool {
    &&& r.len() == 2
    &&& is_str_array(r[0], txids@)
    &&& opts.params_spec(r.subrange(1, 2))
}

/// `gettxoutproof` with all optional arguments via [`GetTxOutProofOptions`]: its positional parameters.
pub fn get_tx_out_proof_with_params(txids: Vec<String>, opts: GetTxOutProofOptions) -> (r: Vec<JsonValue>)
    ensures
        get_tx_out_proof_with_params_spec(txids, opts, r@),
{
    let mut r: Vec<JsonValue> = Vec::new();
    let v0 = json_str_array(txids);
    r.push(v0);
    let mut tail = opts.to_params();
    r.append(&mut tail);
    r
}

/// `gettxoutsetinfo` with required arguments only: its positional parameters.
pub open spec fn get_tx_out_set_info_params_spec(r: Seq<JsonValue>) -> bool {
    &&& r.len() == 0
}

/// `gettxoutsetinfo` with required arguments only: its positional parameters.
pub fn get_tx_out_set_info_params() -> (r: Vec<JsonValue>)
    ensures
        get_tx_out_set_info_params_spec(r@),
{
    let mut r: Vec<JsonValue> = Vec::new();
    r
}

/// `gettxspendingprevout` with required arguments only: its positional parameters.
pub open spec fn get_tx_spending_prevout_params_spec(outputs: Vec<GetTxSpendingPrevoutOutputs>, r: Seq<JsonValue>) -> bool {
    &&& r.len() == 1
    &&& GetTxSpendingPrevoutOutputs::is_json_array(r[0], outputs@)
}

/// `gettxspendingprevout` with required arguments only: its positional parameters.
pub fn get_tx_spending_prevout_params(outputs: Vec<GetTxSpendingPrevoutOutputs>) -> (r: Vec<JsonValue>)
    ensures
        get_tx_spending_prevout_params_spec(outputs, r@),
{
    let mut r: Vec<JsonValue> = Vec::new();
    let v0 = GetTxSpendingPrevoutOutputs::array_to_json(outputs);
    r.push(v0);
    r
}

/// `gettxspendingprevout` with all optional arguments via [`GetTxSpendingPrevoutOptions`]: its positional parameters.
pub open spec fn get_tx_spending_prevout_with_params_spec(outputs: Vec<GetTxSpendingPrevoutOutputs>, opts: GetTxSpendingPrevoutOptions, r: Seq<JsonValue>) -> bool {
    &&& r.len() == 2
    &&& GetTxSpendingPrevoutOutputs::is_json_array(r[0], outputs@)
    &&& opts.is_json(r[1])
}

/// `gettxspendingprevout` with all optional arguments via [`GetTxSpendingPrevoutOptions`]: its positional parameters.
pub fn get_tx_spending_prevout_with_params(outputs: Vec<GetTxSpendingPrevoutOutputs>, opts: GetTxSpendingPrevoutOptions) -> (r: Vec<JsonValue>)
    ensures
        get_tx_spending_prevout_with_params_spec(outputs, opts, r@),
{
    let mut r: Vec<JsonValue> = Vec::new();
    let v0 = GetTxSpendingPrevoutOutputs::array_to_json(outputs);
    r.push(v0);
    r.push(opts.to_json());
    r
}

/// `importmempool` with required arguments only: its positional parameters.
pub open spec fn import_mempool_params_spec(file_path: String, r: Seq<JsonValue>) -> bool {
    &&& r.len() == 1
    &&& r[0] == JsonValue::Str(file_path)
}

/// `importmempool` with required arguments only: its positional parameters.
pub fn import_mempool_params(file_path: String) -> (r: Vec<JsonValue>)
    ensures
        import_mempool_params_spec(file_path, r@),
{
    let mut r: Vec<JsonValue> = Vec::new();
    let v0 = JsonValue::Str(file_path);
    r.push(v0);
    r
}

/// `importmempool` with all optional arguments via [`ImportMempoolOptions`]: its positional parameters.
pub open spec fn import_mempool_with_params_spec(file_path: String, opts: ImportMempoolOptions, r: Seq<JsonValue>) -> bool {
    &&& r.len() == 2
    &&& r[0] == JsonValue::Str(file_path)
    &&& opts.is_json(r[1])
}

/// `importmempool` with all optional arguments via [`ImportMempoolOptions`]: its positional parameters.
pub fn import_mempool_with_params(file_path: String, opts: ImportMempoolOptions) -> (r: Vec<JsonValue>)
    ensures
        import_mempool_with_params_spec(file_path, opts, r@),
{
    let mut r: Vec<JsonValue> = Vec::new();
    let v0 = JsonValue::Str(file_path);
    r.push(v0);
    r.push(opts.to_json());
    r
}

/// `loadtxoutset` with required arguments only: its positional parameters.
pub open spec fn load_tx_out_set_params_spec(path: String, r: Seq<JsonValue>) -> bool {
    &&& r.len() == 1
    &&& r[0] == JsonValue::Str(path)
}

/// `loadtxoutset` with required arguments only: its positional parameters.
pub fn load_tx_out_set_params(path: String) -> (r: Vec<JsonValue>)
    ensures
        load_tx_out_set_params_spec(path, r@),
{
    let mut r: Vec<JsonValue> = Vec::new();
    let v0 = JsonValue::Str(path);
    r.push(v0);
    r
}

/// `preciousblock` with required arguments only: its positional parameters.
pub open spec fn precious_block_params_spec(block_hash: String, r: Seq<JsonValue>) -> bool {
    &&& r.len() == 1
    &&& r[0] == JsonValue::Str(block_hash)
}

/// `preciousblock` with required arguments only: its positional parameters.
pub fn precious_block_params(block_hash: String) -> (r: Vec<JsonValue>)
    ensures
        precious_block_params_spec(block_hash, r@),
{
    let mut r: Vec<JsonValue> = Vec::new();
    let v0 = JsonValue::Str(block_hash);
    r.push(v0);
    r
}

/// `pruneblockchain` with required arguments only: its positional parameters.
pub open spec fn prune_blockchain_params_spec(height: i64, r: Seq<JsonValue>) -> bool {
    &&& r.len() == 1
    &&& r[0] == JsonValue::Int(height)
}

/// `pruneblockchain` with required arguments only: its positional parameters.
pub fn prune_blockchain_params(height: i64) -> (r: Vec<JsonValue>)
    ensures
        prune_blockchain_params_spec(height, r@),
{
    let mut r: Vec<JsonValue> = Vec::new();
    let v0 = JsonValue::Int(height);
    r.push(v0);
    r
}

/// `savemempool` with required arguments only: its positional parameters.
pub open spec fn save_mempool_params_spec(r: Seq<JsonValue>) -> bool {
    &&& r.len() == 0
}

/// `savemempool` with required arguments only: its positional parameters.
pub fn save_mempool_params() -> (r: Vec<JsonValue>)
    ensures
        save_mempool_params_spec(r@),
{
    let mut r: Vec<JsonValue> = Vec::new();
    r
}

/// `scanblocks` with required arguments only: its positional parameters.
pub open spec fn scan_blocks_params_spec(action: String, r: Seq<JsonValue>) -> bool {
    &&& r.len() == 1
    &&& r[0] == JsonValue::Str(action)
}

/// `scanblocks` with required arguments only: its positional parameters.
pub fn scan_blocks_params(action: String) -> (r: Vec<JsonValue>)
    ensures
        scan_blocks_params_spec(action, r@),
{
    let mut r: Vec<JsonValue> = Vec::new();
    let v0 = JsonValue::Str(action);
    r.push(v0);
    r
}

/// `scantxoutset` with required arguments only: its positional parameters.
pub open spec fn scan_tx_out_set_params_spec(action: String, r: Seq<JsonValue>) -> bool {
    &&& r.len() == 1
    &&& r[0] == JsonValue::Str(action)
}

/// `scantxoutset` with required arguments only: its positional parameters.
pub fn scan_tx_out_set_params(action: String) -> (r: Vec<JsonValue>)
    ensures
        scan_tx_out_set_params_spec(action, r@),
{
    let mut r: Vec<JsonValue> = Vec::new();
    let v0 = JsonValue::Str(action);
    r.push(v0);
    r
}

/// `verifychain` with required arguments only: its positional parameters.
pub open spec fn verify_chain_params_spec(r: Seq<JsonValue>) -> bool {
    &&& r.len() == 0
}

/// `verifychain` with required arguments only: its positional parameters.
pub fn verify_chain_params() -> (r: Vec<JsonValue>)
    ensures
        verify_chain_params_spec(r@),
{
    let mut r: Vec<JsonValue> = Vec::new();
    r
}

/// `verifytxoutproof` with required arguments only: its positional parameters.
pub open spec fn verify_tx_out_proof_params_spec(proof: String, r: Seq<JsonValue>) -> bool {
    &&& r.len() == 1
    &&& r[0] == JsonValue::Str(proof)
}

/// `verifytxoutproof` with required arguments only: its positional parameters.
pub fn verify_tx_out_proof_params(proof: String) -> (r: Vec<JsonValue>)
    ensures
        verify_tx_out_proof_params_spec(proof, r@),
{
    let mut r: Vec<JsonValue> = Vec::new();
    let v0 = JsonValue::Str(proof);
    r.push(v0);
    r
}

/// `waitforblock` with required arguments only: its positional parameters.
pub open spec fn wait_for_block_params_spec(block_hash: String, r: Seq<JsonValue>) -> bool {
    &&& r.len() == 1
    &&& r[0] == JsonValue::Str(block_hash)
}

/// `waitforblock` with required arguments only: its positional parameters.
pub fn wait_for_block_params(block_hash: String) -> (r: Vec<JsonValue>)
    ensures
        wait_for_block_params_spec(block_hash, r@),
{
    let mut r: Vec<JsonValue> = Vec::new();
    let v0 = JsonValue::Str(block_hash);
    r.push(v0);
    r
}

/// `waitforblock` with all optional arguments via [`WaitForBlockOptions`]: its positional parameters.
pub open spec fn wait_for_block_with_params_spec(block_hash: String, opts: WaitForBlockOptions, r: Seq<JsonValue>) -> bool {
    &&& r.len() == 2
    &&& r[0] == JsonValue::Str(block_hash)
    &&& opts.params_spec(r.subrange(1, 2))
}

/// `waitforblock` with all optional arguments via [`WaitForBlockOptions`]: its positional parameters.
pub fn wait_for_block_with_params(block_hash: String, opts: WaitForBlockOptions) -> (r: Vec<JsonValue>)
    ensures
        wait_for_block_with_params_spec(block_hash, opts, r@),
{
    let mut r: Vec<JsonValue> = Vec::new();
    let v0 = JsonValue::Str(block_hash);
    r.push(v0);
    let mut tail = opts.to_params();
    r.append(&mut tail);
    r
}

/// `waitforblockheight` with required arguments only: its positional parameters.
pub open spec fn wait_for_block_height_params_spec(height: i64, r: Seq<JsonValue>) -> bool {
    &&& r.len() == 1
    &&& r[0] == JsonValue::Int(height)
}

/// `waitforblockheight` with required arguments only: its positional parameters.
pub fn wait_for_block_height_params(height: i64) -> (r: Vec<JsonValue>)
    ensures
        wait_for_block_height_params_spec(height, r@),
{
    let mut r: Vec<JsonValue> = Vec::new();
    let v0 = JsonValue::Int(height);
    r.push(v0);
    r
}

/// `waitforblockheight` with all optional arguments via [`WaitForBlockHeightOptions`]: its positional parameters.
pub open spec fn wait_for_block_height_with_params_spec(height: i64, opts: WaitForBlockHeightOptions, r: Seq<JsonValue>) -> bool {
    &&& r.len() == 2
    &&& r[0] == JsonValue::Int(height)
    &&& opts.params_spec(r.subrange(1, 2))
}

/// `waitforblockheight` with all optional arguments via [`WaitForBlockHeightOptions`]: its positional parameters.
pub fn wait_for_block_height_with_params(height: i64, opts: WaitForBlockHeightOptions) -> (r: Vec<JsonValue>)
    ensures
        wait_for_block_height_with_params_spec(height, opts, r@),
{
    let mut r: Vec<JsonValue> = Vec::new();
    let v0 = JsonValue::Int(height);
    r.push(v0);
    let mut tail = opts.to_params();
    r.append(&mut tail);
    r
}

/// `waitfornewblock` with required arguments only: its positional parameters.
pub open spec fn wait_for_new_block_params_spec(r: Seq<JsonValue>) -> bool {
    &&& r.len() == 0
}

/// `waitfornewblock` with required arguments only: its positional parameters.
pub fn wait_for_new_block_params() -> (r: Vec<JsonValue>)
    ensures
        wait_for_new_block_params_spec(r@),
{
    let mut r: Vec<JsonValue> = Vec::new();
    r
}

/// `waitfornewblock` with all optional arguments via [`WaitForNewBlockOptions`]: its positional parameters.
pub open spec fn wait_for_new_block_with_params_spec(opts: WaitForNewBlockOptions, r: Seq<JsonValue>) -> bool {
    &&& r.len() == 2
    &&& opts.params_spec(r.subrange(0, 2))
}

/// `waitfornewblock` with all optional arguments via [`WaitForNewBlockOptions`]: its positional parameters.
pub fn wait_for_new_block_with_params(opts: WaitForNewBlockOptions) -> (r: Vec<JsonValue>)
    ensures
        wait_for_new_block_with_params_spec(opts, r@),
{
    let mut r: Vec<JsonValue> = Vec::new();
    let mut tail = opts.to_params();
    r.append(&mut tail);
    r
}

/// The methods that take no arguments send no parameters at all.
pub proof fn lemma_argumentless_requests_send_nothing()
    ensures
        forall|r: Seq<JsonValue>| #[trigger] get_best_block_hash_params_spec(r) ==> r.len() == 0,
        forall|r: Seq<JsonValue>| #[trigger] get_blockchain_info_params_spec(r) ==> r.len() == 0,
        forall|r: Seq<JsonValue>| #[trigger] get_block_count_params_spec(r) ==> r.len() == 0,
        forall|r: Seq<JsonValue>| #[trigger] get_chain_states_params_spec(r) ==> r.len() == 0,
        forall|r: Seq<JsonValue>| #[trigger] get_chain_tips_params_spec(r) ==> r.len() == 0,
        forall|r: Seq<JsonValue>| #[trigger] get_chain_tx_stats_params_spec(r) ==> r.len() == 0,
        forall|r: Seq<JsonValue>| #[trigger] get_deployment_info_params_spec(r) ==> r.len() == 0,
        forall|r: Seq<JsonValue>| #[trigger] get_difficulty_params_spec(r) ==> r.len() == 0,
        forall|r: Seq<JsonValue>| #[trigger] get_mempool_info_params_spec(r) ==> r.len() == 0,
        forall|r: Seq<JsonValue>| #[trigger] get_raw_mempool_params_spec(r) ==> r.len() == 0,
        forall|r: Seq<JsonValue>| #[trigger] get_tx_out_set_info_params_spec(r) ==> r.len() == 0,
        forall|r: Seq<JsonValue>| #[trigger] save_mempool_params_spec(r) ==> r.len() == 0,
        forall|r: Seq<JsonValue>| #[trigger] verify_chain_params_spec(r) ==> r.len() == 0,
        forall|r: Seq<JsonValue>| #[trigger] wait_for_new_block_params_spec(r) ==> r.len() == 0,
{
}

/// `dumptxoutset` sends, in Core's argument order: `path`.
pub proof fn lemma_dump_tx_out_set_request(path: String, r: Seq<JsonValue>)
    requires
        dump_tx_out_set_params_spec(path, r),
    ensures
        r.len() == 1,
        r[0] == JsonValue::Str(path),
{
}

/// `dumptxoutset` sends, in Core's argument order: `path`, `type_`, `options`.
pub proof fn lemma_dump_tx_out_set_with_request(path: String, opts: DumpTxOutSetOptions, r: Seq<JsonValue>)
    requires
        dump_tx_out_set_with_params_spec(path, opts, r),
    ensures
        r.len() == 3,
        r[0] == JsonValue::Str(path),
        r[1] == opt_str(opts.type_),
        (match opts.options { Some(x) => x.is_json(r[2]), None => r[2] == JsonValue::Null }),
{
}

/// `getblock` asked for verbosity `0` sends, in Core's argument order: `block_hash`, `0`.
pub proof fn lemma_get_block_verbose_0_request(block_hash: String, r: Seq<JsonValue>)
    requires
        get_block_verbose_0_params_spec(block_hash, r),
    ensures
        r.len() == 2,
        r[0] == JsonValue::Str(block_hash),
        r[1] == JsonValue::Int(0),
{
}

/// `getblock` asked for verbosity `1` sends, in Core's argument order: `block_hash`, `1`.
pub proof fn lemma_get_block_verbose_1_request(block_hash: String, r: Seq<JsonValue>)
    requires
        get_block_verbose_1_params_spec(block_hash, r),
    ensures
        r.len() == 2,
        r[0] == JsonValue::Str(block_hash),
        r[1] == JsonValue::Int(1),
{
}

/// `getblock` asked for verbosity `2` sends, in Core's argument order: `block_hash`, `2`.
pub proof fn lemma_get_block_verbose_2_request(block_hash: String, r: Seq<JsonValue>)
    requires
        get_block_verbose_2_params_spec(block_hash, r),
    ensures
        r.len() == 2,
        r[0] == JsonValue::Str(block_hash),
        r[1] == JsonValue::Int(2),
{
}

/// `getblock` asked for verbosity `3` sends, in Core's argument order: `block_hash`, `3`.
pub proof fn lemma_get_block_verbose_3_request(block_hash: String, r: Seq<JsonValue>)
    requires
        get_block_verbose_3_params_spec(block_hash, r),
    ensures
        r.len() == 2,
        r[0] == JsonValue::Str(block_hash),
        r[1] == JsonValue::Int(3),
{
}

/// `getblockfilter` sends, in Core's argument order: `block_hash`.
pub proof fn lemma_get_block_filter_request(block_hash: String, r: Seq<JsonValue>)
    requires
        get_block_filter_params_spec(block_hash, r),
    ensures
        r.len() == 1,
        r[0] == JsonValue::Str(block_hash),
{
}

/// `getblockfilter` sends, in Core's argument order: `block_hash`, `filter_type`.
pub proof fn lemma_get_block_filter_with_request(block_hash: String, opts: GetBlockFilterOptions, r: Seq<JsonValue>)
    requires
        get_block_filter_with_params_spec(block_hash, opts, r),
    ensures
        r.len() == 2,
        r[0] == JsonValue::Str(block_hash),
        r[1] == opt_str(opts.filter_type),
{
}

/// `getblockhash` sends, in Core's argument order: `height`.
pub proof fn lemma_get_block_hash_request(height: i64, r: Seq<JsonValue>)
    requires
        get_block_hash_params_spec(height, r),
    ensures
        r.len() == 1,
        r[0] == JsonValue::Int(height),
{
}

/// `getblockheader` asked for verbosity `1` sends, in Core's argument order: `block_hash`, `true`.
pub proof fn lemma_get_block_header_verbose_1_request(block_hash: String, r: Seq<JsonValue>)
    requires
        get_block_header_verbose_1_params_spec(block_hash, r),
    ensures
        r.len() == 2,
        r[0] == JsonValue::Str(block_hash),
        r[1] == JsonValue::Bool(true),
{
}

/// `getblockheader` asked for verbosity `0` sends, in Core's argument order: `block_hash`, `false`.
pub proof fn lemma_get_block_header_verbose_0_request(block_hash: String, r: Seq<JsonValue>)
    requires
        get_block_header_verbose_0_params_spec(block_hash, r),
    ensures
        r.len() == 2,
        r[0] == JsonValue::Str(block_hash),
        r[1] == JsonValue::Bool(false),
{
}

/// `getchaintxstats` sends, in Core's argument order: `n_blocks`, `block_hash`.
pub proof fn lemma_get_chain_tx_stats_with_request(opts: GetChainTxStatsOptions, r: Seq<JsonValue>)
    requires
        get_chain_tx_stats_with_params_spec(opts, r),
    ensures
        r.len() == 2,
        r[0] == opt_int(opts.n_blocks),
        r[1] == opt_str(opts.block_hash),
{
}

/// `getdeploymentinfo` sends, in Core's argument order: `block_hash`.
pub proof fn lemma_get_deployment_info_with_request(opts: GetDeploymentInfoOptions, r: Seq<JsonValue>)
    requires
        get_deployment_info_with_params_spec(opts, r),
    ensures
        r.len() == 1,
        r[0] == opt_str(opts.block_hash),
{
}

/// `getmempoolancestors` asked for verbosity `0` sends, in Core's argument order: `txid`, `false`.
pub proof fn lemma_get_mempool_ancestors_verbose_0_request(txid: String, r: Seq<JsonValue>)
    requires
        get_mempool_ancestors_verbose_0_params_spec(txid, r),
    ensures
        r.len() == 2,
        r[0] == JsonValue::Str(txid),
        r[1] == JsonValue::Bool(false),
{
}

/// `getmempoolancestors` asked for verbosity `1` sends, in Core's argument order: `txid`, `true`.
pub proof fn lemma_get_mempool_ancestors_verbose_1_request(txid: String, r: Seq<JsonValue>)
    requires
        get_mempool_ancestors_verbose_1_params_spec(txid, r),
    ensures
        r.len() == 2,
        r[0] == JsonValue::Str(txid),
        r[1] == JsonValue::Bool(true),
{
}

/// `getmempoolcluster` sends, in Core's argument order: `txid`.
pub proof fn lemma_get_mempool_cluster_request(txid: String, r: Seq<JsonValue>)
    requires
        get_mempool_cluster_params_spec(txid, r),
    ensures
        r.len() == 1,
        r[0] == JsonValue::Str(txid),
{
}

/// `getmempooldescendants` asked for verbosity `0` sends, in Core's argument order: `txid`, `false`.
pub proof fn lemma_get_mempool_descendants_verbose_0_request(txid: String, r: Seq<JsonValue>)
    requires
        get_mempool_descendants_verbose_0_params_spec(txid, r),
    ensures
        r.len() == 2,
        r[0] == JsonValue::Str(txid),
        r[1] == JsonValue::Bool(false),
{
}

/// `getmempooldescendants` asked for verbosity `1` sends, in Core's argument order: `txid`, `true`.
pub proof fn lemma_get_mempool_descendants_verbose_1_request(txid: String, r: Seq<JsonValue>)
    requires
        get_mempool_descendants_verbose_1_params_spec(txid, r),
    ensures
        r.len() == 2,
        r[0] == JsonValue::Str(txid),
        r[1] == JsonValue::Bool(true),
{
}

/// `getmempoolentry` sends, in Core's argument order: `txid`.
pub proof fn lemma_get_mempool_entry_request(txid: String, r: Seq<JsonValue>)
    requires
        get_mempool_entry_params_spec(txid, r),
    ensures
        r.len() == 1,
        r[0] == JsonValue::Str(txid),
{
}

/// `getrawmempool` sends, in Core's argument order: `verbose`, `mempool_sequence`.
pub proof fn lemma_get_raw_mempool_with_request(opts: GetRawMempoolOptions, r: Seq<JsonValue>)
    requires
        get_raw_mempool_with_params_spec(opts, r),
    ensures
        r.len() == 2,
        r[0] == opt_bool(opts.verbose),
        r[1] == opt_bool(opts.mempool_sequence),
{
}

/// `gettxout` sends, in Core's argument order: `txid`, `n`.
pub proof fn lemma_get_tx_out_request(txid: String, n: i64, r: Seq<JsonValue>)
    requires
        get_tx_out_params_spec(txid, n, r),
    ensures
        r.len() == 2,
        r[0] == JsonValue::Str(txid),
        r[1] == JsonValue::Int(n),
{
}

/// `gettxout` sends, in Core's argument order: `txid`, `n`, `include_mempool`.
pub proof fn lemma_get_tx_out_with_request(txid: String, n: i64, opts: GetTxOutOptions, r: Seq<JsonValue>)
    requires
        get_tx_out_with_params_spec(txid, n, opts, r),
    ensures
        r.len() == 3,
        r[0] == JsonValue::Str(txid),
        r[1] == JsonValue::Int(n),
        r[2] == opt_bool(opts.include_mempool),
{
}

/// `gettxoutproof` sends, in Core's argument order: `txids`.
pub proof fn lemma_get_tx_out_proof_request(txids: Vec<String>, r: Seq<JsonValue>)
    requires
        get_tx_out_proof_params_spec(txids, r),
    ensures
        r.len() == 1,
        is_str_array(r[0], txids@),
{
}

/// `gettxoutproof` sends, in Core's argument order: `txids`, `block_hash`.
pub proof fn lemma_get_tx_out_proof_with_request(txids: Vec<String>, opts: GetTxOutProofOptions, r: Seq<JsonValue>)
    requires
        get_tx_out_proof_with_params_spec(txids, opts, r),
    ensures
        r.len() == 2,
        is_str_array(r[0], txids@),
        r[1] == opt_str(opts.block_hash),
{
}

/// `gettxspendingprevout` sends, in Core's argument order: `outputs`.
pub proof fn lemma_get_tx_spending_prevout_request(outputs: Vec<GetTxSpendingPrevoutOutputs>, r: Seq<JsonValue>)
    requires
        get_tx_spending_prevout_params_spec(outputs, r),
    ensures
        r.len() == 1,
        GetTxSpendingPrevoutOutputs::is_json_array(r[0], outputs@),
{
}

/// `gettxspendingprevout` sends, in Core's argument order: `outputs`, the options object.
pub proof fn lemma_get_tx_spending_prevout_with_request(outputs: Vec<GetTxSpendingPrevoutOutputs>, opts: GetTxSpendingPrevoutOptions, r: Seq<JsonValue>)
    requires
        get_tx_spending_prevout_with_params_spec(outputs, opts, r),
    ensures
        r.len() == 2,
        GetTxSpendingPrevoutOutputs::is_json_array(r[0], outputs@),
        opts.is_json(r[1]),
{
}

/// `importmempool` sends, in Core's argument order: `file_path`.
pub proof fn lemma_import_mempool_request(file_path: String, r: Seq<JsonValue>)
    requires
        import_mempool_params_spec(file_path, r),
    ensures
        r.len() == 1,
        r[0] == JsonValue::Str(file_path),
{
}

/// `importmempool` sends, in Core's argument order: `file_path`, the options object.
pub proof fn lemma_import_mempool_with_request(file_path: String, opts: ImportMempoolOptions, r: Seq<JsonValue>)
    requires
        import_mempool_with_params_spec(file_path, opts, r),
    ensures
        r.len() == 2,
        r[0] == JsonValue::Str(file_path),
        opts.is_json(r[1]),
{
}

/// `loadtxoutset` sends, in Core's argument order: `path`.
pub proof fn lemma_load_tx_out_set_request(path: String, r: Seq<JsonValue>)
    requires
        load_tx_out_set_params_spec(path, r),
    ensures
        r.len() == 1,
        r[0] == JsonValue::Str(path),
{
}

/// `preciousblock` sends, in Core's argument order: `block_hash`.
pub proof fn lemma_precious_block_request(block_hash: String, r: Seq<JsonValue>)
    requires
        precious_block_params_spec(block_hash, r),
    ensures
        r.len() == 1,
        r[0] == JsonValue::Str(block_hash),
{
}

/// `pruneblockchain` sends, in Core's argument order: `height`.
pub proof fn lemma_prune_blockchain_request(height: i64, r: Seq<JsonValue>)
    requires
        prune_blockchain_params_spec(height, r),
    ensures
        r.len() == 1,
        r[0] == JsonValue::Int(height),
{
}

/// `scanblocks` sends, in Core's argument order: `action`.
pub proof fn lemma_scan_blocks_request(action: String, r: Seq<JsonValue>)
    requires
        scan_blocks_params_spec(action, r),
    ensures
        r.len() == 1,
        r[0] == JsonValue::Str(action),
{
}

/// `scantxoutset` sends, in Core's argument order: `action`.
pub proof fn lemma_scan_tx_out_set_request(action: String, r: Seq<JsonValue>)
    requires
        scan_tx_out_set_params_spec(action, r),
    ensures
        r.len() == 1,
        r[0] == JsonValue::Str(action),
{
}

/// `verifytxoutproof` sends, in Core's argument order: `proof`.
pub proof fn lemma_verify_tx_out_proof_request(proof: String, r: Seq<JsonValue>)
    requires
        verify_tx_out_proof_params_spec(proof, r),
    ensures
        r.len() == 1,
        r[0] == JsonValue::Str(proof),
{
}

/// `waitforblock` sends, in Core's argument order: `block_hash`.
pub proof fn lemma_wait_for_block_request(block_hash: String, r: Seq<JsonValue>)
    requires
        wait_for_block_params_spec(block_hash, r),
    ensures
        r.len() == 1,
        r[0] == JsonValue::Str(block_hash),
{
}

/// `waitforblock` sends, in Core's argument order: `block_hash`, `time_out`.
pub proof fn lemma_wait_for_block_with_request(block_hash: String, opts: WaitForBlockOptions, r: Seq<JsonValue>)
    requires
        wait_for_block_with_params_spec(block_hash, opts, r),
    ensures
        r.len() == 2,
        r[0] == JsonValue::Str(block_hash),
        r[1] == opt_int(opts.time_out),
{
}

/// `waitforblockheight` sends, in Core's argument order: `height`.
pub proof fn lemma_wait_for_block_height_request(height: i64, r: Seq<JsonValue>)
    requires
        wait_for_block_height_params_spec(height, r),
    ensures
        r.len() == 1,
        r[0] == JsonValue::Int(height),
{
}

/// `waitforblockheight` sends, in Core's argument order: `height`, `time_out`.
pub proof fn lemma_wait_for_block_height_with_request(height: i64, opts: WaitForBlockHeightOptions, r: Seq<JsonValue>)
    requires
        wait_for_block_height_with_params_spec(height, opts, r),
    ensures
        r.len() == 2,
        r[0] == JsonValue::Int(height),
        r[1] == opt_int(opts.time_out),
{
}

/// `waitfornewblock` sends, in Core's argument order: `time_out`, `current_tip`.
pub proof fn lemma_wait_for_new_block_with_request(opts: WaitForNewBlockOptions, r: Seq<JsonValue>)
    requires
        wait_for_new_block_with_params_spec(opts, r),
    ensures
        r.len() == 2,
        r[0] == opt_int(opts.time_out),
        r[1] == opt_str(opts.current_tip),
{
}

/// The options of `dumptxoutset` fill its optional arguments in Core's order: `type_`, `options`.
pub proof fn lemma_dump_tx_out_set_options_slots(o: DumpTxOutSetOptions, r: Seq<JsonValue>)
    requires
        o.params_spec(r),
    ensures
        r.len() == 2,
        r[0] == opt_str(o.type_),
        (match o.options { Some(x) => x.is_json(r[1]), None => r[1] == JsonValue::Null }),
{
}

/// The options of `getblockfilter` fill its optional arguments in Core's order: `filter_type`.
pub proof fn lemma_get_block_filter_options_slots(o: GetBlockFilterOptions, r: Seq<JsonValue>)
    requires
        o.params_spec(r),
    ensures
        r.len() == 1,
        r[0] == opt_str(o.filter_type),
{
}

/// The options of `getchaintxstats` fill its optional arguments in Core's order: `n_blocks`, `block_hash`.
pub proof fn lemma_get_chain_tx_stats_options_slots(o: GetChainTxStatsOptions, r: Seq<JsonValue>)
    requires
        o.params_spec(r),
    ensures
        r.len() == 2,
        r[0] == opt_int(o.n_blocks),
        r[1] == opt_str(o.block_hash),
{
}

/// The options of `getdeploymentinfo` fill its optional arguments in Core's order: `block_hash`.
pub proof fn lemma_get_deployment_info_options_slots(o: GetDeploymentInfoOptions, r: Seq<JsonValue>)
    requires
        o.params_spec(r),
    ensures
        r.len() == 1,
        r[0] == opt_str(o.block_hash),
{
}

/// The options of `getrawmempool` fill its optional arguments in Core's order: `verbose`, `mempool_sequence`.
pub proof fn lemma_get_raw_mempool_options_slots(o: GetRawMempoolOptions, r: Seq<JsonValue>)
    requires
        o.params_spec(r),
    ensures
        r.len() == 2,
        r[0] == opt_bool(o.verbose),
        r[1] == opt_bool(o.mempool_sequence),
{
}

/// The options of `gettxout` fill its optional arguments in Core's order: `include_mempool`.
pub proof fn lemma_get_tx_out_options_slots(o: GetTxOutOptions, r: Seq<JsonValue>)
    requires
        o.params_spec(r),
    ensures
        r.len() == 1,
        r[0] == opt_bool(o.include_mempool),
{
}

/// The options of `gettxoutproof` fill its optional arguments in Core's order: `block_hash`.
pub proof fn lemma_get_tx_out_proof_options_slots(o: GetTxOutProofOptions, r: Seq<JsonValue>)
    requires
        o.params_spec(r),
    ensures
        r.len() == 1,
        r[0] == opt_str(o.block_hash),
{
}

/// The options of `waitforblock` fill its optional arguments in Core's order: `time_out`.
pub proof fn lemma_wait_for_block_options_slots(o: WaitForBlockOptions, r: Seq<JsonValue>)
    requires
        o.params_spec(r),
    ensures
        r.len() == 1,
        r[0] == opt_int(o.time_out),
{
}

/// The options of `waitforblockheight` fill its optional arguments in Core's order: `time_out`.
pub proof fn lemma_wait_for_block_height_options_slots(o: WaitForBlockHeightOptions, r: Seq<JsonValue>)
    requires
        o.params_spec(r),
    ensures
        r.len() == 1,
        r[0] == opt_int(o.time_out),
{
}

/// The options of `waitfornewblock` fill its optional arguments in Core's order: `time_out`, `current_tip`.
pub proof fn lemma_wait_for_new_block_options_slots(o: WaitForNewBlockOptions, r: Seq<JsonValue>)
    requires
        o.params_spec(r),
    ensures
        r.len() == 2,
        r[0] == opt_int(o.time_out),
        r[1] == opt_str(o.current_tip),
{
}

/// [`DumpTxOutSetOptionsArg`] is sent as a JSON object whose members are, in order: `rollback` (when set).
pub proof fn lemma_dump_tx_out_set_options_arg_members(o: DumpTxOutSetOptionsArg, j: JsonValue)
    requires
        o.is_json(j),
    ensures
        j is Object,
        j->Object_0@.len() == count(o.rollback is Some),
        o.rollback matches Some(x) ==> (j->Object_0@[0].key@ == "rollback"@ && j->Object_0@[0].value == JsonValue::Int(x)),
{
}

/// [`GetTxSpendingPrevoutOutputs`] is sent as a JSON object whose members are, in order: `txid`, `vout`.
pub proof fn lemma_get_tx_spending_prevout_outputs_members(o: GetTxSpendingPrevoutOutputs, j: JsonValue)
    requires
        o.is_json(j),
    ensures
        j is Object,
        j->Object_0@.len() == 2,
        j->Object_0@[0].key@ == "txid"@,
        j->Object_0@[0].value == JsonValue::Str(o.txid),
        j->Object_0@[1].key@ == "vout"@,
        j->Object_0@[1].value == JsonValue::Int(o.vout),
{
}

/// [`ScanBlocksOptionsArg`] is sent as a JSON object whose members are, in order: `filter_false_positives` (when set).
pub proof fn lemma_scan_blocks_options_arg_members(o: ScanBlocksOptionsArg, j: JsonValue)
    requires
        o.is_json(j),
    ensures
        j is Object,
        j->Object_0@.len() == count(o.filter_false_positives is Some),
        o.filter_false_positives matches Some(x) ==> (j->Object_0@[0].key@ == "filter_false_positives"@ && j->Object_0@[0].value == JsonValue::Bool(x)),
{
}

/// [`GetTxSpendingPrevoutOptions`] is sent as a JSON object whose members are, in order: `mempool_only` (when set), `return_spending_tx` (when set).
pub proof fn lemma_get_tx_spending_prevout_options_members(o: GetTxSpendingPrevoutOptions, j: JsonValue)
    requires
        o.is_json(j),
    ensures
        j is Object,
        j->Object_0@.len() == count(o.mempool_only is Some) + count(o.return_spending_tx is Some),
        o.mempool_only matches Some(x) ==> (j->Object_0@[0].key@ == "mempool_only"@ && j->Object_0@[0].value == JsonValue::Bool(x)),
        o.return_spending_tx matches Some(x) ==> (j->Object_0@[count(o.mempool_only is Some)].key@ == "return_spending_tx"@ && j->Object_0@[count(o.mempool_only is Some)].value == JsonValue::Bool(x)),
{
}

/// [`ImportMempoolOptions`] is sent as a JSON object whose members are, in order: `apply_fee_delta_priority` (when set), `apply_unbroadcast_set` (when set), `use_current_time` (when set).
pub proof fn lemma_import_mempool_options_members(o: ImportMempoolOptions, j: JsonValue)
    requires
        o.is_json(j),
    ensures
        j is Object,
        j->Object_0@.len() == count(o.apply_fee_delta_priority is Some) + count(o.apply_unbroadcast_set is Some) + count(o.use_current_time is Some),
        o.apply_fee_delta_priority matches Some(x) ==> (j->Object_0@[0].key@ == "apply_fee_delta_priority"@ && j->Object_0@[0].value == JsonValue::Bool(x)),
        o.apply_unbroadcast_set matches Some(x) ==> (j->Object_0@[count(o.apply_fee_delta_priority is Some)].key@ == "apply_unbroadcast_set"@ && j->Object_0@[count(o.apply_fee_delta_priority is Some)].value == JsonValue::Bool(x)),
        o.use_current_time matches Some(x) ==> (j->Object_0@[count(o.apply_fee_delta_priority is Some) + count(o.apply_unbroadcast_set is Some)].key@ == "use_current_time"@ && j->Object_0@[count(o.apply_fee_delta_priority is Some) + count(o.apply_unbroadcast_set is Some)].value == JsonValue::Bool(x)),
{
}

} // verus!
