//! Options of the hidden (testing) RPC methods.

use vstd::prelude::*;

use crate::client_async::json::{JsonValue, JsonMember, opt_bool, opt_int, opt_str, is_str_array, is_int_array, count, json_str_array, json_int_array, json_opt_bool, json_opt_int, json_opt_str, member};

verus! {

/// Optional parameters for the `addpeeraddress` JSON-RPC method (consumed by `Client::add_peer_address_with`).
#[derive(Clone, Debug, Default)]
pub struct AddPeerAddressOptions {
    /// If true, attempt to add the peer to the tried addresses table
    ///
    /// Default in Bitcoin Core: `false`.
    pub tried: Option<bool>,
}

impl AddPeerAddressOptions {
    /// The positional arguments these options fill, after the method's
    /// required arguments: one slot per option, in order, `null` when unset.
    pub open spec fn params_spec(self, r: Seq<JsonValue>) -> bool {
        &&& r.len() == 1
        &&& r[0] == opt_bool(self.tried)
    }

    /// The positional arguments these options fill.
    pub fn to_params(self) -> (r: Vec<JsonValue>)
        ensures
            self.params_spec(r@),
    {
        let mut r: Vec<JsonValue> = Vec::new();
        let v0 = json_opt_bool(self.tried);
        r.push(v0);
        r
    }
}

/// Optional parameters for the `echo` JSON-RPC method (consumed by `Client::echo_with`).
#[derive(Clone, Debug, Default)]
pub struct EchoOptions {
    pub arg0: Option<String>,
    pub arg1: Option<String>,
    pub arg2: Option<String>,
    pub arg3: Option<String>,
    pub arg4: Option<String>,
    pub arg5: Option<String>,
    pub arg6: Option<String>,
    pub arg7: Option<String>,
    pub arg8: Option<String>,
    pub arg9: Option<String>,
}

impl EchoOptions {
    /// The positional arguments these options fill, after the method's
    /// required arguments: one slot per option, in order, `null` when unset.
    pub open spec fn params_spec(self, r: Seq<JsonValue>) -> bool {
        &&& r.len() == 10
        &&& r[0] == opt_str(self.arg0)
        &&& r[1] == opt_str(self.arg1)
        &&& r[2] == opt_str(self.arg2)
        &&& r[3] == opt_str(self.arg3)
        &&& r[4] == opt_str(self.arg4)
        &&& r[5] == opt_str(self.arg5)
        &&& r[6] == opt_str(self.arg6)
        &&& r[7] == opt_str(self.arg7)
        &&& r[8] == opt_str(self.arg8)
        &&& r[9] == opt_str(self.arg9)
    }

    /// The positional arguments these options fill.
    pub fn to_params(self) -> (r: Vec<JsonValue>)
        ensures
            self.params_spec(r@),
    {
        let mut r: Vec<JsonValue> = Vec::new();
        let v0 = json_opt_str(self.arg0);
        r.push(v0);
        let v1 = json_opt_str(self.arg1);
        r.push(v1);
        let v2 = json_opt_str(self.arg2);
        r.push(v2);
        let v3 = json_opt_str(self.arg3);
        r.push(v3);
        let v4 = json_opt_str(self.arg4);
        r.push(v4);
        let v5 = json_opt_str(self.arg5);
        r.push(v5);
        let v6 = json_opt_str(self.arg6);
        r.push(v6);
        let v7 = json_opt_str(self.arg7);
        r.push(v7);
        let v8 = json_opt_str(self.arg8);
        r.push(v8);
        let v9 = json_opt_str(self.arg9);
        r.push(v9);
        r
    }
}

/// Optional parameters for the `echojson` JSON-RPC method (consumed by `Client::echo_json_with`).
#[derive(Clone, Debug, Default)]
pub struct EchoJsonOptions {
    pub arg0: Option<String>,
    pub arg1: Option<String>,
    pub arg2: Option<String>,
    pub arg3: Option<String>,
    pub arg4: Option<String>,
    pub arg5: Option<String>,
    pub arg6: Option<String>,
    pub arg7: Option<String>,
    pub arg8: Option<String>,
    pub arg9: Option<String>,
}

impl EchoJsonOptions {
    /// The positional arguments these options fill, after the method's
    /// required arguments: one slot per option, in order, `null` when unset.
    pub open spec fn params_spec(self, r: Seq<JsonValue>) -> bool {
        &&& r.len() == 10
        &&& r[0] == opt_str(self.arg0)
        &&& r[1] == opt_str(self.arg1)
        &&& r[2] == opt_str(self.arg2)
        &&& r[3] == opt_str(self.arg3)
        &&& r[4] == opt_str(self.arg4)
        &&& r[5] == opt_str(self.arg5)
        &&& r[6] == opt_str(self.arg6)
        &&& r[7] == opt_str(self.arg7)
        &&& r[8] == opt_str(self.arg8)
        &&& r[9] == opt_str(self.arg9)
    }

    /// The positional arguments these options fill.
    pub fn to_params(self) -> (r: Vec<JsonValue>)
        ensures
            self.params_spec(r@),
    {
        let mut r: Vec<JsonValue> = Vec::new();
        let v0 = json_opt_str(self.arg0);
        r.push(v0);
        let v1 = json_opt_str(self.arg1);
        r.push(v1);
        let v2 = json_opt_str(self.arg2);
        r.push(v2);
        let v3 = json_opt_str(self.arg3);
        r.push(v3);
        let v4 = json_opt_str(self.arg4);
        r.push(v4);
        let v5 = json_opt_str(self.arg5);
        r.push(v5);
        let v6 = json_opt_str(self.arg6);
        r.push(v6);
        let v7 = json_opt_str(self.arg7);
        r.push(v7);
        let v8 = json_opt_str(self.arg8);
        r.push(v8);
        let v9 = json_opt_str(self.arg9);
        r.push(v9);
        r
    }
}

/// Optional parameters for the `generateblock` JSON-RPC method (consumed by `Client::generate_block_with`).
#[derive(Clone, Debug, Default)]
pub struct GenerateBlockOptions {
    /// Whether to submit the block before the RPC call returns or to return it as hex.
    ///
    /// Default in Bitcoin Core: `true`.
    pub submit: Option<bool>,
}

impl GenerateBlockOptions {
    /// The positional arguments these options fill, after the method's
    /// required arguments: one slot per option, in order, `null` when unset.
    pub open spec fn params_spec(self, r: Seq<JsonValue>) -> bool {
        &&& r.len() == 1
        &&& r[0] == opt_bool(self.submit)
    }

    /// The positional arguments these options fill.
    pub fn to_params(self) -> (r: Vec<JsonValue>)
        ensures
            self.params_spec(r@),
    {
        let mut r: Vec<JsonValue> = Vec::new();
        let v0 = json_opt_bool(self.submit);
        r.push(v0);
        r
    }
}

/// `addconnection` with required arguments only: its positional parameters.
pub open spec fn add_connection_params_spec(address: String, connection_type: String, v2transport: bool, r: Seq<JsonValue>) -> bool {
    &&& r.len() == 3
    &&& r[0] == JsonValue::Str(address)
    &&& r[1] == JsonValue::Str(connection_type)
    &&& r[2] == JsonValue::Bool(v2transport)
}

/// `addconnection` with required arguments only: its positional parameters.
pub fn add_connection_params(address: String, connection_type: String, v2transport: bool) -> (r: Vec<JsonValue>)
    ensures
        add_connection_params_spec(address, connection_type, v2transport, r@),
{
    let mut r: Vec<JsonValue> = Vec::new();
    let v0 = JsonValue::Str(address);
    r.push(v0);
    let v1 = JsonValue::Str(connection_type);
    r.push(v1);
    let v2 = JsonValue::Bool(v2transport);
    r.push(v2);
    r
}

/// `addpeeraddress` with required arguments only: its positional parameters.
pub open spec fn add_peer_address_params_spec(address: String, port: i64, r: Seq<JsonValue>) -> bool {
    &&& r.len() == 2
    &&& r[0] == JsonValue::Str(address)
    &&& r[1] == JsonValue::Int(port)
}

/// `addpeeraddress` with required arguments only: its positional parameters.
pub fn add_peer_address_params(address: String, port: i64) -> (r: Vec<JsonValue>)
    ensures
        add_peer_address_params_spec(address, port, r@),
{
    let mut r: Vec<JsonValue> = Vec::new();
    let v0 = JsonValue::Str(address);
    r.push(v0);
    let v1 = JsonValue::Int(port);
    r.push(v1);
    r
}

/// `addpeeraddress` with all optional arguments via [`AddPeerAddressOptions`]: its positional parameters.
pub open spec fn add_peer_address_with_params_spec(address: String, port: i64, opts: AddPeerAddressOptions, r: Seq<JsonValue>) -> bool {
    &&& r.len() == 3
    &&& r[0] == JsonValue::Str(address)
    &&& r[1] == JsonValue::Int(port)
    &&& opts.params_spec(r.subrange(2, 3))
}

/// `addpeeraddress` with all optional arguments via [`AddPeerAddressOptions`]: its positional parameters.
pub fn add_peer_address_with_params(address: String, port: i64, opts: AddPeerAddressOptions) -> (r: Vec<JsonValue>)
    ensures
        add_peer_address_with_params_spec(address, port, opts, r@),
{
    let mut r: Vec<JsonValue> = Vec::new();
    let v0 = JsonValue::Str(address);
    r.push(v0);
    let v1 = JsonValue::Int(port);
    r.push(v1);
    let mut tail = opts.to_params();
    r.append(&mut tail);
    r
}

/// `echo` with required arguments only: its positional parameters.
pub open spec fn echo_params_spec(r: Seq<JsonValue>) -> bool {
    &&& r.len() == 0
}

/// `echo` with required arguments only: its positional parameters.
pub fn echo_params() -> (r: Vec<JsonValue>)
    ensures
        echo_params_spec(r@),
{
    let mut r: Vec<JsonValue> = Vec::new();
    r
}

/// `echo` with all optional arguments via [`EchoOptions`]: its positional parameters.
pub open spec fn echo_with_params_spec(opts: EchoOptions, r: Seq<JsonValue>) -> bool {
    &&& r.len() == 10
    &&& opts.params_spec(r.subrange(0, 10))
}

/// `echo` with all optional arguments via [`EchoOptions`]: its positional parameters.
pub fn echo_with_params(opts: EchoOptions) -> (r: Vec<JsonValue>)
    ensures
        echo_with_params_spec(opts, r@),
{
    let mut r: Vec<JsonValue> = Vec::new();
    let mut tail = opts.to_params();
    r.append(&mut tail);
    r
}

/// `echoipc` with required arguments only: its positional parameters.
pub open spec fn echo_ipc_params_spec(arg: String, r: Seq<JsonValue>) -> bool {
    &&& r.len() == 1
    &&& r[0] == JsonValue::Str(arg)
}

/// `echoipc` with required arguments only: its positional parameters.
pub fn echo_ipc_params(arg: String) -> (r: Vec<JsonValue>)
    ensures
        echo_ipc_params_spec(arg, r@),
{
    let mut r: Vec<JsonValue> = Vec::new();
    let v0 = JsonValue::Str(arg);
    r.push(v0);
    r
}

/// `echojson` with required arguments only: its positional parameters.
pub open spec fn echo_json_params_spec(r: Seq<JsonValue>) -> bool {
    &&& r.len() == 0
}

/// `echojson` with required arguments only: its positional parameters.
pub fn echo_json_params() -> (r: Vec<JsonValue>)
    ensures
        echo_json_params_spec(r@),
{
    let mut r: Vec<JsonValue> = Vec::new();
    r
}

/// `echojson` with all optional arguments via [`EchoJsonOptions`]: its positional parameters.
pub open spec fn echo_json_with_params_spec(opts: EchoJsonOptions, r: Seq<JsonValue>) -> bool {
    &&& r.len() == 10
    &&& opts.params_spec(r.subrange(0, 10))
}

/// `echojson` with all optional arguments via [`EchoJsonOptions`]: its positional parameters.
pub fn echo_json_with_params(opts: EchoJsonOptions) -> (r: Vec<JsonValue>)
    ensures
        echo_json_with_params_spec(opts, r@),
{
    let mut r: Vec<JsonValue> = Vec::new();
    let mut tail = opts.to_params();
    r.append(&mut tail);
    r
}

/// `estimaterawfee` with required arguments only: its positional parameters.
pub open spec fn estimate_raw_fee_params_spec(conf_target: i64, r: Seq<JsonValue>) -> bool {
    &&& r.len() == 1
    &&& r[0] == JsonValue::Int(conf_target)
}

/// `estimaterawfee` with required arguments only: its positional parameters.
pub fn estimate_raw_fee_params(conf_target: i64) -> (r: Vec<JsonValue>)
    ensures
        estimate_raw_fee_params_spec(conf_target, r@),
{
    let mut r: Vec<JsonValue> = Vec::new();
    let v0 = JsonValue::Int(conf_target);
    r.push(v0);
    r
}

/// `generate` with required arguments only: its positional parameters.
pub open spec fn generate_params_spec(r: Seq<JsonValue>) -> bool {
    &&& r.len() == 0
}

/// `generate` with required arguments only: its positional parameters.
pub fn generate_params() -> (r: Vec<JsonValue>)
    ensures
        generate_params_spec(r@),
{
    let mut r: Vec<JsonValue> = Vec::new();
    r
}

/// `generateblock` with required arguments only: its positional parameters.
pub open spec fn generate_block_params_spec(output: String, transactions: Vec<String>, r: Seq<JsonValue>) -> bool {
    &&& r.len() == 2
    &&& r[0] == JsonValue::Str(output)
    &&& is_str_array(r[1], transactions@)
}

/// `generateblock` with required arguments only: its positional parameters.
pub fn generate_block_params(output: String, transactions: Vec<String>) -> (r: Vec<JsonValue>)
    ensures
        generate_block_params_spec(output, transactions, r@),
{
    let mut r: Vec<JsonValue> = Vec::new();
    let v0 = JsonValue::Str(output);
    r.push(v0);
    let v1 = json_str_array(transactions);
    r.push(v1);
    r
}

/// `generateblock` with all optional arguments via [`GenerateBlockOptions`]: its positional parameters.
pub open spec fn generate_block_with_params_spec(output: String, transactions: Vec<String>, opts: GenerateBlockOptions, r: Seq<JsonValue>) -> bool {
    &&& r.len() == 3
    &&& r[0] == JsonValue::Str(output)
    &&& is_str_array(r[1], transactions@)
    &&& opts.params_spec(r.subrange(2, 3))
}

/// `generateblock` with all optional arguments via [`GenerateBlockOptions`]: its positional parameters.
pub fn generate_block_with_params(output: String, transactions: Vec<String>, opts: GenerateBlockOptions) -> (r: Vec<JsonValue>)
    ensures
        generate_block_with_params_spec(output, transactions, opts, r@),
{
    let mut r: Vec<JsonValue> = Vec::new();
    let v0 = JsonValue::Str(output);
    r.push(v0);
    let v1 = json_str_array(transactions);
    r.push(v1);
    let mut tail = opts.to_params();
    r.append(&mut tail);
    r
}

/// `generatetoaddress` with required arguments only: its positional parameters.
pub open spec fn generate_to_address_params_spec(n_blocks: i64, address: String, r: Seq<JsonValue>) -> bool {
    &&& r.len() == 2
    &&& r[0] == JsonValue::Int(n_blocks)
    &&& r[1] == JsonValue::Str(address)
}

/// `generatetoaddress` with required arguments only: its positional parameters.
pub fn generate_to_address_params(n_blocks: i64, address: String) -> (r: Vec<JsonValue>)
    ensures
        generate_to_address_params_spec(n_blocks, address, r@),
{
    let mut r: Vec<JsonValue> = Vec::new();
    let v0 = JsonValue::Int(n_blocks);
    r.push(v0);
    let v1 = JsonValue::Str(address);
    r.push(v1);
    r
}

/// `generatetodescriptor` with required arguments only: its positional parameters.
pub open spec fn generate_to_descriptor_params_spec(num_blocks: i64, descriptor: String, r: Seq<JsonValue>) -> bool {
    &&& r.len() == 2
    &&& r[0] == JsonValue::Int(num_blocks)
    &&& r[1] == JsonValue::Str(descriptor)
}

/// `generatetodescriptor` with required arguments only: its positional parameters.
pub fn generate_to_descriptor_params(num_blocks: i64, descriptor: String) -> (r: Vec<JsonValue>)
    ensures
        generate_to_descriptor_params_spec(num_blocks, descriptor, r@),
{
    let mut r: Vec<JsonValue> = Vec::new();
    let v0 = JsonValue::Int(num_blocks);
    r.push(v0);
    let v1 = JsonValue::Str(descriptor);
    r.push(v1);
    r
}

/// `getmempoolfeeratediagram` with required arguments only: its positional parameters.
pub open spec fn get_mempool_fee_rate_diagram_params_spec(r: Seq<JsonValue>) -> bool {
    &&& r.len() == 0
}

/// `getmempoolfeeratediagram` with required arguments only: its positional parameters.
pub fn get_mempool_fee_rate_diagram_params() -> (r: Vec<JsonValue>)
    ensures
        get_mempool_fee_rate_diagram_params_spec(r@),
{
    let mut r: Vec<JsonValue> = Vec::new();
    r
}

/// `getorphantxs` with the result selected for verbosity `0`: its positional parameters.
pub open spec fn get_orphan_txs_verbose_0_params_spec(r: Seq<JsonValue>) -> bool {
    &&& r.len() == 1
    &&& r[0] == JsonValue::Int(0)
}

/// `getorphantxs` with the result selected for verbosity `0`: its positional parameters.
pub fn get_orphan_txs_verbose_0_params() -> (r: Vec<JsonValue>)
    ensures
        get_orphan_txs_verbose_0_params_spec(r@),
{
    let mut r: Vec<JsonValue> = Vec::new();
    r.push(JsonValue::Int(0));
    r
}

/// `getorphantxs` with the result selected for verbosity `1`: its positional parameters.
pub open spec fn get_orphan_txs_verbose_1_params_spec(r: Seq<JsonValue>) -> bool {
    &&& r.len() == 1
    &&& r[0] == JsonValue::Int(1)
}

/// `getorphantxs` with the result selected for verbosity `1`: its positional parameters.
pub fn get_orphan_txs_verbose_1_params() -> (r: Vec<JsonValue>)
    ensures
        get_orphan_txs_verbose_1_params_spec(r@),
{
    let mut r: Vec<JsonValue> = Vec::new();
    r.push(JsonValue::Int(1));
    r
}

/// `getorphantxs` with the result selected for verbosity `2`: its positional parameters.
pub open spec fn get_orphan_txs_verbose_2_params_spec(r: Seq<JsonValue>) -> bool {
    &&& r.len() == 1
    &&& r[0] == JsonValue::Int(2)
}

/// `getorphantxs` with the result selected for verbosity `2`: its positional parameters.
pub fn get_orphan_txs_verbose_2_params() -> (r: Vec<JsonValue>)
    ensures
        get_orphan_txs_verbose_2_params_spec(r@),
{
    let mut r: Vec<JsonValue> = Vec::new();
    r.push(JsonValue::Int(2));
    r
}

/// `getrawaddrman` with required arguments only: its positional parameters.
pub open spec fn get_raw_addr_man_params_spec(r: Seq<JsonValue>) -> bool {
    &&& r.len() == 0
}

/// `getrawaddrman` with required arguments only: its positional parameters.
pub fn get_raw_addr_man_params() -> (r: Vec<JsonValue>)
    ensures
        get_raw_addr_man_params_spec(r@),
{
    let mut r: Vec<JsonValue> = Vec::new();
    r
}

/// `invalidateblock` with required arguments only: its positional parameters.
pub open spec fn invalidate_block_params_spec(block_hash: String, r: Seq<JsonValue>) -> bool {
    &&& r.len() == 1
    &&& r[0] == JsonValue::Str(block_hash)
}

/// `invalidateblock` with required arguments only: its positional parameters.
pub fn invalidate_block_params(block_hash: String) -> (r: Vec<JsonValue>)
    ensures
        invalidate_block_params_spec(block_hash, r@),
{
    let mut r: Vec<JsonValue> = Vec::new();
    let v0 = JsonValue::Str(block_hash);
    r.push(v0);
    r
}

/// `mockscheduler` with required arguments only: its positional parameters.
pub open spec fn mock_scheduler_params_spec(delta_time: i64, r: Seq<JsonValue>) -> bool {
    &&& r.len() == 1
    &&& r[0] == JsonValue::Int(delta_time)
}

/// `mockscheduler` with required arguments only: its positional parameters.
pub fn mock_scheduler_params(delta_time: i64) -> (r: Vec<JsonValue>)
    ensures
        mock_scheduler_params_spec(delta_time, r@),
{
    let mut r: Vec<JsonValue> = Vec::new();
    let v0 = JsonValue::Int(delta_time);
    r.push(v0);
    r
}

/// `reconsiderblock` with required arguments only: its positional parameters.
pub open spec fn reconsider_block_params_spec(block_hash: String, r: Seq<JsonValue>) -> bool {
    &&& r.len() == 1
    &&& r[0] == JsonValue::Str(block_hash)
}

/// `reconsiderblock` with required arguments only: its positional parameters.
pub fn reconsider_block_params(block_hash: String) -> (r: Vec<JsonValue>)
    ensures
        reconsider_block_params_spec(block_hash, r@),
{
    let mut r: Vec<JsonValue> = Vec::new();
    let v0 = JsonValue::Str(block_hash);
    r.push(v0);
    r
}

/// `sendmsgtopeer` with required arguments only: its positional parameters.
pub open spec fn sendmsg_to_peer_params_spec(peer_id: i64, msg_type: String, msg: String, r: Seq<JsonValue>) -> bool {
    &&& r.len() == 3
    &&& r[0] == JsonValue::Int(peer_id)
    &&& r[1] == JsonValue::Str(msg_type)
    &&& r[2] == JsonValue::Str(msg)
}

/// `sendmsgtopeer` with required arguments only: its positional parameters.
pub fn sendmsg_to_peer_params(peer_id: i64, msg_type: String, msg: String) -> (r: Vec<JsonValue>)
    ensures
        sendmsg_to_peer_params_spec(peer_id, msg_type, msg, r@),
{
    let mut r: Vec<JsonValue> = Vec::new();
    let v0 = JsonValue::Int(peer_id);
    r.push(v0);
    let v1 = JsonValue::Str(msg_type);
    r.push(v1);
    let v2 = JsonValue::Str(msg);
    r.push(v2);
    r
}

/// `setmocktime` with required arguments only: its positional parameters.
pub open spec fn set_mock_time_params_spec(timestamp: i64, r: Seq<JsonValue>) -> bool {
    &&& r.len() == 1
    &&& r[0] == JsonValue::Int(timestamp)
}

/// `setmocktime` with required arguments only: its positional parameters.
pub fn set_mock_time_params(timestamp: i64) -> (r: Vec<JsonValue>)
    ensures
        set_mock_time_params_spec(timestamp, r@),
{
    let mut r: Vec<JsonValue> = Vec::new();
    let v0 = JsonValue::Int(timestamp);
    r.push(v0);
    r
}

/// `syncwithvalidationinterfacequeue` with required arguments only: its positional parameters.
pub open spec fn sync_with_validation_interface_queue_params_spec(r: Seq<JsonValue>) -> bool {
    &&& r.len() == 0
}

/// `syncwithvalidationinterfacequeue` with required arguments only: its positional parameters.
pub fn sync_with_validation_interface_queue_params() -> (r: Vec<JsonValue>)
    ensures
        sync_with_validation_interface_queue_params_spec(r@),
{
    let mut r: Vec<JsonValue> = Vec::new();
    r
}

/// The methods that take no arguments send no parameters at all.
pub proof fn lemma_argumentless_requests_send_nothing()
    ensures
        forall|r: Seq<JsonValue>| #[trigger] echo_params_spec(r) ==> r.len() == 0,
        forall|r: Seq<JsonValue>| #[trigger] echo_json_params_spec(r) ==> r.len() == 0,
        forall|r: Seq<JsonValue>| #[trigger] generate_params_spec(r) ==> r.len() == 0,
        forall|r: Seq<JsonValue>| #[trigger] get_mempool_fee_rate_diagram_params_spec(r) ==> r.len() == 0,
        forall|r: Seq<JsonValue>| #[trigger] get_raw_addr_man_params_spec(r) ==> r.len() == 0,
        forall|r: Seq<JsonValue>| #[trigger] sync_with_validation_interface_queue_params_spec(r) ==> r.len() == 0,
{
}

/// `addconnection` sends, in Core's argument order: `address`, `connection_type`, `v2transport`.
pub proof fn lemma_add_connection_request(address: String, connection_type: String, v2transport: bool, r: Seq<JsonValue>)
    requires
        add_connection_params_spec(address, connection_type, v2transport, r),
    ensures
        r.len() == 3,
        r[0] == JsonValue::Str(address),
        r[1] == JsonValue::Str(connection_type),
        r[2] == JsonValue::Bool(v2transport),
{
}

/// `addpeeraddress` sends, in Core's argument order: `address`, `port`.
pub proof fn lemma_add_peer_address_request(address: String, port: i64, r: Seq<JsonValue>)
    requires
        add_peer_address_params_spec(address, port, r),
    ensures
        r.len() == 2,
        r[0] == JsonValue::Str(address),
        r[1] == JsonValue::Int(port),
{
}

/// `addpeeraddress` sends, in Core's argument order: `address`, `port`, `tried`.
pub proof fn lemma_add_peer_address_with_request(address: String, port: i64, opts: AddPeerAddressOptions, r: Seq<JsonValue>)
    requires
        add_peer_address_with_params_spec(address, port, opts, r),
    ensures
        r.len() == 3,
        r[0] == JsonValue::Str(address),
        r[1] == JsonValue::Int(port),
        r[2] == opt_bool(opts.tried),
{
}

/// `echo` sends, in Core's argument order: `arg0`, `arg1`, `arg2`, `arg3`, `arg4`, `arg5`, `arg6`, `arg7`, `arg8`, `arg9`.
pub proof fn lemma_echo_with_request(opts: EchoOptions, r: Seq<JsonValue>)
    requires
        echo_with_params_spec(opts, r),
    ensures
        r.len() == 10,
        r[0] == opt_str(opts.arg0),
        r[1] == opt_str(opts.arg1),
        r[2] == opt_str(opts.arg2),
        r[3] == opt_str(opts.arg3),
        r[4] == opt_str(opts.arg4),
        r[5] == opt_str(opts.arg5),
        r[6] == opt_str(opts.arg6),
        r[7] == opt_str(opts.arg7),
        r[8] == opt_str(opts.arg8),
        r[9] == opt_str(opts.arg9),
{
}

/// `echoipc` sends, in Core's argument order: `arg`.
pub proof fn lemma_echo_ipc_request(arg: String, r: Seq<JsonValue>)
    requires
        echo_ipc_params_spec(arg, r),
    ensures
        r.len() == 1,
        r[0] == JsonValue::Str(arg),
{
}

/// `echojson` sends, in Core's argument order: `arg0`, `arg1`, `arg2`, `arg3`, `arg4`, `arg5`, `arg6`, `arg7`, `arg8`, `arg9`.
pub proof fn lemma_echo_json_with_request(opts: EchoJsonOptions, r: Seq<JsonValue>)
    requires
        echo_json_with_params_spec(opts, r),
    ensures
        r.len() == 10,
        r[0] == opt_str(opts.arg0),
        r[1] == opt_str(opts.arg1),
        r[2] == opt_str(opts.arg2),
        r[3] == opt_str(opts.arg3),
        r[4] == opt_str(opts.arg4),
        r[5] == opt_str(opts.arg5),
        r[6] == opt_str(opts.arg6),
        r[7] == opt_str(opts.arg7),
        r[8] == opt_str(opts.arg8),
        r[9] == opt_str(opts.arg9),
{
}

/// `estimaterawfee` sends, in Core's argument order: `conf_target`.
pub proof fn lemma_estimate_raw_fee_request(conf_target: i64, r: Seq<JsonValue>)
    requires
        estimate_raw_fee_params_spec(conf_target, r),
    ensures
        r.len() == 1,
        r[0] == JsonValue::Int(conf_target),
{
}

/// `generateblock` sends, in Core's argument order: `output`, `transactions`.
pub proof fn lemma_generate_block_request(output: String, transactions: Vec<String>, r: Seq<JsonValue>)
    requires
        generate_block_params_spec(output, transactions, r),
    ensures
        r.len() == 2,
        r[0] == JsonValue::Str(output),
        is_str_array(r[1], transactions@),
{
}

/// `generateblock` sends, in Core's argument order: `output`, `transactions`, `submit`.
pub proof fn lemma_generate_block_with_request(output: String, transactions: Vec<String>, opts: GenerateBlockOptions, r: Seq<JsonValue>)
    requires
        generate_block_with_params_spec(output, transactions, opts, r),
    ensures
        r.len() == 3,
        r[0] == JsonValue::Str(output),
        is_str_array(r[1], transactions@),
        r[2] == opt_bool(opts.submit),
{
}

/// `generatetoaddress` sends, in Core's argument order: `n_blocks`, `address`.
pub proof fn lemma_generate_to_address_request(n_blocks: i64, address: String, r: Seq<JsonValue>)
    requires
        generate_to_address_params_spec(n_blocks, address, r),
    ensures
        r.len() == 2,
        r[0] == JsonValue::Int(n_blocks),
        r[1] == JsonValue::Str(address),
{
}

/// `generatetodescriptor` sends, in Core's argument order: `num_blocks`, `descriptor`.
pub proof fn lemma_generate_to_descriptor_request(num_blocks: i64, descriptor: String, r: Seq<JsonValue>)
    requires
        generate_to_descriptor_params_spec(num_blocks, descriptor, r),
    ensures
        r.len() == 2,
        r[0] == JsonValue::Int(num_blocks),
        r[1] == JsonValue::Str(descriptor),
{
}

/// `getorphantxs` asked for verbosity `0` sends, in Core's argument order: `0`.
pub proof fn lemma_get_orphan_txs_verbose_0_request(r: Seq<JsonValue>)
    requires
        get_orphan_txs_verbose_0_params_spec(r),
    ensures
        r.len() == 1,
        r[0] == JsonValue::Int(0),
{
}

/// `getorphantxs` asked for verbosity `1` sends, in Core's argument order: `1`.
pub proof fn lemma_get_orphan_txs_verbose_1_request(r: Seq<JsonValue>)
    requires
        get_orphan_txs_verbose_1_params_spec(r),
    ensures
        r.len() == 1,
        r[0] == JsonValue::Int(1),
{
}

/// `getorphantxs` asked for verbosity `2` sends, in Core's argument order: `2`.
pub proof fn lemma_get_orphan_txs_verbose_2_request(r: Seq<JsonValue>)
    requires
        get_orphan_txs_verbose_2_params_spec(r),
    ensures
        r.len() == 1,
        r[0] == JsonValue::Int(2),
{
}

/// `invalidateblock` sends, in Core's argument order: `block_hash`.
pub proof fn lemma_invalidate_block_request(block_hash: String, r: Seq<JsonValue>)
    requires
        invalidate_block_params_spec(block_hash, r),
    ensures
        r.len() == 1,
        r[0] == JsonValue::Str(block_hash),
{
}

/// `mockscheduler` sends, in Core's argument order: `delta_time`.
pub proof fn lemma_mock_scheduler_request(delta_time: i64, r: Seq<JsonValue>)
    requires
        mock_scheduler_params_spec(delta_time, r),
    ensures
        r.len() == 1,
        r[0] == JsonValue::Int(delta_time),
{
}

/// `reconsiderblock` sends, in Core's argument order: `block_hash`.
pub proof fn lemma_reconsider_block_request(block_hash: String, r: Seq<JsonValue>)
    requires
        reconsider_block_params_spec(block_hash, r),
    ensures
        r.len() == 1,
        r[0] == JsonValue::Str(block_hash),
{
}

/// `sendmsgtopeer` sends, in Core's argument order: `peer_id`, `msg_type`, `msg`.
pub proof fn lemma_sendmsg_to_peer_request(peer_id: i64, msg_type: String, msg: String, r: Seq<JsonValue>)
    requires
        sendmsg_to_peer_params_spec(peer_id, msg_type, msg, r),
    ensures
        r.len() == 3,
        r[0] == JsonValue::Int(peer_id),
        r[1] == JsonValue::Str(msg_type),
        r[2] == JsonValue::Str(msg),
{
}

/// `setmocktime` sends, in Core's argument order: `timestamp`.
pub proof fn lemma_set_mock_time_request(timestamp: i64, r: Seq<JsonValue>)
    requires
        set_mock_time_params_spec(timestamp, r),
    ensures
        r.len() == 1,
        r[0] == JsonValue::Int(timestamp),
{
}

/// The options of `addpeeraddress` fill its optional arguments in Core's order: `tried`.
pub proof fn lemma_add_peer_address_options_slots(o: AddPeerAddressOptions, r: Seq<JsonValue>)
    requires
        o.params_spec(r),
    ensures
        r.len() == 1,
        r[0] == opt_bool(o.tried),
{
}

/// The options of `echo` fill its optional arguments in Core's order: `arg0`, `arg1`, `arg2`, `arg3`, `arg4`, `arg5`, `arg6`, `arg7`, `arg8`, `arg9`.
pub proof fn lemma_echo_options_slots(o: EchoOptions, r: Seq<JsonValue>)
    requires
        o.params_spec(r),
    ensures
        r.len() == 10,
        r[0] == opt_str(o.arg0),
        r[1] == opt_str(o.arg1),
        r[2] == opt_str(o.arg2),
        r[3] == opt_str(o.arg3),
        r[4] == opt_str(o.arg4),
        r[5] == opt_str(o.arg5),
        r[6] == opt_str(o.arg6),
        r[7] == opt_str(o.arg7),
        r[8] == opt_str(o.arg8),
        r[9] == opt_str(o.arg9),
{
}

/// The options of `echojson` fill its optional arguments in Core's order: `arg0`, `arg1`, `arg2`, `arg3`, `arg4`, `arg5`, `arg6`, `arg7`, `arg8`, `arg9`.
pub proof fn lemma_echo_json_options_slots(o: EchoJsonOptions, r: Seq<JsonValue>)
    requires
        o.params_spec(r),
    ensures
        r.len() == 10,
        r[0] == opt_str(o.arg0),
        r[1] == opt_str(o.arg1),
        r[2] == opt_str(o.arg2),
        r[3] == opt_str(o.arg3),
        r[4] == opt_str(o.arg4),
        r[5] == opt_str(o.arg5),
        r[6] == opt_str(o.arg6),
        r[7] == opt_str(o.arg7),
        r[8] == opt_str(o.arg8),
        r[9] == opt_str(o.arg9),
{
}

/// The options of `generateblock` fill its optional arguments in Core's order: `submit`.
pub proof fn lemma_generate_block_options_slots(o: GenerateBlockOptions, r: Seq<JsonValue>)
    requires
        o.params_spec(r),
    ensures
        r.len() == 1,
        r[0] == opt_bool(o.submit),
{
}

} // verus!
