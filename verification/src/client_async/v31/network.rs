//! Options of the network RPC methods.

use vstd::prelude::*;

use crate::client_async::json::{JsonValue, JsonMember, opt_bool, opt_int, opt_str, is_str_array, is_int_array, count, json_str_array, json_int_array, json_opt_bool, json_opt_int, json_opt_str, member};

verus! {

/// Optional parameters for the `addnode` JSON-RPC method (consumed by `Client::add_node_with`).
#[derive(Clone, Debug, Default)]
pub struct AddNodeOptions {
    /// Attempt to connect using BIP324 v2 transport protocol (ignored for 'remove' command)
    pub v2transport: Option<bool>,
}

impl AddNodeOptions {
    /// The positional arguments these options fill, after the method's
    /// required arguments: one slot per option, in order, `null` when unset.
    pub open spec fn params_spec(self, r: Seq<JsonValue>) -> bool {
        &&& r.len() == 1
        &&& r[0] == opt_bool(self.v2transport)
    }

    /// The positional arguments these options fill.
    pub fn to_params(self) -> (r: Vec<JsonValue>)
        ensures
            self.params_spec(r@),
    {
        let mut r: Vec<JsonValue> = Vec::new();
        let v0 = json_opt_bool(self.v2transport);
        r.push(v0);
        r
    }
}

/// Optional parameters for the `disconnectnode` JSON-RPC method (consumed by `Client::disconnect_node_with`).
#[derive(Clone, Debug, Default)]
pub struct DisconnectNodeOptions {
    /// The IP address/port of the node
    pub address: Option<String>,
    /// The node ID (see getpeerinfo for node IDs)
    pub nodeid: Option<i64>,
}

impl DisconnectNodeOptions {
    /// The positional arguments these options fill, after the method's
    /// required arguments: one slot per option, in order, `null` when unset.
    pub open spec fn params_spec(self, r: Seq<JsonValue>) -> bool {
        &&& r.len() == 2
        &&& r[0] == opt_str(self.address)
        &&& r[1] == opt_int(self.nodeid)
    }

    /// The positional arguments these options fill.
    pub fn to_params(self) -> (r: Vec<JsonValue>)
        ensures
            self.params_spec(r@),
    {
        let mut r: Vec<JsonValue> = Vec::new();
        let v0 = json_opt_str(self.address);
        r.push(v0);
        let v1 = json_opt_int(self.nodeid);
        r.push(v1);
        r
    }
}

/// Optional parameters for the `getaddednodeinfo` JSON-RPC method (consumed by `Client::get_added_node_info_with`).
#[derive(Clone, Debug, Default)]
pub struct GetAddedNodeInfoOptions {
    /// If provided, return information about this specific node, otherwise all nodes are returned.
    pub node: Option<String>,
}

impl GetAddedNodeInfoOptions {
    /// The positional arguments these options fill, after the method's
    /// required arguments: one slot per option, in order, `null` when unset.
    pub open spec fn params_spec(self, r: Seq<JsonValue>) -> bool {
        &&& r.len() == 1
        &&& r[0] == opt_str(self.node)
    }

    /// The positional arguments these options fill.
    pub fn to_params(self) -> (r: Vec<JsonValue>)
        ensures
            self.params_spec(r@),
    {
        let mut r: Vec<JsonValue> = Vec::new();
        let v0 = json_opt_str(self.node);
        r.push(v0);
        r
    }
}

/// Optional parameters for the `getnodeaddresses` JSON-RPC method (consumed by `Client::get_node_addresses_with`).
#[derive(Clone, Debug, Default)]
pub struct GetNodeAddressesOptions {
    /// The maximum number of addresses to return. Specify 0 to return all known addresses.
    pub count: Option<i64>,
    /// Return only addresses of the specified network. Can be one of: ipv4, ipv6, onion, i2p, cjdns.
    pub network: Option<String>,
}

impl GetNodeAddressesOptions {
    /// The positional arguments these options fill, after the method's
    /// required arguments: one slot per option, in order, `null` when unset.
    pub open spec fn params_spec(self, r: Seq<JsonValue>) -> bool {
        &&& r.len() == 2
        &&& r[0] == opt_int(self.count)
        &&& r[1] == opt_str(self.network)
    }

    /// The positional arguments these options fill.
    pub fn to_params(self) -> (r: Vec<JsonValue>)
        ensures
            self.params_spec(r@),
    {
        let mut r: Vec<JsonValue> = Vec::new();
        let v0 = json_opt_int(self.count);
        r.push(v0);
        let v1 = json_opt_str(self.network);
        r.push(v1);
        r
    }
}

/// `addnode` with required arguments only: its positional parameters.
pub open spec fn add_node_params_spec(node: String, command: String, r: Seq<JsonValue>) -> bool {
    &&& r.len() == 2
    &&& r[0] == JsonValue::Str(node)
    &&& r[1] == JsonValue::Str(command)
}

/// `addnode` with required arguments only: its positional parameters.
pub fn add_node_params(node: String, command: String) -> (r: Vec<JsonValue>)
    ensures
        add_node_params_spec(node, command, r@),
{
    let mut r: Vec<JsonValue> = Vec::new();
    let v0 = JsonValue::Str(node);
    r.push(v0);
    let v1 = JsonValue::Str(command);
    r.push(v1);
    r
}

/// `addnode` with all optional arguments via [`AddNodeOptions`]: its positional parameters.
pub open spec fn add_node_with_params_spec(node: String, command: String, opts: AddNodeOptions, r: Seq<JsonValue>) -> bool {
    &&& r.len() == 3
    &&& r[0] == JsonValue::Str(node)
    &&& r[1] == JsonValue::Str(command)
    &&& opts.params_spec(r.subrange(2, 3))
}

/// `addnode` with all optional arguments via [`AddNodeOptions`]: its positional parameters.
pub fn add_node_with_params(node: String, command: String, opts: AddNodeOptions) -> (r: Vec<JsonValue>)
    ensures
        add_node_with_params_spec(node, command, opts, r@),
{
    let mut r: Vec<JsonValue> = Vec::new();
    let v0 = JsonValue::Str(node);
    r.push(v0);
    let v1 = JsonValue::Str(command);
    r.push(v1);
    let mut tail = opts.to_params();
    r.append(&mut tail);
    r
}

/// `clearbanned` with required arguments only: its positional parameters.
pub open spec fn clear_banned_params_spec(r: Seq<JsonValue>) -> bool {
    &&& r.len() == 0
}

/// `clearbanned` with required arguments only: its positional parameters.
pub fn clear_banned_params() -> (r: Vec<JsonValue>)
    ensures
        clear_banned_params_spec(r@),
{
    let mut r: Vec<JsonValue> = Vec::new();
    r
}

/// `disconnectnode` with required arguments only: its positional parameters.
pub open spec fn disconnect_node_params_spec(r: Seq<JsonValue>) -> bool {
    &&& r.len() == 0
}

/// `disconnectnode` with required arguments only: its positional parameters.
pub fn disconnect_node_params() -> (r: Vec<JsonValue>)
    ensures
        disconnect_node_params_spec(r@),
{
    let mut r: Vec<JsonValue> = Vec::new();
    r
}

/// `disconnectnode` with all optional arguments via [`DisconnectNodeOptions`]: its positional parameters.
pub open spec fn disconnect_node_with_params_spec(opts: DisconnectNodeOptions, r: Seq<JsonValue>) -> bool {
    &&& r.len() == 2
    &&& opts.params_spec(r.subrange(0, 2))
}

/// `disconnectnode` with all optional arguments via [`DisconnectNodeOptions`]: its positional parameters.
pub fn disconnect_node_with_params(opts: DisconnectNodeOptions) -> (r: Vec<JsonValue>)
    ensures
        disconnect_node_with_params_spec(opts, r@),
{
    let mut r: Vec<JsonValue> = Vec::new();
    let mut tail = opts.to_params();
    r.append(&mut tail);
    r
}

/// `getaddednodeinfo` with required arguments only: its positional parameters.
pub open spec fn get_added_node_info_params_spec(r: Seq<JsonValue>) -> bool {
    &&& r.len() == 0
}

/// `getaddednodeinfo` with required arguments only: its positional parameters.
pub fn get_added_node_info_params() -> (r: Vec<JsonValue>)
    ensures
        get_added_node_info_params_spec(r@),
{
    let mut r: Vec<JsonValue> = Vec::new();
    r
}

/// `getaddednodeinfo` with all optional arguments via [`GetAddedNodeInfoOptions`]: its positional parameters.
pub open spec fn get_added_node_info_with_params_spec(opts: GetAddedNodeInfoOptions, r: Seq<JsonValue>) -> bool {
    &&& r.len() == 1
    &&& opts.params_spec(r.subrange(0, 1))
}

/// `getaddednodeinfo` with all optional arguments via [`GetAddedNodeInfoOptions`]: its positional parameters.
pub fn get_added_node_info_with_params(opts: GetAddedNodeInfoOptions) -> (r: Vec<JsonValue>)
    ensures
        get_added_node_info_with_params_spec(opts, r@),
{
    let mut r: Vec<JsonValue> = Vec::new();
    let mut tail = opts.to_params();
    r.append(&mut tail);
    r
}

/// `getaddrmaninfo` with required arguments only: its positional parameters.
pub open spec fn get_addr_man_info_params_spec(r: Seq<JsonValue>) -> bool {
    &&& r.len() == 0
}

/// `getaddrmaninfo` with required arguments only: its positional parameters.
pub fn get_addr_man_info_params() -> (r: Vec<JsonValue>)
    ensures
        get_addr_man_info_params_spec(r@),
{
    let mut r: Vec<JsonValue> = Vec::new();
    r
}

/// `getconnectioncount` with required arguments only: its positional parameters.
pub open spec fn get_connection_count_params_spec(r: Seq<JsonValue>) -> bool {
    &&& r.len() == 0
}

/// `getconnectioncount` with required arguments only: its positional parameters.
pub fn get_connection_count_params() -> (r: Vec<JsonValue>)
    ensures
        get_connection_count_params_spec(r@),
{
    let mut r: Vec<JsonValue> = Vec::new();
    r
}

/// `getnettotals` with required arguments only: its positional parameters.
pub open spec fn get_net_totals_params_spec(r: Seq<JsonValue>) -> bool {
    &&& r.len() == 0
}

/// `getnettotals` with required arguments only: its positional parameters.
pub fn get_net_totals_params() -> (r: Vec<JsonValue>)
    ensures
        get_net_totals_params_spec(r@),
{
    let mut r: Vec<JsonValue> = Vec::new();
    r
}

/// `getnetworkinfo` with required arguments only: its positional parameters.
pub open spec fn get_network_info_params_spec(r: Seq<JsonValue>) -> bool {
    &&& r.len() == 0
}

/// `getnetworkinfo` with required arguments only: its positional parameters.
pub fn get_network_info_params() -> (r: Vec<JsonValue>)
    ensures
        get_network_info_params_spec(r@),
{
    let mut r: Vec<JsonValue> = Vec::new();
    r
}

/// `getnodeaddresses` with required arguments only: its positional parameters.
pub open spec fn get_node_addresses_params_spec(r: Seq<JsonValue>) -> bool {
    &&& r.len() == 0
}

/// `getnodeaddresses` with required arguments only: its positional parameters.
pub fn get_node_addresses_params() -> (r: Vec<JsonValue>)
    ensures
        get_node_addresses_params_spec(r@),
{
    let mut r: Vec<JsonValue> = Vec::new();
    r
}

/// `getnodeaddresses` with all optional arguments via [`GetNodeAddressesOptions`]: its positional parameters.
pub open spec fn get_node_addresses_with_params_spec(opts: GetNodeAddressesOptions, r: Seq<JsonValue>) -> bool {
    &&& r.len() == 2
    &&& opts.params_spec(r.subrange(0, 2))
}

/// `getnodeaddresses` with all optional arguments via [`GetNodeAddressesOptions`]: its positional parameters.
pub fn get_node_addresses_with_params(opts: GetNodeAddressesOptions) -> (r: Vec<JsonValue>)
    ensures
        get_node_addresses_with_params_spec(opts, r@),
{
    let mut r: Vec<JsonValue> = Vec::new();
    let mut tail = opts.to_params();
    r.append(&mut tail);
    r
}

/// `getpeerinfo` with required arguments only: its positional parameters.
pub open spec fn get_peer_info_params_spec(r: Seq<JsonValue>) -> bool {
    &&& r.len() == 0
}

/// `getpeerinfo` with required arguments only: its positional parameters.
pub fn get_peer_info_params() -> (r: Vec<JsonValue>)
    ensures
        get_peer_info_params_spec(r@),
{
    let mut r: Vec<JsonValue> = Vec::new();
    r
}

/// `listbanned` with required arguments only: its positional parameters.
pub open spec fn list_banned_params_spec(r: Seq<JsonValue>) -> bool {
    &&& r.len() == 0
}

/// `listbanned` with required arguments only: its positional parameters.
pub fn list_banned_params() -> (r: Vec<JsonValue>)
    ensures
        list_banned_params_spec(r@),
{
    let mut r: Vec<JsonValue> = Vec::new();
    r
}

/// `ping` with required arguments only: its positional parameters.
pub open spec fn ping_params_spec(r: Seq<JsonValue>) -> bool {
    &&& r.len() == 0
}

/// `ping` with required arguments only: its positional parameters.
pub fn ping_params() -> (r: Vec<JsonValue>)
    ensures
        ping_params_spec(r@),
{
    let mut r: Vec<JsonValue> = Vec::new();
    r
}

/// `setban` with required arguments only: its positional parameters.
pub open spec fn set_ban_params_spec(sub_net: String, command: String, r: Seq<JsonValue>) -> bool {
    &&& r.len() == 2
    &&& r[0] == JsonValue::Str(sub_net)
    &&& r[1] == JsonValue::Str(command)
}

/// `setban` with required arguments only: its positional parameters.
pub fn set_ban_params(sub_net: String, command: String) -> (r: Vec<JsonValue>)
    ensures
        set_ban_params_spec(sub_net, command, r@),
{
    let mut r: Vec<JsonValue> = Vec::new();
    let v0 = JsonValue::Str(sub_net);
    r.push(v0);
    let v1 = JsonValue::Str(command);
    r.push(v1);
    r
}

/// `setnetworkactive` with required arguments only: its positional parameters.
pub open spec fn set_network_active_params_spec(state: bool, r: Seq<JsonValue>) -> bool {
    &&& r.len() == 1
    &&& r[0] == JsonValue::Bool(state)
}

/// `setnetworkactive` with required arguments only: its positional parameters.
pub fn set_network_active_params(state: bool) -> (r: Vec<JsonValue>)
    ensures
        set_network_active_params_spec(state, r@),
{
    let mut r: Vec<JsonValue> = Vec::new();
    let v0 = JsonValue::Bool(state);
    r.push(v0);
    r
}

/// The methods that take no arguments send no parameters at all.
pub proof fn lemma_argumentless_requests_send_nothing()
    ensures
        forall|r: Seq<JsonValue>| #[trigger] clear_banned_params_spec(r) ==> r.len() == 0,
        forall|r: Seq<JsonValue>| #[trigger] disconnect_node_params_spec(r) ==> r.len() == 0,
        forall|r: Seq<JsonValue>| #[trigger] get_added_node_info_params_spec(r) ==> r.len() == 0,
        forall|r: Seq<JsonValue>| #[trigger] get_addr_man_info_params_spec(r) ==> r.len() == 0,
        forall|r: Seq<JsonValue>| #[trigger] get_connection_count_params_spec(r) ==> r.len() == 0,
        forall|r: Seq<JsonValue>| #[trigger] get_net_totals_params_spec(r) ==> r.len() == 0,
        forall|r: Seq<JsonValue>| #[trigger] get_network_info_params_spec(r) ==> r.len() == 0,
        forall|r: Seq<JsonValue>| #[trigger] get_node_addresses_params_spec(r) ==> r.len() == 0,
        forall|r: Seq<JsonValue>| #[trigger] get_peer_info_params_spec(r) ==> r.len() == 0,
        forall|r: Seq<JsonValue>| #[trigger] list_banned_params_spec(r) ==> r.len() == 0,
        forall|r: Seq<JsonValue>| #[trigger] ping_params_spec(r) ==> r.len() == 0,
{
}

/// `addnode` sends, in Core's argument order: `node`, `command`.
pub proof fn lemma_add_node_request(node: String, command: String, r: Seq<JsonValue>)
    requires
        add_node_params_spec(node, command, r),
    ensures
        r.len() == 2,
        r[0] == JsonValue::Str(node),
        r[1] == JsonValue::Str(command),
{
}

/// `addnode` sends, in Core's argument order: `node`, `command`, `v2transport`.
pub proof fn lemma_add_node_with_request(node: String, command: String, opts: AddNodeOptions, r: Seq<JsonValue>)
    requires
        add_node_with_params_spec(node, command, opts, r),
    ensures
        r.len() == 3,
        r[0] == JsonValue::Str(node),
        r[1] == JsonValue::Str(command),
        r[2] == opt_bool(opts.v2transport),
{
}

/// `disconnectnode` sends, in Core's argument order: `address`, `nodeid`.
pub proof fn lemma_disconnect_node_with_request(opts: DisconnectNodeOptions, r: Seq<JsonValue>)
    requires
        disconnect_node_with_params_spec(opts, r),
    ensures
        r.len() == 2,
        r[0] == opt_str(opts.address),
        r[1] == opt_int(opts.nodeid),
{
}

/// `getaddednodeinfo` sends, in Core's argument order: `node`.
pub proof fn lemma_get_added_node_info_with_request(opts: GetAddedNodeInfoOptions, r: Seq<JsonValue>)
    requires
        get_added_node_info_with_params_spec(opts, r),
    ensures
        r.len() == 1,
        r[0] == opt_str(opts.node),
{
}

/// `getnodeaddresses` sends, in Core's argument order: `count`, `network`.
pub proof fn lemma_get_node_addresses_with_request(opts: GetNodeAddressesOptions, r: Seq<JsonValue>)
    requires
        get_node_addresses_with_params_spec(opts, r),
    ensures
        r.len() == 2,
        r[0] == opt_int(opts.count),
        r[1] == opt_str(opts.network),
{
}

/// `setban` sends, in Core's argument order: `sub_net`, `command`.
pub proof fn lemma_set_ban_request(sub_net: String, command: String, r: Seq<JsonValue>)
    requires
        set_ban_params_spec(sub_net, command, r),
    ensures
        r.len() == 2,
        r[0] == JsonValue::Str(sub_net),
        r[1] == JsonValue::Str(command),
{
}

/// `setnetworkactive` sends, in Core's argument order: `state`.
pub proof fn lemma_set_network_active_request(state: bool, r: Seq<JsonValue>)
    requires
        set_network_active_params_spec(state, r),
    ensures
        r.len() == 1,
        r[0] == JsonValue::Bool(state),
{
}

/// The options of `addnode` fill its optional arguments in Core's order: `v2transport`.
pub proof fn lemma_add_node_options_slots(o: AddNodeOptions, r: Seq<JsonValue>)
    requires
        o.params_spec(r),
    ensures
        r.len() == 1,
        r[0] == opt_bool(o.v2transport),
{
}

/// The options of `disconnectnode` fill its optional arguments in Core's order: `address`, `nodeid`.
pub proof fn lemma_disconnect_node_options_slots(o: DisconnectNodeOptions, r: Seq<JsonValue>)
    requires
        o.params_spec(r),
    ensures
        r.len() == 2,
        r[0] == opt_str(o.address),
        r[1] == opt_int(o.nodeid),
{
}

/// The options of `getaddednodeinfo` fill its optional arguments in Core's order: `node`.
pub proof fn lemma_get_added_node_info_options_slots(o: GetAddedNodeInfoOptions, r: Seq<JsonValue>)
    requires
        o.params_spec(r),
    ensures
        r.len() == 1,
        r[0] == opt_str(o.node),
{
}

/// The options of `getnodeaddresses` fill its optional arguments in Core's order: `count`, `network`.
pub proof fn lemma_get_node_addresses_options_slots(o: GetNodeAddressesOptions, r: Seq<JsonValue>)
    requires
        o.params_spec(r),
    ensures
        r.len() == 2,
        r[0] == opt_int(o.count),
        r[1] == opt_str(o.network),
{
}

} // verus!
