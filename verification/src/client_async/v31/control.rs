//! Options of the control RPC methods (`getmemoryinfo`, `help`, `logging`).

use vstd::prelude::*;

use crate::client_async::json::{JsonValue, JsonMember, opt_bool, opt_int, opt_str, is_str_array, is_int_array, count, json_str_array, json_int_array, json_opt_bool, json_opt_int, json_opt_str, member};

verus! {

/// Optional parameters for the `getmemoryinfo` JSON-RPC method (consumed by `Client::get_memory_info_with`).
#[derive(Clone, Debug, Default)]
pub struct GetMemoryInfoOptions {
    /// determines what kind of information is returned.
    ///   - "stats" returns general statistics about memory usage in the daemon.
    ///   - "mallocinfo" returns an XML string describing low-level heap state (only available if compiled with glibc).
    pub mode: Option<String>,
}

impl GetMemoryInfoOptions {
    /// The positional arguments these options fill, after the method's
    /// required arguments: one slot per option, in order, `null` when unset.
    pub open spec fn params_spec(self, r: Seq<JsonValue>) -> bool {
        &&& r.len() == 1
        &&& r[0] == opt_str(self.mode)
    }

    /// The positional arguments these options fill.
    pub fn to_params(self) -> (r: Vec<JsonValue>)
        ensures
            self.params_spec(r@),
    {
        let mut r: Vec<JsonValue> = Vec::new();
        let v0 = json_opt_str(self.mode);
        r.push(v0);
        r
    }
}

/// Optional parameters for the `help` JSON-RPC method (consumed by `Client::help_with`).
#[derive(Clone, Debug, Default)]
pub struct HelpOptions {
    /// The command to get help on
    pub command: Option<String>,
}

impl HelpOptions {
    /// The positional arguments these options fill, after the method's
    /// required arguments: one slot per option, in order, `null` when unset.
    pub open spec fn params_spec(self, r: Seq<JsonValue>) -> bool {
        &&& r.len() == 1
        &&& r[0] == opt_str(self.command)
    }

    /// The positional arguments these options fill.
    pub fn to_params(self) -> (r: Vec<JsonValue>)
        ensures
            self.params_spec(r@),
    {
        let mut r: Vec<JsonValue> = Vec::new();
        let v0 = json_opt_str(self.command);
        r.push(v0);
        r
    }
}

/// Optional parameters for the `logging` JSON-RPC method (consumed by `Client::logging_with`).
#[derive(Clone, Debug, Default)]
pub struct LoggingOptions {
    /// The categories to add to debug logging
    pub included: Option<Vec<String>>,
    /// The categories to remove from debug logging
    pub exclude: Option<Vec<String>>,
}

impl LoggingOptions {
    /// The positional arguments these options fill, after the method's
    /// required arguments: one slot per option, in order, `null` when unset.
    pub open spec fn params_spec(self, r: Seq<JsonValue>) -> bool {
        &&& r.len() == 2
        &&& (match self.included { Some(x) => is_str_array(r[0], x@), None => r[0] == JsonValue::Null })
        &&& (match self.exclude { Some(x) => is_str_array(r[1], x@), None => r[1] == JsonValue::Null })
    }

    /// The positional arguments these options fill.
    pub fn to_params(self) -> (r: Vec<JsonValue>)
        ensures
            self.params_spec(r@),
    {
        let mut r: Vec<JsonValue> = Vec::new();
        let v0 = match self.included { Some(x) => json_str_array(x), None => JsonValue::Null };
        r.push(v0);
        let v1 = match self.exclude { Some(x) => json_str_array(x), None => JsonValue::Null };
        r.push(v1);
        r
    }
}

/// `getmemoryinfo` with required arguments only: its positional parameters.
pub open spec fn get_memory_info_params_spec(r: Seq<JsonValue>) -> bool {
    &&& r.len() == 0
}

/// `getmemoryinfo` with required arguments only: its positional parameters.
pub fn get_memory_info_params() -> (r: Vec<JsonValue>)
    ensures
        get_memory_info_params_spec(r@),
{
    let mut r: Vec<JsonValue> = Vec::new();
    r
}

/// `getmemoryinfo` with all optional arguments via [`GetMemoryInfoOptions`]: its positional parameters.
pub open spec fn get_memory_info_with_params_spec(opts: GetMemoryInfoOptions, r: Seq<JsonValue>) -> bool {
    &&& r.len() == 1
    &&& opts.params_spec(r.subrange(0, 1))
}

/// `getmemoryinfo` with all optional arguments via [`GetMemoryInfoOptions`]: its positional parameters.
pub fn get_memory_info_with_params(opts: GetMemoryInfoOptions) -> (r: Vec<JsonValue>)
    ensures
        get_memory_info_with_params_spec(opts, r@),
{
    let mut r: Vec<JsonValue> = Vec::new();
    let mut tail = opts.to_params();
    r.append(&mut tail);
    r
}

/// `getopenrpcinfo` with required arguments only: its positional parameters.
pub open spec fn get_open_rpc_info_params_spec(r: Seq<JsonValue>) -> bool {
    &&& r.len() == 0
}

/// `getopenrpcinfo` with required arguments only: its positional parameters.
pub fn get_open_rpc_info_params() -> (r: Vec<JsonValue>)
    ensures
        get_open_rpc_info_params_spec(r@),
{
    let mut r: Vec<JsonValue> = Vec::new();
    r
}

/// `getrpcinfo` with required arguments only: its positional parameters.
pub open spec fn get_rpc_info_params_spec(r: Seq<JsonValue>) -> bool {
    &&& r.len() == 0
}

/// `getrpcinfo` with required arguments only: its positional parameters.
pub fn get_rpc_info_params() -> (r: Vec<JsonValue>)
    ensures
        get_rpc_info_params_spec(r@),
{
    let mut r: Vec<JsonValue> = Vec::new();
    r
}

/// `help` with required arguments only: its positional parameters.
pub open spec fn help_params_spec(r: Seq<JsonValue>) -> bool {
    &&& r.len() == 0
}

/// `help` with required arguments only: its positional parameters.
pub fn help_params() -> (r: Vec<JsonValue>)
    ensures
        help_params_spec(r@),
{
    let mut r: Vec<JsonValue> = Vec::new();
    r
}

/// `help` with all optional arguments via [`HelpOptions`]: its positional parameters.
pub open spec fn help_with_params_spec(opts: HelpOptions, r: Seq<JsonValue>) -> bool {
    &&& r.len() == 1
    &&& opts.params_spec(r.subrange(0, 1))
}

/// `help` with all optional arguments via [`HelpOptions`]: its positional parameters.
pub fn help_with_params(opts: HelpOptions) -> (r: Vec<JsonValue>)
    ensures
        help_with_params_spec(opts, r@),
{
    let mut r: Vec<JsonValue> = Vec::new();
    let mut tail = opts.to_params();
    r.append(&mut tail);
    r
}

/// `logging` with required arguments only: its positional parameters.
pub open spec fn logging_params_spec(r: Seq<JsonValue>) -> bool {
    &&& r.len() == 0
}

/// `logging` with required arguments only: its positional parameters.
pub fn logging_params() -> (r: Vec<JsonValue>)
    ensures
        logging_params_spec(r@),
{
    let mut r: Vec<JsonValue> = Vec::new();
    r
}

/// `logging` with all optional arguments via [`LoggingOptions`]: its positional parameters.
pub open spec fn logging_with_params_spec(opts: LoggingOptions, r: Seq<JsonValue>) -> bool {
    &&& r.len() == 2
    &&& opts.params_spec(r.subrange(0, 2))
}

/// `logging` with all optional arguments via [`LoggingOptions`]: its positional parameters.
pub fn logging_with_params(opts: LoggingOptions) -> (r: Vec<JsonValue>)
    ensures
        logging_with_params_spec(opts, r@),
{
    let mut r: Vec<JsonValue> = Vec::new();
    let mut tail = opts.to_params();
    r.append(&mut tail);
    r
}

/// `stop` with required arguments only: its positional parameters.
pub open spec fn stop_params_spec(r: Seq<JsonValue>) -> bool {
    &&& r.len() == 0
}

/// `stop` with required arguments only: its positional parameters.
pub fn stop_params() -> (r: Vec<JsonValue>)
    ensures
        stop_params_spec(r@),
{
    let mut r: Vec<JsonValue> = Vec::new();
    r
}

/// `uptime` with required arguments only: its positional parameters.
pub open spec fn uptime_params_spec(r: Seq<JsonValue>) -> bool {
    &&& r.len() == 0
}

/// `uptime` with required arguments only: its positional parameters.
pub fn uptime_params() -> (r: Vec<JsonValue>)
    ensures
        uptime_params_spec(r@),
{
    let mut r: Vec<JsonValue> = Vec::new();
    r
}

/// The methods that take no arguments send no parameters at all.
pub proof fn lemma_argumentless_requests_send_nothing()
    ensures
        forall|r: Seq<JsonValue>| #[trigger] get_memory_info_params_spec(r) ==> r.len() == 0,
        forall|r: Seq<JsonValue>| #[trigger] get_open_rpc_info_params_spec(r) ==> r.len() == 0,
        forall|r: Seq<JsonValue>| #[trigger] get_rpc_info_params_spec(r) ==> r.len() == 0,
        forall|r: Seq<JsonValue>| #[trigger] help_params_spec(r) ==> r.len() == 0,
        forall|r: Seq<JsonValue>| #[trigger] logging_params_spec(r) ==> r.len() == 0,
        forall|r: Seq<JsonValue>| #[trigger] stop_params_spec(r) ==> r.len() == 0,
        forall|r: Seq<JsonValue>| #[trigger] uptime_params_spec(r) ==> r.len() == 0,
{
}

/// `getmemoryinfo` sends, in Core's argument order: `mode`.
pub proof fn lemma_get_memory_info_with_request(opts: GetMemoryInfoOptions, r: Seq<JsonValue>)
    requires
        get_memory_info_with_params_spec(opts, r),
    ensures
        r.len() == 1,
        r[0] == opt_str(opts.mode),
{
}

/// `help` sends, in Core's argument order: `command`.
pub proof fn lemma_help_with_request(opts: HelpOptions, r: Seq<JsonValue>)
    requires
        help_with_params_spec(opts, r),
    ensures
        r.len() == 1,
        r[0] == opt_str(opts.command),
{
}

/// `logging` sends, in Core's argument order: `include`, `exclude`.
pub proof fn lemma_logging_with_request(opts: LoggingOptions, r: Seq<JsonValue>)
    requires
        logging_with_params_spec(opts, r),
    ensures
        r.len() == 2,
        (match opts.included { Some(x) => is_str_array(r[0], x@), None => r[0] == JsonValue::Null }),
        (match opts.exclude { Some(x) => is_str_array(r[1], x@), None => r[1] == JsonValue::Null }),
{
}

/// The options of `getmemoryinfo` fill its optional arguments in Core's order: `mode`.
pub proof fn lemma_get_memory_info_options_slots(o: GetMemoryInfoOptions, r: Seq<JsonValue>)
    requires
        o.params_spec(r),
    ensures
        r.len() == 1,
        r[0] == opt_str(o.mode),
{
}

/// The options of `help` fill its optional arguments in Core's order: `command`.
pub proof fn lemma_help_options_slots(o: HelpOptions, r: Seq<JsonValue>)
    requires
        o.params_spec(r),
    ensures
        r.len() == 1,
        r[0] == opt_str(o.command),
{
}

/// The options of `logging` fill its optional arguments in Core's order: `included`, `exclude`.
pub proof fn lemma_logging_options_slots(o: LoggingOptions, r: Seq<JsonValue>)
    requires
        o.params_spec(r),
    ensures
        r.len() == 2,
        (match o.included { Some(x) => is_str_array(r[0], x@), None => r[0] == JsonValue::Null }),
        (match o.exclude { Some(x) => is_str_array(r[1], x@), None => r[1] == JsonValue::Null }),
{
}

} // verus!
