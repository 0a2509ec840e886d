//! Parameters of the external-signer RPC methods.

use vstd::prelude::*;

use crate::client_async::json::{JsonValue, JsonMember, opt_bool, opt_int, opt_str, is_str_array, is_int_array, count, json_str_array, json_int_array, json_opt_bool, json_opt_int, json_opt_str, member};

verus! {

/// `enumeratesigners` with required arguments only: its positional parameters.
pub open spec fn enumerate_signers_params_spec(r: Seq<JsonValue>) -> bool {
    &&& r.len() == 0
}

/// `enumeratesigners` with required arguments only: its positional parameters.
pub fn enumerate_signers_params() -> (r: Vec<JsonValue>)
    ensures
        enumerate_signers_params_spec(r@),
{
    let mut r: Vec<JsonValue> = Vec::new();
    r
}

/// The methods that take no arguments send no parameters at all.
pub proof fn lemma_argumentless_requests_send_nothing()
    ensures
        forall|r: Seq<JsonValue>| #[trigger] enumerate_signers_params_spec(r) ==> r.len() == 0,
{
}

} // verus!
