use vstd::prelude::*;
use crate::chain::{chain_of_id, to_chain, Chain};
use crate::json::Json;
use crate::pipeline::{decode_accounts, is_text_list, texts_match};
use crate::quantity::{
    all_hex, decode_u128, hex_body, is_bad_quantity, is_plain_quantity, parse_hex_u128,
    quantity_value,
};

verus! {

/// The chain named by the `chainId` of a connect event: up to 32 hex digits
/// after an optional `0x`, whose value fits in 32 bits. Anything else names
/// no chain.
pub fn connect_chain(chain_id: &str) -> (r: Option<Chain>)
    ensures
        ({
            let h = hex_body(chain_id@);
            h.len() <= 32 && all_hex(h) && quantity_value(chain_id@) <= u32::MAX
        }) ==> r == Some(chain_of_id(quantity_value(chain_id@) as u32)),
        !({
            let h = hex_body(chain_id@);
            h.len() <= 32 && all_hex(h) && quantity_value(chain_id@) <= u32::MAX
        }) ==> r is None,
{
    match parse_hex_u128(chain_id) {
        Some(id) => to_chain(id),
        None => None,
    }
}

/// The chain named by the payload of a chain-changed event, a hex string.
/// A payload of another shape, or an id beyond 32 bits, names no chain.
pub fn chain_changed(payload: &Json) -> (r: Option<Chain>)
    ensures
        !(payload is Str) ==> r is None,
        payload is Str && is_plain_quantity(payload->Str_0@, 32) && quantity_value(
            payload->Str_0@,
        ) <= u32::MAX ==> r == Some(chain_of_id(quantity_value(payload->Str_0@) as u32)),
        payload is Str && is_plain_quantity(payload->Str_0@, 32) && quantity_value(
            payload->Str_0@,
        ) > u32::MAX ==> r is None,
        payload is Str && is_bad_quantity(payload->Str_0@, 32) ==> r is None,
{
    match payload {
        Json::Str(s) => match decode_u128(s.as_str()) {
            Ok(id) => to_chain(id),
            Err(_) => None,
        },
        _ => None,
    }
}

/// The accounts carried by an accounts-changed event, in the order given,
/// where the payload is an array of strings.
pub fn accounts_changed(payload: &Json) -> (r: Option<Vec<String>>)
    ensures
        is_text_list(*payload) ==> r is Some && texts_match(r->Some_0@, payload->Array_0@),
        !is_text_list(*payload) ==> r is None,
{
    match decode_accounts(payload) {
        Ok(accounts) => Some(accounts),
        Err(_) => None,
    }
}

} // verus!
