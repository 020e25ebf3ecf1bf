use vstd::prelude::*;
use crate::chain::{chain_of_id, to_chain, Chain};
use crate::error::{classifies, classify, Error, ProviderRPCError};
use crate::json::{normalize, normalized, Json};
use crate::quantity::{
    decode_u128, decode_u256, is_bad_quantity, is_plain_quantity, quantity_value, words_value,
};

verus! {

/// The arguments of one provider call: a method name and its parameters.
#[derive(Debug, PartialEq, Eq)]
pub struct RequestArguments {
    pub method: String,
    pub params: Vec<Json>,
}

/// The number of smallest units (wei) in one display unit of a native token.
pub const WEI_PER_UNIT: u128 = 1_000_000_000_000_000_000;

/// Whether `a` calls `method` with the given string parameters, in order.
pub open spec fn is_request(a: RequestArguments, method: Seq<char>, params: Seq<Seq<char>>) -> bool {
    &&& a.method@ == method
    &&& a.params@.len() == params.len()
    &&& forall|i: int|
        0 <= i < params.len() ==> (#[trigger] a.params@[i] is Str && a.params@[i]->Str_0@
            == params[i])
}

/// Whether `r` is a decoding failure.
pub open spec fn is_decode_failure<T>(r: Result<T, Error>) -> bool {
    match r {
        Ok(_) => false,
        Err(e) => e is DeserialisationError,
    }
}

/// Whether `j` is an array of strings.
pub open spec fn is_text_list(j: Json) -> bool {
    j is Array && forall|i: int|
        0 <= i < j->Array_0@.len() ==> #[trigger] j->Array_0@[i] is Str
}

/// Whether `v` holds the texts of the strings in `items`, in order.
pub open spec fn texts_match(v: Seq<String>, items: Seq<Json>) -> bool {
    v.len() == items.len() && forall|i: int|
        0 <= i < v.len() ==> #[trigger] v[i]@ == items[i]->Str_0@
}

/// Whether `r` is the decoding of `j` as a list of accounts.
pub open spec fn accounts_decoded(j: Json, r: Result<Vec<String>, Error>) -> bool {
    if is_text_list(j) {
        r is Ok && texts_match(r->Ok_0@, j->Array_0@)
    } else {
        is_decode_failure(r)
    }
}

/// Whether `r` is the decoding of `j` as a balance in wei, a 256-bit number
/// given as four words, least significant first. A string of up to 64 hex
/// digits gives its value; every failure is a decoding failure.
pub open spec fn balance_decoded(j: Json, r: Result<[u64; 4], Error>) -> bool {
    match j {
        Json::Str(s) => {
            &&& is_plain_quantity(s@, 64) ==> r is Ok && words_value(r->Ok_0@) == quantity_value(
                s@,
            )
            &&& is_bad_quantity(s@, 64) ==> is_decode_failure(r)
            &&& r is Err ==> is_decode_failure(r)
        },
        _ => is_decode_failure(r),
    }
}

/// Whether `r` is the decoding of `j` as a chain. A string of up to 32 hex
/// digits gives the chain of its value where that fits in 32 bits; every
/// failure is a decoding failure.
pub open spec fn chain_decoded(j: Json, r: Result<Chain, Error>) -> bool {
    match j {
        Json::Str(s) => {
            &&& is_plain_quantity(s@, 32) && quantity_value(s@) <= u32::MAX ==> r == Ok::<
                Chain,
                Error,
            >(chain_of_id(quantity_value(s@) as u32))
            &&& is_plain_quantity(s@, 32) && quantity_value(s@) > u32::MAX ==> is_decode_failure(
                r,
            )
            &&& is_bad_quantity(s@, 32) ==> is_decode_failure(r)
            &&& r is Err ==> is_decode_failure(r)
        },
        _ => is_decode_failure(r),
    }
}

/// Whether `r` is what a call that ended in `outcome` gives, where `decoded`
/// relates a normalized response to its decoding.
pub open spec fn settles<T>(
    outcome: Result<Json, ProviderRPCError>,
    r: Result<T, Error>,
    decoded: spec_fn(Json, Result<T, Error>) -> bool,
) -> bool {
    match outcome {
        Ok(j) => decoded(normalized(j), r),
        Err(e) => r is Err && classifies(e, r->Err_0),
    }
}

/// The call that asks the wallet for its accounts.
pub fn accounts_request() -> (r: RequestArguments)
    ensures
        is_request(r, "eth_requestAccounts"@, seq![]),
{
    RequestArguments { method: String::from_str("eth_requestAccounts"), params: Vec::new() }
}

/// The call that asks for the latest balance of `address`.
pub fn balance_request(address: &str) -> (r: RequestArguments)
    ensures
        is_request(r, "eth_getBalance"@, seq![address@, "latest"@]),
{
    let mut params: Vec<Json> = Vec::new();
    params.push(Json::Str(String::from_str(address)));
    params.push(Json::Str(String::from_str("latest")));
    let r = RequestArguments { method: String::from_str("eth_getBalance"), params };
    assert(r.params@[0] is Str && r.params@[1] is Str);
    r
}

/// The call that asks for the id of the current chain.
pub fn chain_request() -> (r: RequestArguments)
    ensures
        is_request(r, "eth_chainId"@, seq![]),
{
    RequestArguments { method: String::from_str("eth_chainId"), params: Vec::new() }
}

/// Decodes a response as a list of account addresses, in the order given.
pub fn decode_accounts(j: &Json) -> (r: Result<Vec<String>, Error>)
    ensures
        accounts_decoded(*j, r),
{
    match j {
        Json::Array(items) => {
            let mut out: Vec<String> = Vec::new();
            let mut i: usize = 0;
            while i < items.len()
                invariant
                    0 <= i <= items@.len(),
                    *j == Json::Array(*items),
                    out@.len() == i,
                    forall|k: int| 0 <= k < i ==> #[trigger] items@[k] is Str,
                    forall|k: int| 0 <= k < i ==> #[trigger] out@[k]@ == items@[k]->Str_0@,
                decreases items@.len() - i,
            {
                match &items[i] {
                    Json::Str(s) => {
                        out.push(s.clone());
                    },
                    _ => {
                        assert(!(items@[i as int] is Str));
                        return Err(
                            Error::DeserialisationError(
                                String::from_str("invalid type: expected a sequence of strings"),
                            ),
                        );
                    },
                }
                i += 1;
            }
            Ok(out)
        },
        _ => Err(
            Error::DeserialisationError(
                String::from_str("invalid type: expected a sequence of strings"),
            ),
        ),
    }
}

/// Decodes a response as a balance in wei, as the four words of a 256-bit
/// number.
pub fn decode_balance(j: &Json) -> (r: Result<[u64; 4], Error>)
    ensures
        balance_decoded(*j, r),
{
    match j {
        Json::Str(s) => match decode_u256(s.as_str()) {
            Ok(words) => Ok(words),
            Err(detail) => Err(Error::DeserialisationError(detail)),
        },
        _ => Err(
            Error::DeserialisationError(String::from_str("invalid type: expected a hex string")),
        ),
    }
}

/// Decodes a response as a chain id and maps it to its chain.
pub fn decode_chain(j: &Json) -> (r: Result<Chain, Error>)
    ensures
        chain_decoded(*j, r),
{
    match j {
        Json::Str(s) => match decode_u128(s.as_str()) {
            Ok(id) => match to_chain(id) {
                Some(c) => Ok(c),
                None => Err(
                    Error::DeserialisationError(
                        String::from_str("the chain id does not fit in 32 bits"),
                    ),
                ),
            },
            Err(detail) => Err(Error::DeserialisationError(detail)),
        },
        _ => Err(
            Error::DeserialisationError(String::from_str("invalid type: expected a hex string")),
        ),
    }
}

/// The result of an accounts call that ended in `outcome`: a provider error
/// is classified, a response is normalized and decoded.
pub fn accounts_outcome(outcome: Result<Json, ProviderRPCError>) -> (r: Result<Vec<String>, Error>)
    ensures
        settles(outcome, r, |j: Json, x: Result<Vec<String>, Error>| accounts_decoded(j, x)),
{
    match outcome {
        Ok(j) => decode_accounts(&normalize(j)),
        Err(e) => Err(classify(e)),
    }
}

/// The result of a balance call that ended in `outcome`, in wei, as the
/// four words of a 256-bit number.
pub fn balance_outcome(outcome: Result<Json, ProviderRPCError>) -> (r: Result<[u64; 4], Error>)
    ensures
        settles(outcome, r, |j: Json, x: Result<[u64; 4], Error>| balance_decoded(j, x)),
{
    match outcome {
        Ok(j) => decode_balance(&normalize(j)),
        Err(e) => Err(classify(e)),
    }
}

/// The result of a chain-id call that ended in `outcome`.
pub fn chain_outcome(outcome: Result<Json, ProviderRPCError>) -> (r: Result<Chain, Error>)
    ensures
        settles(outcome, r, |j: Json, x: Result<Chain, Error>| chain_decoded(j, x)),
{
    match outcome {
        Ok(j) => decode_chain(&normalize(j)),
        Err(e) => Err(classify(e)),
    }
}

/// One step of long division by `WEI_PER_UNIT`: divides the two-word number
/// `rem * 2^64 + word`.
fn div_step(rem: u64, word: u64) -> (r: (u64, u64))
    requires
        rem < WEI_PER_UNIT,
    ensures
        r.0 as nat * WEI_PER_UNIT + r.1 as nat == rem as nat * 0x1_0000_0000_0000_0000
            + word as nat,
        r.1 < WEI_PER_UNIT,
{
    let d: u128 = WEI_PER_UNIT;
    assert((rem as u128) * 0x1_0000_0000_0000_0000 + (word as u128) < d * 0x1_0000_0000_0000_0000)
        by (nonlinear_arith)
        requires
            rem < d,
            word < 0x1_0000_0000_0000_0000,
    ;
    let cur: u128 = rem as u128 * 0x1_0000_0000_0000_0000 + word as u128;
    let q = cur / d;
    let m = cur % d;
    assert(q < 0x1_0000_0000_0000_0000 && q * d + m == cur) by (nonlinear_arith)
        requires
            cur < d * 0x1_0000_0000_0000_0000,
            d > 0,
            q == cur / d,
            m == cur % d,
    ;
    (q as u64, m as u64)
}

/// Splits a 256-bit amount in wei, given as four words, into the whole
/// units it holds and the wei that remain.
pub fn split_units(wei: [u64; 4]) -> (r: ([u64; 4], u64))
    ensures
        words_value(r.0@) == words_value(wei@) / WEI_PER_UNIT as nat,
        r.1 as nat == words_value(wei@) % WEI_PER_UNIT as nat,
        words_value(r.0@) * WEI_PER_UNIT + r.1 == words_value(wei@),
{
    let (q3, r3) = div_step(0, wei[3]);
    let (q2, r2) = div_step(r3, wei[2]);
    let (q1, r1) = div_step(r2, wei[1]);
    let (q0, r0) = div_step(r1, wei[0]);
    let whole: [u64; 4] = [q0, q1, q2, q3];
    assert(whole@[0] == q0 && whole@[1] == q1 && whole@[2] == q2 && whole@[3] == q3);
    let ghost total = words_value(wei@);
    let ghost units = words_value(whole@);
    assert(units * WEI_PER_UNIT + r0 == total);
    proof {
        vstd::arithmetic::div_mod::lemma_fundamental_div_mod_converse(
            total as int,
            WEI_PER_UNIT as int,
            units as int,
            r0 as int,
        );
    }
    (whole, r0)
}

/// A zero balance decodes to zero whether the provider sends it as the bare
/// number `0` or as the string `"0x0"`: after normalization both decode to
/// the same value.
pub proof fn lemma_zero_balance_forms(
    number: Json,
    text: Json,
    from_number: Result<[u64; 4], Error>,
    from_text: Result<[u64; 4], Error>,
)
    requires
        number is Number && number->Number_0@ == "0"@,
        text is Str && text->Str_0@ == "0x0"@,
        balance_decoded(normalized(number), from_number),
        balance_decoded(normalized(text), from_text),
    ensures
        from_number is Ok && words_value(from_number->Ok_0@) == 0,
        from_text is Ok && words_value(from_text->Ok_0@) == 0,
{
    reveal_strlit("0");
    reveal_strlit("0x0");
    let zero = "0"@;
    assert(zero.len() == 1 && zero.last() == '0');
    assert(crate::quantity::hex_value(zero.drop_last()) == 0);
    assert(crate::quantity::hex_value(zero) == 0);
    assert(crate::quantity::hex_body("0x0"@) =~= zero);
}

} // verus!
