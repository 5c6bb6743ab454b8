//! Asking the Jupiter price service for a rate: the address to ask at and
//! the reading of its answer.

use vstd::prelude::*;
use vstd::string::StringExecFns;
use crate::amount::Amount;
use crate::oracle::OracleFault;

verus! {

#[verifier::external_type_specification]
#[verifier::external_body]
pub struct ExJsonError(serde_json::Error);

/// The number that a JSON text holds under three nested keys, as the bit
/// pattern of the binary64 that it is read as. The outer level says whether
/// the text is JSON at all; the inner one, whether a number stands at that
/// place.
pub uninterp spec fn number_at(
    text: Seq<char>,
    outer: Seq<char>,
    middle: Seq<char>,
    inner: Seq<char>,
) -> Option<Option<u64>>;

/// Parses `text` with `serde_json::from_str` into a `serde_json::Value`,
/// steps down by the three keys with the value's index operator, and reads
/// the number there with `Value::as_f64`.
///
/// Not proved: that the outcome is the one named by `number_at`, which is to
/// say that it depends on the four texts alone. The parser fails on text
/// that is not JSON; the index operator yields null for a missing key or a
/// value that is not an object; `as_f64` yields nothing for a value that is
/// not a number.
#[verifier::external_body]
fn read_number(text: &str, outer: &str, middle: &str, inner: &str) -> (r: Result<
    Option<u64>,
    serde_json::Error,
>)
    ensures
        match r {
            Ok(found) => number_at(text@, outer@, middle@, inner@) == Some(found),
            Err(_) => number_at(text@, outer@, middle@, inner@).is_none(),
        },
{
    let document: serde_json::Value = serde_json::from_str(text)?;
    Ok(document[outer][middle][inner].as_f64().map(|number| number.to_bits()))
}

/// Where the price of `base` in units of `target` is asked for.
pub open spec fn price_address(base: Seq<char>, target: Seq<char>) -> Seq<char> {
    "https://price.jup.ag/v4/price?ids="@ + base + "&vsToken="@ + target
}

/// The address of the request for the price of `base` in units of `target`.
pub fn price_url(base: &str, target: &str) -> (r: String)
    ensures
        r@ == price_address(base@, target@),
{
    let mut url = "https://price.jup.ag/v4/price?ids=".to_owned();
    url.append(base);
    url.append("&vsToken=");
    url.append(target);
    url
}

/// What a reading of the service's answer amounts to: a fault where the
/// answer is not JSON, holds no price, or holds one that is infinite or not
/// a number; the price otherwise, be it zero or negative.
pub open spec fn price_reading(reading: Option<Option<u64>>) -> Result<Amount, OracleFault> {
    match reading {
        None => Err(OracleFault::MalformedResponse),
        Some(None) => Err(OracleFault::MissingPrice),
        Some(Some(bits)) => if (Amount { bits }).finite() {
            Ok(Amount { bits })
        } else {
            Err(OracleFault::NonFinitePrice)
        },
    }
}

/// Judges a reading of the service's answer.
pub fn price_of_reading(reading: Option<Option<u64>>) -> (r: Result<Amount, OracleFault>)
    ensures
        r == price_reading(reading),
{
    match reading {
        None => Err(OracleFault::MalformedResponse),
        Some(None) => Err(OracleFault::MissingPrice),
        Some(Some(bits)) => {
            let price = Amount::from_bits(bits);
            if price.is_finite() {
                Ok(price)
            } else {
                Err(OracleFault::NonFinitePrice)
            }
        },
    }
}

/// Reads the price of `base` from the body of the service's answer: the
/// number under `data`, then the asset's identifier, then `price`.
pub fn price_from_response(body: &str, base: &str) -> (r: Result<Amount, OracleFault>)
    ensures
        r == price_reading(number_at(body@, "data"@, base@, "price"@)),
{
    let reading = match read_number(body, "data", base, "price") {
        Ok(found) => Some(found),
        Err(_) => None,
    };
    price_of_reading(reading)
}

} // verus!
