//! The outside call that writes an amount as decimal bitcoin.

use vstd::prelude::*;

use bitcoin_payment_instructions::amount::Amount;

verus! {

/// The largest amount that can exist, in milli-satoshis: 21 million bitcoin.
pub const MAX_MSATS: u64 = 2_100_000_000_000_000_000;

/// The decimal text, in bitcoin, of an amount given in milli-satoshis, rounded up
/// to whole satoshis.
pub uninterp spec fn btc_decimal_text(msats: u64) -> Seq<char>;

/// A decimal digit or the decimal point.
pub open spec fn is_decimal_char(c: char) -> bool {
    ('0' <= c && c <= '9') || c == '.'
}

/// Relies on `Amount::from_milli_sats`, which accepts any amount up to 21 million
/// bitcoin, and on the `Display` of `Amount::btc_decimal_rounding_up_to_sats`,
/// whose text depends on the amount alone and is made of the decimal digits of
/// the whole bitcoin, then, if the fraction is not zero, a `.` and its digits.
#[verifier::external_body]
pub(crate) fn btc_decimal(msats: u64) -> (r: String)
    requires
        msats <= MAX_MSATS,
    ensures
        r@ == btc_decimal_text(msats),
        r@.len() > 0,
        forall|i: int| 0 <= i < r@.len() ==> is_decimal_char(#[trigger] r@[i]),
{
    match Amount::from_milli_sats(msats) {
        Ok(a) => a.btc_decimal_rounding_up_to_sats().to_string(),
        Err(()) => String::new(),
    }
}

} // verus!
