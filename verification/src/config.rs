//! Configuration inputs of the transport: the server and the chunk size,
//! with the textual form of the latter.

use crate::error::{ErrorView, TransferError};
use vstd::prelude::*;
use vstd::string::*;

verus! {

/// The host that files are uploaded to unless another is configured.
pub const DEFAULT_SERVER: &'static str = "streamshare.wireway.ch";

/// The chunk size used when none is configured: one mebibyte.
pub const DEFAULT_CHUNK_SIZE: usize = 1048576;

/// Whether `c` is one of the ten decimal digits.
pub open spec fn is_digit(c: char) -> bool {
    '0' <= c && c <= '9'
}

/// The number that a decimal digit stands for.
pub open spec fn digit_value(c: char) -> nat {
    (c as nat - '0' as nat) as nat
}

/// The number written by a sequence of decimal digits, most significant first.
pub open spec fn decimal_value(digits: Seq<char>) -> nat
    decreases digits.len(),
{
    if digits.len() == 0 {
        0
    } else {
        decimal_value(digits.drop_last()) * 10 + digit_value(digits.last())
    }
}

/// The digits of a size: the text itself, without one leading `+`.
pub open spec fn digits_of(text: Seq<char>) -> Seq<char> {
    if text.len() > 0 && text[0] == '+' {
        text.drop_first()
    } else {
        text
    }
}

/// Whether `text` writes a number: at least one digit and nothing but digits
/// after an optional leading `+`.
pub open spec fn is_decimal(text: Seq<char>) -> bool {
    let digits = digits_of(text);
    &&& digits.len() > 0
    &&& forall|i: int| 0 <= i < digits.len() ==> is_digit(#[trigger] digits[i])
}

/// The chunk size that `text` configures, if it writes a number that a size
/// can hold.
pub open spec fn chunk_size_of(text: Seq<char>) -> Option<nat> {
    if is_decimal(text) && decimal_value(digits_of(text)) <= usize::MAX {
        Some(decimal_value(digits_of(text)))
    } else {
        None
    }
}

/// The first digits of a number write no more than all of them.
pub proof fn lemma_decimal_value_of_prefix(digits: Seq<char>, k: int)
    requires
        0 <= k <= digits.len(),
    ensures
        decimal_value(digits.subrange(0, k)) <= decimal_value(digits),
    decreases digits.len(),
{
    if k == digits.len() {
        assert(digits.subrange(0, k) =~= digits);
    } else {
        assert(digits.drop_last().subrange(0, k) =~= digits.subrange(0, k));
        lemma_decimal_value_of_prefix(digits.drop_last(), k);
    }
}

/// Reads a chunk size from its decimal form.
///
/// Accepted is an optional `+` followed by one or more decimal digits whose
/// value fits a size; everything else is a `ConfigurationError`.
pub fn parse_chunk_size(text: &str) -> (size: Result<usize, TransferError>)
    ensures
        match size {
            Ok(n) => chunk_size_of(text@) == Some(n as nat),
            Err(error) => error@ == ErrorView::ConfigurationError && chunk_size_of(text@)
                is None,
        },
{
    let ghost digits = digits_of(text@);
    let mut first: bool = true;
    let mut signed: bool = false;
    let mut any: bool = false;
    let mut value: usize = 0;
    for c in it: text.chars()
        invariant
            it.seq() == text@,
            digits == digits_of(text@),
            first <==> it.index() == 0,
            signed <==> (it.index() > 0 && text@[0] == '+'),
            any <==> it.index() > (if signed { 1int } else { 0int }),
            forall|j: int|
                0 <= j < it.index() - (if signed { 1int } else { 0int }) ==> is_digit(
                    #[trigger] digits[j],
                ),
            value == decimal_value(
                digits.subrange(0, it.index() - (if signed { 1int } else { 0int })),
            ),
    {
        let ghost start = if signed { 1int } else { 0int };
        let ghost at = it.index() - start;
        if first && c == '+' {
            signed = true;
            first = false;
            assert(digits.subrange(0, 0) =~= Seq::<char>::empty());
        } else {
            first = false;
            assert(digits[at] == c);
            if !(c >= '0' && c <= '9') {
                return Err(TransferError::ConfigurationError);
            }
            let digit: usize = (c as u32 - '0' as u32) as usize;
            proof {
                let longer = digits.subrange(0, at + 1);
                assert(longer.drop_last() =~= digits.subrange(0, at));
                assert(longer.last() == c);
                lemma_decimal_value_of_prefix(digits, at + 1);
            }
            let shifted: usize = match value.checked_mul(10) {
                Some(shifted) => shifted,
                None => {
                    return Err(TransferError::ConfigurationError);
                },
            };
            value = match shifted.checked_add(digit) {
                Some(sum) => sum,
                None => {
                    return Err(TransferError::ConfigurationError);
                },
            };
            any = true;
        }
    }
    proof {
        let start = if signed { 1int } else { 0int };
        assert(digits.subrange(0, text@.len() - start) =~= digits);
    }
    if any {
        Ok(value)
    } else {
        Err(TransferError::ConfigurationError)
    }
}

} // verus!
