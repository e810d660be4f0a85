//! Memory amounts as operators write them ("8G", "512m", "2048K") and the
//! heap sizes derived from them.

use vstd::prelude::*;
use vstd::string::*;
use crate::text::{chars_of, decimal_digits, decimal_string};

verus! {

/// The bytes in a kibibyte.
pub const KIB: u64 = 1024;

/// The bytes in a mebibyte.
pub const MIB: u64 = 1048576;

/// The bytes in a gibibyte.
pub const GIB: u64 = 1073741824;

/// The amount assumed when a text carries no usable number.
pub const DEFAULT_AMOUNT: u64 = 4;

/// Whether `c` is one of the digits `0` to `9`.
pub open spec fn is_decimal_digit(c: char) -> bool {
    '0' <= c && c <= '9'
}

/// The value of the digit `c`.
pub open spec fn digit_value(c: char) -> nat {
    (c as u32 - '0' as u32) as nat
}

/// How many decimal digits `s` starts with.
pub open spec fn leading_digits(s: Seq<char>) -> nat
    decreases s.len(),
{
    if s.len() == 0 || !is_decimal_digit(s[0]) {
        0
    } else {
        1 + leading_digits(s.drop_first())
    }
}

/// The number that a run of decimal digits denotes; the empty run denotes 0.
pub open spec fn decimal_value(digits: Seq<char>) -> nat
    decreases digits.len(),
{
    if digits.len() == 0 {
        0
    } else {
        decimal_value(digits.drop_last()) * 10 + digit_value(digits.last())
    }
}

/// The amount a memory text names: its leading digits, or
/// `DEFAULT_AMOUNT` when there are none or they exceed 64 bits.
pub open spec fn memory_amount(text: Seq<char>) -> nat {
    let digits = text.take(leading_digits(text) as int);
    if digits.len() == 0 || decimal_value(digits) > u64::MAX {
        DEFAULT_AMOUNT as nat
    } else {
        decimal_value(digits)
    }
}

/// The unit a memory text ends in: `M` or `K`, in either case, or else
/// gibibytes.
pub open spec fn memory_unit(text: Seq<char>) -> nat {
    if text.len() > 0 && (text.last() == 'M' || text.last() == 'm') {
        MIB as nat
    } else if text.len() > 0 && (text.last() == 'K' || text.last() == 'k') {
        KIB as nat
    } else {
        GIB as nat
    }
}

/// The byte count of a memory text, held at `u64::MAX` when the product does
/// not fit.
pub open spec fn memory_bytes(text: Seq<char>) -> nat {
    let product = memory_amount(text) * memory_unit(text);
    if product > u64::MAX {
        u64::MAX as nat
    } else {
        product
    }
}

/// The maximum heap granted out of `total` bytes: up to 2 GiB of total it is
/// the total less 256 MiB, capped at 1200 MiB; above, the total less 1 GiB.
pub open spec fn heap_bytes(total: nat) -> nat {
    if total <= 2 * GIB {
        let spare: nat = if total >= 256 * MIB {
            (total - 256 * MIB) as nat
        } else {
            0
        };
        if spare < 1200 * MIB {
            spare
        } else {
            (1200 * MIB) as nat
        }
    } else {
        (total - GIB) as nat
    }
}

/// The initial heap out of `total` bytes: half of the total up to 2 GiB, two
/// thirds above, and never more than `heap_bytes(total)`.
pub open spec fn initial_heap_bytes(total: nat) -> nat {
    let share: nat = if total <= 2 * GIB {
        total / 2
    } else {
        (total * 2) / 3
    };
    if share < heap_bytes(total) {
        share
    } else {
        heap_bytes(total)
    }
}

/// A byte count as a whole number of mebibytes followed by `M`.
pub open spec fn mebibyte_token(bytes: nat) -> Seq<char> {
    decimal_digits(bytes / (MIB as nat)).push('M')
}

/// A run of `n` digits, followed by something else or the end, is what `s`
/// starts with.
proof fn lemma_leading_digits(s: Seq<char>, n: nat)
    requires
        n <= s.len(),
        forall|i: int| 0 <= i < n ==> is_decimal_digit(#[trigger] s[i]),
        n == s.len() || !is_decimal_digit(s[n as int]),
    ensures
        leading_digits(s) == n,
    decreases n,
{
    if n > 0 {
        let rest = s.drop_first();
        assert forall|i: int| 0 <= i < n - 1 implies is_decimal_digit(#[trigger] rest[i]) by {
            assert(rest[i] == s[i + 1]);
        }
        lemma_leading_digits(rest, (n - 1) as nat);
    }
}

/// The byte count named by a memory text such as "8G", "512m" or "2048K".
///
/// Its leading decimal digits give the amount (4 when there are none, or
/// when they do not fit in 64 bits); a final `M` or `K`, in either case,
/// gives the unit, anything else means gibibytes. The result stays at
/// `u64::MAX` when the product does not fit.
pub fn parse_memory_to_bytes(mem: &str) -> (bytes: u64)
    ensures
        bytes == memory_bytes(mem@),
{
    let chars = chars_of(mem);
    let mut i: usize = 0;
    let mut value: u64 = 0;
    let mut too_big = false;
    while i < chars.len() && '0' <= chars[i] && chars[i] <= '9'
        invariant
            i <= chars.len(),
            forall|j: int| 0 <= j < i ==> is_decimal_digit(#[trigger] chars@[j]),
            !too_big ==> value == decimal_value(chars@.take(i as int)),
            too_big ==> decimal_value(chars@.take(i as int)) > u64::MAX,
        decreases chars.len() - i,
    {
        let digit: u64 = (chars[i] as u32 - '0' as u32) as u64;
        proof {
            assert(chars@.take(i + 1).drop_last() =~= chars@.take(i as int));
            assert(chars@.take(i + 1).last() == chars@[i as int]);
        }
        if !too_big {
            if value > (u64::MAX - digit) / 10 {
                too_big = true;
            } else {
                value = value * 10 + digit;
            }
        }
        i += 1;
    }
    proof {
        lemma_leading_digits(chars@, i as nat);
    }
    let amount: u64 = if i == 0 || too_big {
        DEFAULT_AMOUNT
    } else {
        value
    };
    let n = chars.len();
    let unit: u64 = if n > 0 && (chars[n - 1] == 'M' || chars[n - 1] == 'm') {
        MIB
    } else if n > 0 && (chars[n - 1] == 'K' || chars[n - 1] == 'k') {
        KIB
    } else {
        GIB
    };
    match amount.checked_mul(unit) {
        Some(product) => product,
        None => u64::MAX,
    }
}

/// The maximum heap, in bytes, for a process that may use `total_bytes`.
pub fn calculate_heap_bytes(total_bytes: u64) -> (heap: u64)
    ensures
        heap == heap_bytes(total_bytes as nat),
{
    if total_bytes <= 2 * GIB {
        let spare: u64 = if total_bytes >= 256 * MIB {
            total_bytes - 256 * MIB
        } else {
            0
        };
        if spare < 1200 * MIB {
            spare
        } else {
            1200 * MIB
        }
    } else {
        total_bytes - GIB
    }
}

/// `bytes` as a whole number of mebibytes followed by `M`.
fn mebibytes(bytes: u64) -> (token: String)
    ensures
        token@ == mebibyte_token(bytes as nat),
{
    let mut token = decimal_string(bytes / MIB);
    proof {
        reveal_strlit("M");
    }
    token.append("M");
    token
}

/// The initial and maximum heap sizes for a process that may use
/// `total_bytes`, as whole mebibytes followed by `M`.
pub fn calculate_smart_heap(total_bytes: u64) -> (tokens: (String, String))
    ensures
        tokens.0@ == mebibyte_token(initial_heap_bytes(total_bytes as nat)),
        tokens.1@ == mebibyte_token(heap_bytes(total_bytes as nat)),
{
    let heap = calculate_heap_bytes(total_bytes);
    let share: u64 = if total_bytes <= 2 * GIB {
        total_bytes / 2
    } else {
        ((total_bytes as u128 * 2) / 3) as u64
    };
    let initial: u64 = if share < heap {
        share
    } else {
        heap
    };
    (mebibytes(initial), mebibytes(heap))
}

} // verus!
