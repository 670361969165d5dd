//! Which terminfo string capabilities a terminal can be trusted to expand.
//!
//! A string capability is a small program: `%` starts an instruction that
//! pushes, pops, compares or prints. Some instructions can fail in ways that
//! the expansion does not catch: a division by zero, the parameter number
//! zero, sums that leave the range of a 32-bit integer, a field width beyond
//! all memory. A capability is accepted here only if no such instruction
//! occurs in its bytes, whether or not it would be reached:
//!
//! - no `%` is followed by `*`, `/`, `m`, `~` or `i`, so that nothing is
//!   multiplied, divided, negated or incremented;
//! - no `%` is followed by `:`, `#`, a space, `.` or a digit, so that no
//!   width or precision is ever read;
//! - `%p0` does not occur, so that every parameter number is at least one;
//! - no five digits stand in a row, so that every integer constant is below
//!   ten thousand;
//! - `%+` and `%-` occur at most eight times together, so that, from
//!   parameters and constants below 65536, no sum or difference can exceed
//!   256 times 65536.

use vstd::prelude::*;

verus! {

/// How many additions and subtractions a capability may hold.
pub const MAX_ADDITIVE: usize = 8;

/// The byte `%`, which starts an instruction.
pub const PERCENT: u8 = 0x25;

/// The byte `*`: after `%`, multiply.
pub const STAR: u8 = 0x2A;

/// The byte `/`: after `%`, divide.
pub const SLASH: u8 = 0x2F;

/// The byte `m`: after `%`, take the remainder.
pub const LOWER_M: u8 = 0x6D;

/// The byte `~`: after `%`, complement.
pub const TILDE: u8 = 0x7E;

/// The byte `i`: after `%`, increment the first two parameters.
pub const LOWER_I: u8 = 0x69;

/// The byte `:`: after `%`, start a format.
pub const COLON: u8 = 0x3A;

/// The byte `#`: after `%`, start a format.
pub const HASH: u8 = 0x23;

/// The space: after `%`, start a format.
pub const SPACE: u8 = 0x20;

/// The byte `.`: after `%`, start a precision.
pub const DOT: u8 = 0x2E;

/// The byte `+`: after `%`, add.
pub const PLUS: u8 = 0x2B;

/// The byte `-`: after `%`, subtract.
pub const MINUS: u8 = 0x2D;

/// The byte `p`: after `%`, push the parameter whose number follows.
pub const LOWER_P: u8 = 0x70;

/// The digit `0`.
pub const ZERO: u8 = 0x30;

/// The digit `9`.
pub const NINE: u8 = 0x39;

/// Whether `b` is an ASCII digit.
pub open spec fn is_digit(b: u8) -> bool {
    ZERO <= b <= NINE
}

/// Whether `b` may not follow a `%`: one of `*`, `/`, `m`, `~`, `i`, `:`,
/// `#`, space, `.` and the digits.
pub open spec fn refused_after_percent(b: u8) -> bool {
    b == STAR || b == SLASH || b == LOWER_M || b == TILDE || b == LOWER_I || b == COLON || b
        == HASH || b == SPACE || b == DOT || is_digit(b)
}

/// Whether `b` is `+` or `-`.
pub open spec fn is_additive(b: u8) -> bool {
    b == PLUS || b == MINUS
}

/// Whether something refused starts at position `i`: a `%` with a refused
/// byte after it, `%p0`, or five digits in a row.
pub open spec fn refused_at(cap: Seq<u8>, i: int) -> bool {
    ||| (cap[i] == PERCENT && i + 1 < cap.len() && refused_after_percent(cap[i + 1]))
    ||| (cap[i] == PERCENT && i + 2 < cap.len() && cap[i + 1] == LOWER_P && cap[i + 2] == ZERO)
    ||| (i + 4 < cap.len() && is_digit(cap[i]) && is_digit(cap[i + 1]) && is_digit(cap[i + 2])
        && is_digit(cap[i + 3]) && is_digit(cap[i + 4]))
}

/// Whether `%+` or `%-` starts at position `i`.
pub open spec fn additive_at(cap: Seq<u8>, i: int) -> bool {
    cap[i] == PERCENT && i + 1 < cap.len() && is_additive(cap[i + 1])
}

/// How many times `%+` or `%-` starts before position `n`.
pub open spec fn additive_count(cap: Seq<u8>, n: int) -> nat
    decreases n,
{
    if n <= 0 {
        0
    } else if additive_at(cap, n - 1) {
        additive_count(cap, n - 1) + 1
    } else {
        additive_count(cap, n - 1)
    }
}

/// Whether a capability is accepted: nothing refused starts anywhere in it,
/// and it holds at most eight additions and subtractions.
pub open spec fn safe_capability(cap: Seq<u8>) -> bool {
    &&& forall|i: int| 0 <= i < cap.len() ==> !refused_at(cap, i)
    &&& additive_count(cap, cap.len() as int) <= MAX_ADDITIVE
}

/// The count never goes down as more of the capability is looked at.
pub proof fn lemma_additive_count_grows(cap: Seq<u8>, m: int, n: int)
    requires
        m <= n,
    ensures
        additive_count(cap, m) <= additive_count(cap, n),
    decreases n - m,
{
    if m < n {
        lemma_additive_count_grows(cap, m, n - 1);
    }
}

/// Whether `b` is an ASCII digit.
fn byte_is_digit(b: u8) -> (r: bool)
    ensures
        r == is_digit(b),
{
    ZERO <= b && b <= NINE
}

/// Whether something refused starts at position `i` of `cap`.
fn starts_refused(cap: &[u8], i: usize) -> (r: bool)
    requires
        i < cap@.len(),
    ensures
        r == refused_at(cap@, i as int),
{
    let n: usize = cap.len();
    let b: u8 = cap[i];
    if b == PERCENT && n - i > 1 {
        let next: u8 = cap[i + 1];
        if next == STAR || next == SLASH || next == LOWER_M || next == TILDE || next == LOWER_I
            || next == COLON || next == HASH || next == SPACE || next == DOT || byte_is_digit(
            next,
        ) {
            return true;
        }
        if next == LOWER_P && n - i > 2 && cap[i + 2] == ZERO {
            return true;
        }
    }
    n - i > 4 && byte_is_digit(b) && byte_is_digit(cap[i + 1]) && byte_is_digit(cap[i + 2])
        && byte_is_digit(cap[i + 3]) && byte_is_digit(cap[i + 4])
}

/// Whether a capability is accepted.
pub fn is_safe_capability(cap: &[u8]) -> (safe: bool)
    ensures
        safe == safe_capability(cap@),
{
    let n: usize = cap.len();
    let mut i: usize = 0;
    let mut additive: usize = 0;
    while i < n
        invariant
            i <= n,
            n == cap@.len(),
            forall|j: int| 0 <= j < i ==> !refused_at(cap@, j),
            additive == additive_count(cap@, i as int),
            additive <= MAX_ADDITIVE,
        decreases n - i,
    {
        if starts_refused(cap, i) {
            return false;
        }
        if cap[i] == PERCENT && n - i > 1 && (cap[i + 1] == PLUS || cap[i + 1] == MINUS) {
            if additive == MAX_ADDITIVE {
                proof {
                    lemma_additive_count_grows(cap@, i + 1, n as int);
                }
                return false;
            }
            additive = additive + 1;
        }
        i = i + 1;
    }
    true
}

} // verus!
