//! Version tokens: fourteen-digit timestamps, year first, which sort by
//! dictionary order as they sort in time.

use vstd::prelude::*;
use crate::text::{all_digits, is_digit, lex_le};

verus! {

/// The number that a digit stands for.
pub open spec fn digit_value(c: char) -> nat {
    (c as int - '0' as int) as nat
}

/// Ten to the power `n`.
pub open spec fn pow10(n: nat) -> nat
    decreases n,
{
    if n == 0 {
        1
    } else {
        10 * pow10((n - 1) as nat)
    }
}

/// The number that a token of digits writes in decimal. Of two timestamps
/// written year first in the same width, the later has the greater number.
pub open spec fn token_value(s: Seq<char>) -> nat
    decreases s.len(),
{
    if s.len() == 0 {
        0
    } else {
        digit_value(s[0]) * pow10((s.len() - 1) as nat) + token_value(s.drop_first())
    }
}

/// A token of `n` digits writes a number below ten to the `n`.
pub proof fn lemma_token_value_bound(s: Seq<char>)
    requires
        all_digits(s),
    ensures
        token_value(s) < pow10(s.len()),
    decreases s.len(),
{
    if s.len() > 0 {
        let rest = s.drop_first();
        assert forall|i: int| 0 <= i < rest.len() implies is_digit(#[trigger] rest[i]) by {
            assert(rest[i] == s[i + 1]);
        }
        lemma_token_value_bound(rest);
        let p = pow10((s.len() - 1) as nat);
        let d = digit_value(s[0]);
        assert(is_digit(s[0]));
        assert(d <= 9);
        assert(d * p + p <= 10 * p) by (nonlinear_arith)
            requires
                d <= 9,
        ;
    }
}

/// Dictionary order and order in time agree on tokens of digits of one width.
pub proof fn lemma_lexical_order_is_chronological(a: Seq<char>, b: Seq<char>)
    requires
        all_digits(a),
        all_digits(b),
        a.len() == b.len(),
    ensures
        lex_le(a, b) <==> token_value(a) <= token_value(b),
    decreases a.len(),
{
    if a.len() > 0 {
        let ra = a.drop_first();
        let rb = b.drop_first();
        assert forall|i: int| 0 <= i < ra.len() implies is_digit(#[trigger] ra[i]) by {
            assert(ra[i] == a[i + 1]);
        }
        assert forall|i: int| 0 <= i < rb.len() implies is_digit(#[trigger] rb[i]) by {
            assert(rb[i] == b[i + 1]);
        }
        lemma_token_value_bound(ra);
        lemma_token_value_bound(rb);
        let p = pow10((a.len() - 1) as nat);
        let da = digit_value(a[0]);
        let db = digit_value(b[0]);
        assert(is_digit(a[0]) && is_digit(b[0]));
        if a[0] != b[0] {
            if a[0] < b[0] {
                assert(da * p + p <= db * p) by (nonlinear_arith)
                    requires
                        da + 1 <= db,
                ;
            } else {
                assert(db * p + p <= da * p) by (nonlinear_arith)
                    requires
                        db + 1 <= da,
                ;
            }
        } else {
            lemma_lexical_order_is_chronological(ra, rb);
        }
    }
}

} // verus!
