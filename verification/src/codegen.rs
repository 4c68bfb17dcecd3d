//! Random short-code generation over the 62-symbol alphanumeric alphabet.

use vstd::prelude::*;

verus! {

/// The alphabet codes are drawn from: digits, upper-case letters,
/// lower-case letters — 62 symbols.
pub open spec fn code_alphabet() -> Seq<char> {
    "0123456789ABCDEFGHIJKLMNOPQRSTUVWXYZabcdefghijklmnopqrstuvwxyz"@
}

/// Every character of `s` belongs to the code alphabet.
pub open spec fn code_chars_ok(s: Seq<char>) -> bool {
    forall|i: int| 0 <= i < s.len() ==> code_alphabet().contains(#[trigger] s[i])
}

/// Relies on rand::random_range over `0..bound`: a sample uniform in the
/// range, in particular strictly below `bound`; the empty range (refused
/// by the precondition) would make it panic.
#[verifier::external_body]
fn random_below(bound: usize) -> (r: usize)
    requires
        bound > 0,
    ensures
        r < bound,
{
    rand::random_range(0..bound)
}

/// Produce a short code of `length` characters drawn at random from the
/// 62-symbol alphabet.
pub fn generate(length: usize) -> (code: String)
    ensures
        code@.len() == length,
        code_chars_ok(code@),
{
    let alphabet: &str = "0123456789ABCDEFGHIJKLMNOPQRSTUVWXYZabcdefghijklmnopqrstuvwxyz";
    proof {
        reveal_strlit("0123456789ABCDEFGHIJKLMNOPQRSTUVWXYZabcdefghijklmnopqrstuvwxyz");
    }
    let mut code = String::new();
    let mut i: usize = 0;
    while i < length
        invariant
            i <= length,
            code@.len() == i,
            code_chars_ok(code@),
            alphabet@ == code_alphabet(),
            alphabet@.len() == 62,
        decreases length - i,
    {
        let idx = random_below(62);
        let ch = alphabet.substring_char(idx, idx + 1);
        let ghost pre = code@;
        code.append(ch);
        proof {
            assert(ch@.len() == 1);
            assert(ch@[0] == alphabet@[idx as int]);
            assert(code_alphabet().contains(alphabet@[idx as int]));
            assert forall|j: int| 0 <= j < code@.len() implies code_alphabet().contains(
                #[trigger] code@[j],
            ) by {
                if j < pre.len() {
                    assert(code@[j] == pre[j]);
                } else {
                    assert(code@[j] == ch@[0]);
                }
            }
        }
        i += 1;
    }
    code
}

} // verus!
