use vstd::prelude::*;
use crate::utils::text::{digit_char, digit_to_char, push_char};

verus! {

/// The keycap emoji of the digit `n`: the digit, the emoji presentation
/// selector U+FE0F and the combining enclosing keycap U+20E3.
pub open spec fn keycap(n: nat) -> Seq<char> {
    seq![digit_char(n), '\u{FE0F}', '\u{20E3}']
}

/// The keycap emoji of `num` when `num` is a single digit, else `None`.
pub fn get_unicode_from_number(num: usize) -> (r: Option<String>)
    ensures
        num <= 9 <==> r is Some,
        r matches Some(s) ==> s@ == keycap(num as nat),
{
    if num <= 9 {
        let mut s = String::new();
        push_char(&mut s, digit_to_char(num as u64));
        push_char(&mut s, '\u{FE0F}');
        push_char(&mut s, '\u{20E3}');
        Some(s)
    } else {
        None
    }
}

/// Different digits have different keycap emoji.
pub proof fn lemma_keycaps_distinct(a: nat, b: nat)
    requires
        a <= 9,
        b <= 9,
        a != b,
    ensures
        keycap(a) != keycap(b),
{
    assert(keycap(a)[0] != keycap(b)[0]);
}

} // verus!
