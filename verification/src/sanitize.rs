//! The VRChat API replaces some ASCII punctuation in free text (bios and
//! status descriptions) with look-alike characters. These functions put the
//! ASCII characters back.

use vstd::prelude::*;

use crate::text::{chars_of, push_char};

verus! {

/// The ASCII character that the API's look-alike `c` stands for, or `c`
/// itself when it is not one of them.
pub open spec fn unsanitized_char(c: char) -> char {
    let n = c as u32;
    if n == 0xff20 { '@' }
    else if n == 0xff03 { '#' }
    else if n == 0xff04 { '$' }
    else if n == 0xff05 { '%' }
    else if n == 0xff06 { '&' }
    else if n == 0xff1d { '=' }
    else if n == 0xff0b { '+' }
    else if n == 0x2044 { '/' }
    else if n == 0xff3c { '\\' }
    else if n == 0x037e { ';' }
    else if n == 0x02f8 { ':' }
    else if n == 0x201a { ',' }
    else if n == 0xff1f { '?' }
    else if n == 0x01c3 { '!' }
    else if n == 0xff02 { '"' }
    else if n == 0x227a { '<' }
    else if n == 0x227b { '>' }
    else if n == 0x2024 { '.' }
    else if n == 0xff3e { '^' }
    else if n == 0xff5b { '{' }
    else if n == 0xff5d { '}' }
    else if n == 0xff3b { '[' }
    else if n == 0xff3d { ']' }
    else if n == 0xff08 { '(' }
    else if n == 0xff09 { ')' }
    else if n == 0xff5c { '|' }
    else if n == 0x2217 { '*' }
    else { c }
}

/// `s` with every look-alike character replaced by the ASCII character it stands for.
pub open spec fn unsanitized(s: Seq<char>) -> Seq<char> {
    s.map_values(|c: char| unsanitized_char(c))
}

/// The ASCII character that a look-alike stands for.
pub fn unsanitize_char(c: char) -> (r: char)
    ensures
        r == unsanitized_char(c),
{
    let n = c as u32;
    if n == 0xff20 { '@' }
    else if n == 0xff03 { '#' }
    else if n == 0xff04 { '$' }
    else if n == 0xff05 { '%' }
    else if n == 0xff06 { '&' }
    else if n == 0xff1d { '=' }
    else if n == 0xff0b { '+' }
    else if n == 0x2044 { '/' }
    else if n == 0xff3c { '\\' }
    else if n == 0x037e { ';' }
    else if n == 0x02f8 { ':' }
    else if n == 0x201a { ',' }
    else if n == 0xff1f { '?' }
    else if n == 0x01c3 { '!' }
    else if n == 0xff02 { '"' }
    else if n == 0x227a { '<' }
    else if n == 0x227b { '>' }
    else if n == 0x2024 { '.' }
    else if n == 0xff3e { '^' }
    else if n == 0xff5b { '{' }
    else if n == 0xff5d { '}' }
    else if n == 0xff3b { '[' }
    else if n == 0xff3d { ']' }
    else if n == 0xff08 { '(' }
    else if n == 0xff09 { ')' }
    else if n == 0xff5c { '|' }
    else if n == 0x2217 { '*' }
    else { c }
}

/// `s` with every look-alike character replaced by the ASCII character it stands for.
pub fn unsanitize(s: &str) -> (r: String)
    ensures
        r@ == unsanitized(s@),
{
    let cs = chars_of(s);
    let mut r = String::new();
    let mut i: usize = 0;
    while i < cs.len()
        invariant
            i <= cs.len(),
            cs@ == s@,
            r@ == unsanitized(s@.take(i as int)),
        decreases cs.len() - i,
    {
        push_char(&mut r, unsanitize_char(cs[i]));
        i = i + 1;
        assert(unsanitized(s@.take(i as int)) =~= unsanitized(s@.take(i - 1)).push(
            unsanitized_char(s@[i - 1]),
        ));
    }
    assert(s@.take(cs.len() as int) == s@);
    r
}

/// Unsanitizing twice gives what unsanitizing once gives: the restored
/// characters are never look-alikes themselves.
pub proof fn lemma_unsanitize_idempotent(s: Seq<char>)
    ensures
        unsanitized(unsanitized(s)) == unsanitized(s),
{
    assert forall|i: int| 0 <= i < s.len() implies #[trigger] unsanitized_char(
        unsanitized_char(s[i]),
    ) == unsanitized_char(s[i]) by {
        let c = s[i];
        let d = unsanitized_char(c);
        assert(d == c || (d as u32) < 0x80);
    }
    assert(unsanitized(unsanitized(s)) =~= unsanitized(s));
}

} // verus!
