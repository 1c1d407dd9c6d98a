//! Manifest identifier derivation: upper-case the original file name
//! character by character, turn `.` and space into `_`, keep what is
//! identifier-safe and drop the rest.

use vstd::prelude::*;
use vstd::string::StrSliceExecFns;

verus! {

/// The first character of the Unicode uppercase mapping of `c`.
pub uninterp spec fn upper_first_of(c: char) -> char;

/// Uppercase as the identifier rule sees it: ASCII letters map within ASCII,
/// other ASCII characters stay themselves, and anything else goes through the
/// Unicode uppercase mapping's first character.
pub open spec fn spec_upper(c: char) -> char {
    if 97 <= c as u32 && c as u32 <= 122 {
        (((c as u32) - 32) as u8) as char
    } else if (c as u32) < 128 {
        c
    } else {
        upper_first_of(c)
    }
}

/// The characters an identifier may keep: `A`..`Z`, `0`..`9`, `_`.
pub open spec fn spec_allowed(c: char) -> bool {
    (65 <= c as u32 && c as u32 <= 90) || (48 <= c as u32 && c as u32 <= 57) || c == '_'
}

/// What one already-uppercased character contributes to an identifier.
pub open spec fn spec_keep(c: char) -> Seq<char> {
    if c == '.' || c == ' ' {
        seq!['_']
    } else if spec_allowed(c) {
        seq![c]
    } else {
        Seq::empty()
    }
}

/// The sanitized identifier derived from a file name.
pub open spec fn spec_identifier(name: Seq<char>) -> Seq<char>
    decreases name.len(),
{
    if name.len() == 0 {
        Seq::empty()
    } else {
        spec_identifier(name.drop_last()) + spec_keep(spec_upper(name.last()))
    }
}

/// Relies on char::to_uppercase: the Unicode uppercase mapping of a
/// character, always one or more characters long, and a function of the
/// character alone.
#[verifier::external_body]
fn upper_first(c: char) -> (r: char)
    ensures
        r == upper_first_of(c),
{
    c.to_uppercase().next().unwrap()
}

/// Relies on String's FromIterator impl: collecting characters yields the
/// string of exactly those characters, in order.
#[verifier::external_body]
fn chars_to_string(chars: &Vec<char>) -> (r: String)
    ensures
        r@ == chars@,
{
    chars.iter().collect()
}

fn upper_char(c: char) -> (r: char)
    ensures
        r == spec_upper(c),
{
    let u = c as u32;
    if 97 <= u && u <= 122 {
        ((u - 32) as u8) as char
    } else if u < 128 {
        c
    } else {
        upper_first(c)
    }
}

fn allowed_char(c: char) -> (r: bool)
    ensures
        r == spec_allowed(c),
{
    let u = c as u32;
    (65 <= u && u <= 90) || (48 <= u && u <= 57) || c == '_'
}

/// The sanitized identifier of `name`, fit for a generated constant.
pub fn sanitize_identifier(name: &str) -> (r: String)
    ensures
        r@ == spec_identifier(name@),
{
    let n = name.unicode_len();
    let mut out: Vec<char> = Vec::new();
    let mut i: usize = 0;
    while i < n
        invariant
            i <= n,
            n == name@.len(),
            out@ == spec_identifier(name@.take(i as int)),
        decreases n - i,
    {
        let c = name.get_char(i);
        let ghost before = out@;
        let u = upper_char(c);
        if u == '.' || u == ' ' {
            out.push('_');
        } else if allowed_char(u) {
            out.push(u);
        }
        proof {
            assert(name@.take(i + 1).drop_last() =~= name@.take(i as int));
            assert(name@.take(i + 1).last() == name@[i as int]);
            assert(out@ =~= before + spec_keep(u));
        }
        i = i + 1;
    }
    proof {
        assert(name@.take(n as int) =~= name@);
    }
    chars_to_string(&out)
}

} // verus!
