//! The name normalizer: turns a raw, file-derived identifier into a
//! human-readable display name by capitalizing the first character and
//! every character that immediately follows a space.

use vstd::prelude::*;

verus! {

/// ASCII uppercasing of a single character: `'a'..='z'` map to
/// `'A'..='Z'`, every other character is unchanged.
pub open spec fn upper_char(c: char) -> char {
    if 'a' <= c && c <= 'z' {
        ((c as u32) - 32) as char
    } else {
        c
    }
}

/// The character a display name holds at position `i`: capitalized when it
/// starts the string or follows a space, otherwise the input character.
pub open spec fn display_char_at(s: Seq<char>, i: int) -> char {
    if i == 0 || s[i - 1] == ' ' {
        upper_char(s[i])
    } else {
        s[i]
    }
}

/// The display name derived from a raw identifier: same length, with
/// capitalization applied after the start of the string and after every
/// space.
pub open spec fn display_name_of(s: Seq<char>) -> Seq<char> {
    Seq::new(s.len(), |i: int| display_char_at(s, i))
}

/// Uppercases one ASCII letter; leaves any other character unchanged.
fn ascii_upper(c: char) -> (r: char)
    ensures
        r == upper_char(c),
{
    if 'a' <= c && c <= 'z' {
        let u: u32 = c as u32;
        let b: u8 = (u - 32) as u8;
        b as char
    } else {
        c
    }
}

/// Converts a raw identifier (as stored on disk) into a display name:
/// the first character and each character following a space are
/// ASCII-uppercased; everything else passes through unchanged.
pub fn to_character_name(raw: &str) -> (r: String)
    ensures
        r@ == display_name_of(raw@),
{
    let n = raw.unicode_len();
    let mut out = String::new();
    let mut i: usize = 0;
    while i < n
        invariant
            n == raw@.len(),
            i <= n,
            out@.len() == i,
            forall|j: int| 0 <= j < i ==> out@[j] == display_char_at(raw@, j),
        decreases n - i,
    {
        let c = raw.get_char(i);
        let mapped = if i == 0 {
            ascii_upper(c)
        } else {
            let prev = raw.get_char(i - 1);
            if prev == ' ' {
                ascii_upper(c)
            } else {
                c
            }
        };
        push_char(&mut out, mapped);
        i = i + 1;
    }
    proof {
        assert(out@ =~= display_name_of(raw@));
    }
    out
}

/// Relies on `String::push`: appends exactly the given character to the
/// end of the string.
#[verifier::external_body]
fn push_char(s: &mut String, c: char)
    ensures
        final(s)@ == old(s)@.push(c),
{
    s.push(c);
}

/// Normalization keeps the length of every input, and every character at a
/// position that is neither the start of the string nor right after a
/// space passes through unchanged.
pub proof fn lemma_display_name_preserves(s: Seq<char>)
    requires
        s.len() > 0,
    ensures
        display_name_of(s).len() == s.len(),
        forall|i: int|
            1 <= i < s.len() && s[i - 1] != ' ' && s[i] != ' ' ==> display_name_of(s)[i] == s[i],
{
}

} // verus!
