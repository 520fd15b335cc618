//! Lexical units handed in by the tokenizer, and the exact string tests the
//! grammar performs on their spellings.

use vstd::prelude::*;
use vstd::string::StrSliceExecFns;

verus! {

/// A source location: the row and column a token starts at.
#[derive(Debug, Clone, Copy, PartialEq, Eq, Structural)]
pub struct Position {
    pub row: usize,
    pub col: usize,
}

/// One lexical unit: its literal spelling and where it stands in the source.
#[derive(Debug, Clone)]
pub struct Token {
    pub word: String,
    pub pos: Position,
}

/// Exact equality of two string slices, character by character.
pub fn str_eq(a: &str, b: &str) -> (r: bool)
    ensures
        r == (a@ == b@),
{
    let la = a.unicode_len();
    let lb = b.unicode_len();
    if la != lb {
        return false;
    }
    let mut i: usize = 0;
    while i < la
        invariant
            la == a@.len(),
            la == b@.len(),
            i <= la,
            forall|k: int| 0 <= k < i ==> a@.index(k) == b@.index(k),
        decreases la - i,
    {
        if a.get_char(i) != b.get_char(i) {
            return false;
        }
        i = i + 1;
    }
    proof {
        assert(a@ =~= b@);
    }
    true
}

/// A decimal digit.
pub open spec fn is_digit(c: char) -> bool {
    48 <= c as u32 <= 57
}

/// The spelling of a nonnegative number literal: one or more decimal
/// digits, with no leading zero — the shell would read such a numeral as
/// octal.
pub open spec fn number_word(s: Seq<char>) -> bool {
    s.len() > 0 && (forall|k: int| 0 <= k < s.len() ==> is_digit(s.index(k))) && (s.len() > 1
        ==> s.index(0) != '0')
}

/// Decides whether a token spelling is a number literal.
pub fn is_number_word(s: &str) -> (r: bool)
    ensures
        r == number_word(s@),
{
    let n = s.unicode_len();
    if n == 0 {
        return false;
    }
    if n > 1 && s.get_char(0) == '0' {
        return false;
    }
    let mut i: usize = 0;
    while i < n
        invariant
            n == s@.len(),
            i <= n,
            forall|k: int| 0 <= k < i ==> is_digit(s@.index(k)),
        decreases n - i,
    {
        let c = s.get_char(i);
        let v = c as u32;
        if v < 48 || v > 57 {
            return false;
        }
        i = i + 1;
    }
    true
}

/// The spelling of a text literal: at least the two quote marks, one at each end.
pub open spec fn is_text_word(s: Seq<char>) -> bool {
    s.len() >= 2 && s.index(0) == '"' && s.index(s.len() - 1) == '"'
}

/// Decides whether a token spelling is a quoted text literal.
pub fn is_text_token(s: &str) -> (r: bool)
    ensures
        r == is_text_word(s@),
{
    let n = s.unicode_len();
    if n < 2 {
        return false;
    }
    s.get_char(0) == '"' && s.get_char(n - 1) == '"'
}

} // verus!
