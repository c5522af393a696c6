//! Plain-text building blocks of the report: decimal rendering of scores,
//! identifier trimming and fixed-width padding.

use vstd::prelude::*;
use vstd::string::*;

verus! {

/// Cell width of the table: identifiers longer than this are trimmed.
pub const MAX_ID_SIZE: usize = 15;

/// The decimal digit character for `d` (`0 <= d <= 9`).
pub open spec fn digit(d: int) -> char {
    if d == 0 {
        '0'
    } else if d == 1 {
        '1'
    } else if d == 2 {
        '2'
    } else if d == 3 {
        '3'
    } else if d == 4 {
        '4'
    } else if d == 5 {
        '5'
    } else if d == 6 {
        '6'
    } else if d == 7 {
        '7'
    } else if d == 8 {
        '8'
    } else {
        '9'
    }
}

/// The usual decimal rendering of `n`, most significant digit first,
/// without leading zeros (except for `n == 0` itself).
pub open spec fn dec_spec(n: nat) -> Seq<char>
    decreases n,
{
    if n <= 9 {
        seq![digit(n as int)]
    } else {
        dec_spec(n / 10) + seq![digit((n % 10) as int)]
    }
}

/// `c` repeated `n` times.
pub open spec fn rep(c: char, n: nat) -> Seq<char>
    decreases n,
{
    if n == 0 {
        Seq::empty()
    } else {
        rep(c, (n - 1) as nat).push(c)
    }
}

/// `s` right-aligned in a field of `w` characters; a string already `w`
/// characters or longer stays as it is.
pub open spec fn pad_left_spec(s: Seq<char>, w: nat) -> Seq<char> {
    if s.len() >= w {
        s
    } else {
        rep(' ', (w - s.len()) as nat) + s
    }
}

/// The textual form of a score against its maximum, `"<score>/<total>"`.
pub open spec fn pair_spec(score: nat, total: nat) -> Seq<char> {
    dec_spec(score) + "/"@ + dec_spec(total)
}

/// An identifier as a table cell shows it: unchanged when it fits in 15
/// characters, else its first 12 characters with an ellipsis.
pub open spec fn trim_spec(s: Seq<char>) -> Seq<char> {
    if s.len() > 15 {
        s.take(12) + "..."@
    } else {
        s
    }
}

/// Holds of text free of the escape character, which the colouring layer
/// would otherwise mistake for one of its own control sequences.
pub open spec fn no_esc(s: Seq<char>) -> bool {
    forall|i: int| 0 <= i < s.len() ==> s[i] != '\u{1b}'
}

/// No decimal rendering contains an escape character, so colouring a
/// rendered score pair wraps exactly that pair.
pub proof fn lemma_dec_no_esc(n: nat)
    ensures
        no_esc(dec_spec(n)),
    decreases n,
{
    if n > 9 {
        lemma_dec_no_esc(n / 10);
        assert forall|i: int| 0 <= i < dec_spec(n).len() implies dec_spec(n)[i] != '\u{1b}' by {
            if i < dec_spec(n / 10).len() {
                assert(dec_spec(n)[i] == dec_spec(n / 10)[i]);
            } else {
                assert(dec_spec(n)[i] == digit((n % 10) as int));
            }
        }
    }
}

/// A trimmed identifier always fits in the 15-character cell, provided the
/// identifier itself was no wider than the cell or was trimmed.
pub proof fn lemma_trim_len(s: Seq<char>)
    ensures
        trim_spec(s).len() <= 15,
{
    reveal_strlit("...");
}

/// How trimming renders an identifier: one longer than 15 characters
/// becomes exactly its first 12 characters followed by `"..."`, 15
/// characters in all; one of 15 characters or fewer is unchanged.
pub proof fn lemma_trim_cases(s: Seq<char>)
    ensures
        s.len() > 15 ==> trim_spec(s) == s.take(12) + "..."@ && trim_spec(s).len() == 15,
        s.len() <= 15 ==> trim_spec(s) == s,
{
    reveal_strlit("...");
}

/// A rendered score pair is digits and a slash: no escape character.
pub proof fn lemma_pair_no_esc(score: nat, total: nat)
    ensures
        no_esc(pair_spec(score, total)),
{
    lemma_dec_no_esc(score);
    lemma_dec_no_esc(total);
    reveal_strlit("/");
    assert forall|i: int| 0 <= i < pair_spec(score, total).len() implies pair_spec(score, total)[i]
        != '\u{1b}' by {
        let s = dec_spec(score);
        let m = "/"@;
        let t = dec_spec(total);
        if i < s.len() {
            assert(pair_spec(score, total)[i] == s[i]);
        } else if i < s.len() + m.len() {
            assert(pair_spec(score, total)[i] == m[i - s.len()]);
        } else {
            assert(pair_spec(score, total)[i] == t[i - s.len() - m.len()]);
        }
    }
}

/// The one-character string for the digit `d`.
fn digit_str(d: u64) -> (r: &'static str)
    requires
        d <= 9,
    ensures
        r@ == seq![digit(d as int)],
{
    proof {
        reveal_strlit("0");
        reveal_strlit("1");
        reveal_strlit("2");
        reveal_strlit("3");
        reveal_strlit("4");
        reveal_strlit("5");
        reveal_strlit("6");
        reveal_strlit("7");
        reveal_strlit("8");
        reveal_strlit("9");
    }
    if d == 0 {
        "0"
    } else if d == 1 {
        "1"
    } else if d == 2 {
        "2"
    } else if d == 3 {
        "3"
    } else if d == 4 {
        "4"
    } else if d == 5 {
        "5"
    } else if d == 6 {
        "6"
    } else if d == 7 {
        "7"
    } else if d == 8 {
        "8"
    } else {
        "9"
    }
}

/// Renders `n` in decimal.
pub fn dec_string(n: u64) -> (r: String)
    ensures
        r@ == dec_spec(n as nat),
    decreases n,
{
    if n <= 9 {
        String::from_str(digit_str(n))
    } else {
        let mut s = dec_string(n / 10);
        s.append(digit_str(n % 10));
        s
    }
}

/// `c` repeated `n` times, for `c` given as a one-character string.
fn rep_str(piece: &str, c: Ghost<char>, n: usize) -> (r: String)
    requires
        piece@ == seq![c@],
    ensures
        r@ == rep(c@, n as nat),
{
    let mut out = String::new();
    let mut i: usize = 0;
    while i < n
        invariant
            piece@ == seq![c@],
            i <= n,
            out@ == rep(c@, i as nat),
        decreases n - i,
    {
        out.append(piece);
        i = i + 1;
        proof {
            assert(out@ =~= rep(c@, i as nat));
        }
    }
    out
}

/// `n` spaces.
pub fn spaces_str(n: usize) -> (r: String)
    ensures
        r@ == rep(' ', n as nat),
{
    proof {
        reveal_strlit(" ");
        assert(" "@ =~= seq![' ']);
    }
    rep_str(" ", Ghost(' '), n)
}

/// `n` dashes.
pub fn dashes_str(n: usize) -> (r: String)
    ensures
        r@ == rep('-', n as nat),
{
    proof {
        reveal_strlit("-");
        assert("-"@ =~= seq!['-']);
    }
    rep_str("-", Ghost('-'), n)
}

/// `s` right-aligned in a field of `w` characters.
pub fn pad_left_str(s: &str, w: usize) -> (r: String)
    ensures
        r@ == pad_left_spec(s@, w as nat),
{
    let n: usize = s.unicode_len();
    if n >= w {
        s.to_owned()
    } else {
        let mut out = spaces_str(w - n);
        out.append(s);
        out
    }
}

/// Renders `score` against `total` as `"<score>/<total>"`.
pub fn score_pair(score: u64, total: u64) -> (r: String)
    ensures
        r@ == pair_spec(score as nat, total as nat),
{
    let mut s = dec_string(score);
    s.append("/");
    let t = dec_string(total);
    s.append(t.as_str());
    s
}

/// An identifier as the table shows it: unchanged when it fits in
/// `MAX_ID_SIZE` characters, else cut to 12 characters plus `"..."`.
pub fn trim_id(id: &str) -> (r: String)
    ensures
        r@ == trim_spec(id@),
{
    let n: usize = id.unicode_len();
    if n > MAX_ID_SIZE {
        let mut s = String::from_str(id.substring_char(0, MAX_ID_SIZE - 3));
        s.append("...");
        proof {
            assert(id@.subrange(0, 12) =~= id@.take(12));
        }
        s
    } else {
        id.to_owned()
    }
}

} // verus!
