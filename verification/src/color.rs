//! Colour classification of a score against its maximum, and the terminal
//! colouring of rendered score pairs.

use vstd::prelude::*;
use colored::Colorize;
use crate::text::{no_esc, pair_spec, lemma_pair_no_esc, score_pair};

verus! {

/// How a score relates to its maximum; every printed pair carries one of
/// these, rendered as red, green or yellow.
#[derive(Clone, Copy, Debug, PartialEq, Eq, Structural)]
pub enum ScoreColor {
    /// Nothing of a positive maximum was attained.
    Failure,
    /// The maximum was attained; a zero maximum counts as attained.
    Success,
    /// Something, but not everything, was attained.
    Partial,
}

/// Classification is a pure function of the pair: `(0, t)` with `t > 0` is
/// a failure, `(t, t)` — `(0, 0)` included — a success, anything else
/// partial.
pub open spec fn classify_spec(score: int, total: int) -> ScoreColor {
    if score == 0 && total > 0 {
        ScoreColor::Failure
    } else if score == total {
        ScoreColor::Success
    } else {
        ScoreColor::Partial
    }
}

/// Decides the colour of a rendered `score`/`total` pair.
pub fn classify(score: u64, total: u64) -> (c: ScoreColor)
    ensures
        c == classify_spec(score as int, total as int),
{
    if score == 0 && total > 0 {
        ScoreColor::Failure
    } else if score == total {
        ScoreColor::Success
    } else {
        ScoreColor::Partial
    }
}

/// Classification case by case: a zero score against a positive maximum
/// is a failure; a score equal to its maximum — the pair `(0, 0)`
/// included — a success; a score strictly between zero and the maximum
/// partial.
pub proof fn lemma_classify_cases(score: int, total: int)
    ensures
        score == 0 && total > 0 ==> classify_spec(score, total) == ScoreColor::Failure,
        score == total ==> classify_spec(score, total) == ScoreColor::Success,
        0 < score < total ==> classify_spec(score, total) == ScoreColor::Partial,
{
}

/// The ANSI sequence that opens text of this colour.
pub open spec fn style_code(c: ScoreColor) -> Seq<char> {
    match c {
        ScoreColor::Failure => "\u{1b}[31m"@,
        ScoreColor::Success => "\u{1b}[32m"@,
        ScoreColor::Partial => "\u{1b}[33m"@,
    }
}

/// The ANSI sequence that closes coloured text.
pub open spec fn reset_code() -> Seq<char> {
    "\u{1b}[0m"@
}

/// What colouring `plain` in colour `c` may yield: the text alone when the
/// terminal takes no colour, else the text between the colour's ANSI
/// sequences.
pub open spec fn painted_ok(actual: Seq<char>, plain: Seq<char>, c: ScoreColor) -> bool {
    actual == plain || actual == style_code(c) + plain + reset_code()
}

/// Relies on colored's `Colorize::red` and `ColoredString`'s `Display`:
/// with colours suppressed the text alone comes back, else
/// `"\u{1b}[31m"`, the text, `"\u{1b}[0m"`. Escape-free input is passed
/// through unaltered in either case.
#[verifier::external_body]
fn paint_red(s: &str) -> (r: String)
    requires
        no_esc(s@),
    ensures
        painted_ok(r@, s@, ScoreColor::Failure),
{
    s.red().to_string()
}

/// Relies on colored's `Colorize::green` and `ColoredString`'s `Display`:
/// with colours suppressed the text alone comes back, else
/// `"\u{1b}[32m"`, the text, `"\u{1b}[0m"`.
#[verifier::external_body]
fn paint_green(s: &str) -> (r: String)
    requires
        no_esc(s@),
    ensures
        painted_ok(r@, s@, ScoreColor::Success),
{
    s.green().to_string()
}

/// Relies on colored's `Colorize::yellow` and `ColoredString`'s `Display`:
/// with colours suppressed the text alone comes back, else
/// `"\u{1b}[33m"`, the text, `"\u{1b}[0m"`.
#[verifier::external_body]
fn paint_yellow(s: &str) -> (r: String)
    requires
        no_esc(s@),
    ensures
        painted_ok(r@, s@, ScoreColor::Partial),
{
    s.yellow().to_string()
}

/// Colours an escape-free text in colour `c`.
pub fn paint(s: &str, c: ScoreColor) -> (r: String)
    requires
        no_esc(s@),
    ensures
        painted_ok(r@, s@, c),
{
    match c {
        ScoreColor::Failure => paint_red(s),
        ScoreColor::Success => paint_green(s),
        ScoreColor::Partial => paint_yellow(s),
    }
}

/// The rendered pair `"<score>/<total>"`, coloured by its classification.
pub fn score_str(score: u64, total: u64) -> (r: String)
    ensures
        painted_ok(
            r@,
            pair_spec(score as nat, total as nat),
            classify_spec(score as int, total as int),
        ),
{
    proof {
        lemma_pair_no_esc(score as nat, total as nat);
    }
    let text = score_pair(score, total);
    let c = classify(score, total);
    paint(text.as_str(), c)
}

} // verus!
