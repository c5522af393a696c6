//! The report layouts: an aligned multi-user table and a per-user listing.
//!
//! Everything here computes strings; nothing prints. The `*_lines`
//! functions give the uncoloured text of every output line exactly. The
//! `*_pieces` functions give the same layout cut into pieces, score pairs
//! coloured, so that a binary can write them out one after the other.

use vstd::prelude::*;
use vstd::string::*;
use crate::color::{classify_spec, painted_ok, score_str};
use crate::error::Error;
use crate::model::{sum_max, sum_scores, Person, Task};
use crate::text::{pad_left_spec, pair_spec, rep, score_pair, trim_id, trim_spec, pad_left_str};

verus! {

/// One table cell: a space, the text right-aligned to 15 characters, a
/// space and the column separator.
pub open spec fn framed(t: Seq<char>) -> Seq<char> {
    seq![' '] + pad_left_spec(t, 15) + seq![' ', '|']
}

/// One column's worth of separator row: 17 dashes and the separator.
pub open spec fn sep_piece() -> Seq<char> {
    rep('-', 17) + seq!['|']
}

/// The framed cells of `texts`, joined in order.
pub open spec fn framed_join(texts: Seq<Seq<char>>) -> Seq<char>
    decreases texts.len(),
{
    if texts.len() == 0 {
        Seq::empty()
    } else {
        framed_join(texts.drop_last()) + framed(texts.last())
    }
}

/// A separator line across `count` columns.
pub open spec fn sep_line_spec(count: nat) -> Seq<char>
    decreases count,
{
    if count == 0 {
        Seq::empty()
    } else {
        sep_line_spec((count - 1) as nat) + sep_piece()
    }
}

/// Header row texts: an empty label cell, then each username trimmed.
pub open spec fn usernames_texts(people: Seq<Person>) -> Seq<Seq<char>> {
    Seq::new(
        people.len() + 1,
        |j: int|
            if j == 0 {
                Seq::empty()
            } else {
                trim_spec(people[j - 1].username@)
            },
    )
}

/// Totals row texts: the label, then each person's summed pair.
pub open spec fn totals_texts(people: Seq<Person>) -> Seq<Seq<char>> {
    Seq::new(
        people.len() + 1,
        |j: int|
            if j == 0 {
                "Total"@
            } else {
                pair_spec(
                    sum_scores(people[j - 1].tasks@) as nat,
                    sum_max(people[j - 1].tasks@) as nat,
                )
            },
    )
}

/// Texts of the row for task index `i`: the first person's task name
/// trimmed, then each person's pair at that index.
pub open spec fn task_texts(people: Seq<Person>, i: int) -> Seq<Seq<char>> {
    Seq::new(
        people.len() + 1,
        |j: int|
            if j == 0 {
                trim_spec(people[0].tasks@[i].name@)
            } else {
                pair_spec(
                    people[j - 1].tasks@[i].score as nat,
                    people[j - 1].tasks@[i].max_score as nat,
                )
            },
    )
}

/// The whole table, line by line: header, separator, totals, separator,
/// then one row per task index.
pub open spec fn table_lines_spec(people: Seq<Person>) -> Seq<Seq<char>> {
    Seq::new(
        4 + people[0].tasks@.len(),
        |i: int|
            if i == 0 {
                framed_join(usernames_texts(people))
            } else if i == 1 || i == 3 {
                sep_line_spec(people.len() + 1)
            } else if i == 2 {
                framed_join(totals_texts(people))
            } else {
                framed_join(task_texts(people, i - 4))
            },
    )
}

/// The table indexes tasks positionally, so every person must hold as many
/// tasks as the first.
pub open spec fn aligned(people: Seq<Person>) -> bool {
    forall|j: int|
        0 <= j < people.len() ==> (#[trigger] people[j].tasks@.len()) == people[0].tasks@.len()
}

/// Every person's task list is short enough for 64-bit totalling.
pub open spec fn task_budget(people: Seq<Person>) -> bool {
    forall|j: int| 0 <= j < people.len() ==> (#[trigger] people[j].tasks@.len()) <= 0xFFFF_FFFF
}

/// The padding a coloured cell puts before its pair, so that the pair's
/// own text stays right-aligned to 15 characters.
pub open spec fn pad_width(t: Seq<char>) -> nat {
    if t.len() >= 15 {
        0
    } else {
        (15 - t.len()) as nat
    }
}

/// A coloured score cell: the frame of [`framed`] with the pair itself
/// coloured by its classification.
pub open spec fn colored_cell_ok(actual: Seq<char>, score: nat, total: nat) -> bool {
    exists|p: Seq<char>|
        painted_ok(p, pair_spec(score, total), classify_spec(score as int, total as int))
            && actual == seq![' '] + rep(' ', pad_width(pair_spec(score, total))) + p
            + seq![' ', '|']
}

proof fn lemma_join_step(texts: Seq<Seq<char>>, k: int)
    requires
        0 <= k < texts.len(),
    ensures
        framed_join(texts.take(k + 1)) == framed_join(texts.take(k)) + framed(texts[k]),
{
    assert(texts.take(k + 1).drop_last() =~= texts.take(k));
    assert(texts.take(k + 1).last() == texts[k]);
}

/// One plain framed cell.
fn framed_cell(text: &str) -> (r: String)
    ensures
        r@ == framed(text@),
{
    proof {
        reveal_strlit(" ");
        reveal_strlit(" |");
        assert(" "@ =~= seq![' ']);
        assert(" |"@ =~= seq![' ', '|']);
    }
    let mut s = String::from_str(" ");
    let p = pad_left_str(text, 15);
    s.append(p.as_str());
    s.append(" |");
    s
}

/// One column's worth of separator row.
fn sep_piece_str() -> (r: String)
    ensures
        r@ == sep_piece(),
{
    proof {
        reveal_strlit("|");
        assert("|"@ =~= seq!['|']);
    }
    let mut s = crate::text::dashes_str(17);
    s.append("|");
    s
}

/// A separator line across `count` columns.
fn sep_line(count: usize) -> (r: String)
    ensures
        r@ == sep_line_spec(count as nat),
{
    let mut out = String::new();
    proof {
        assert(out@ =~= sep_line_spec(0));
    }
    let mut i: usize = 0;
    while i < count
        invariant
            i <= count,
            out@ == sep_line_spec(i as nat),
        decreases count - i,
    {
        let p = sep_piece_str();
        out.append(p.as_str());
        i = i + 1;
    }
    out
}

/// One coloured score cell, framed as [`colored_cell_ok`] says.
fn colored_score_cell(score: u64, total: u64) -> (r: String)
    ensures
        colored_cell_ok(r@, score as nat, total as nat),
{
    proof {
        reveal_strlit(" ");
        reveal_strlit(" |");
        assert(" "@ =~= seq![' ']);
        assert(" |"@ =~= seq![' ', '|']);
    }
    let plain = score_pair(score, total);
    let w: usize = plain.as_str().unicode_len();
    let painted = score_str(score, total);
    let mut s = String::from_str(" ");
    let sp = crate::text::spaces_str(if w >= 15 { 0 } else { 15 - w });
    s.append(sp.as_str());
    s.append(painted.as_str());
    s.append(" |");
    proof {
        assert(sp@ == rep(' ', pad_width(pair_spec(score as nat, total as nat))));
        assert(s@ == seq![' '] + rep(' ', pad_width(pair_spec(score as nat, total as nat)))
            + painted@ + seq![' ', '|']);
        assert(colored_cell_ok(s@, score as nat, total as nat));
    }
    s
}

/// The table as the tool prints it, uncoloured, one string per line:
/// usernames, separator, totals, separator, one row per task index. The
/// first person's task names label the rows; positional alignment across
/// the people is checked, not assumed.
pub fn table_lines(people: &Vec<Person>) -> (r: Result<Vec<String>, Error>)
    requires
        people@.len() > 0,
        people@.len() + 1 <= usize::MAX,
        task_budget(people@),
    ensures
        aligned(people@) ==> (r matches Ok(lines) && lines@.len() == 4 + people@[0].tasks@.len()
            && (forall|i: int|
            0 <= i < lines@.len() ==> lines@[i]@ == table_lines_spec(people@)[i])),
        !aligned(people@) ==> (r matches Err(e) && e matches Error::TaskMismatch),
{
    let n: usize = people.len();
    let t0: usize = people[0].tasks.len();
    let mut j: usize = 1;
    while j < n
        invariant
            1 <= j <= n,
            n == people@.len(),
            t0 == people@[0].tasks@.len(),
            forall|k: int| 0 <= k < j ==> (#[trigger] people@[k].tasks@.len()) == t0,
        decreases n - j,
    {
        if people[j].tasks.len() != t0 {
            return Err(Error::TaskMismatch);
        }
        j = j + 1;
    }
    assert(aligned(people@));

    let mut lines: Vec<String> = Vec::new();

    // header row: an empty label cell, then the trimmed usernames
    let ghost utexts = usernames_texts(people@);
    let mut line = framed_cell("");
    proof {
        reveal_strlit("");
        assert(""@ =~= Seq::<char>::empty());
        assert(utexts.take(0) =~= Seq::<Seq<char>>::empty());
        lemma_join_step(utexts, 0);
        assert(framed_join(utexts.take(0)) + framed(utexts[0]) =~= framed(utexts[0]));
        assert(line@ == framed_join(utexts.take(1)));
    }
    let mut j: usize = 0;
    while j < n
        invariant
            j <= n,
            n == people@.len(),
            utexts == usernames_texts(people@),
            line@ == framed_join(utexts.take(j as int + 1)),
        decreases n - j,
    {
        let t = trim_id(people[j].username.as_str());
        let c = framed_cell(t.as_str());
        line.append(c.as_str());
        proof {
            lemma_join_step(utexts, j as int + 1);
        }
        j = j + 1;
    }
    proof {
        assert(utexts.take(n as int + 1) =~= utexts);
    }
    lines.push(line);
    lines.push(sep_line(n + 1));

    // totals row: the label, then each person's summed pair
    let ghost ttexts = totals_texts(people@);
    let mut line = framed_cell("Total");
    proof {
        assert(ttexts.take(0) =~= Seq::<Seq<char>>::empty());
        lemma_join_step(ttexts, 0);
        assert(framed_join(ttexts.take(0)) + framed(ttexts[0]) =~= framed(ttexts[0]));
        assert(line@ == framed_join(ttexts.take(1)));
    }
    let mut j: usize = 0;
    while j < n
        invariant
            j <= n,
            n == people@.len(),
            task_budget(people@),
            ttexts == totals_texts(people@),
            line@ == framed_join(ttexts.take(j as int + 1)),
        decreases n - j,
    {
        assert(people@[j as int].tasks@.len() <= 0xFFFF_FFFF);
        let totals = people[j].totals();
        let pair = score_pair(totals.0, totals.1);
        let c = framed_cell(pair.as_str());
        line.append(c.as_str());
        proof {
            lemma_join_step(ttexts, j as int + 1);
        }
        j = j + 1;
    }
    proof {
        assert(ttexts.take(n as int + 1) =~= ttexts);
    }
    lines.push(line);
    lines.push(sep_line(n + 1));

    // one row per task index: the first person's task name, then the pairs
    let mut i: usize = 0;
    while i < t0
        invariant
            i <= t0,
            n == people@.len(),
            n > 0,
            t0 == people@[0].tasks@.len(),
            aligned(people@),
            lines@.len() == 4 + i,
            forall|k: int| 0 <= k < 4 + i ==> lines@[k]@ == table_lines_spec(people@)[k],
        decreases t0 - i,
    {
        let ghost rtexts = task_texts(people@, i as int);
        let label = trim_id(people[0].tasks[i].name.as_str());
        let mut line = framed_cell(label.as_str());
        proof {
            assert(rtexts.take(0) =~= Seq::<Seq<char>>::empty());
            lemma_join_step(rtexts, 0);
            assert(framed_join(rtexts.take(0)) + framed(rtexts[0]) =~= framed(rtexts[0]));
            assert(line@ == framed_join(rtexts.take(1)));
        }
        let mut j: usize = 0;
        while j < n
            invariant
                j <= n,
                i < t0,
                n == people@.len(),
                t0 == people@[0].tasks@.len(),
                aligned(people@),
                rtexts == task_texts(people@, i as int),
                line@ == framed_join(rtexts.take(j as int + 1)),
            decreases n - j,
        {
            assert(people@[j as int].tasks@.len() == t0);
            let task_score = people[j].tasks[i].score;
            let task_max = people[j].tasks[i].max_score;
            let pair = score_pair(task_score as u64, task_max as u64);
            let c = framed_cell(pair.as_str());
            line.append(c.as_str());
            proof {
                lemma_join_step(rtexts, j as int + 1);
            }
            j = j + 1;
        }
        proof {
            assert(rtexts.take(n as int + 1) =~= rtexts);
        }
        lines.push(line);
        i = i + 1;
    }
    Ok(lines)
}

/// A separator row across `count` columns, piece by piece.
fn sep_row_pieces(count: usize) -> (r: Vec<String>)
    ensures
        r@.len() == count,
        forall|k: int| 0 <= k < count ==> (#[trigger] r@[k]@) == sep_piece(),
{
    let mut row: Vec<String> = Vec::new();
    let mut j: usize = 0;
    while j < count
        invariant
            j <= count,
            row@.len() == j,
            forall|k: int| 0 <= k < j ==> (#[trigger] row@[k]@) == sep_piece(),
        decreases count - j,
    {
        row.push(sep_piece_str());
        j = j + 1;
    }
    row
}

/// The table cut into printable pieces, in print order within each row:
/// the same layout as [`table_lines`], but every score pair coloured by
/// its classification. A binary writes the pieces of a row one after the
/// other and then a newline.
pub fn table_pieces(people: &Vec<Person>) -> (r: Result<Vec<Vec<String>>, Error>)
    requires
        people@.len() > 0,
        people@.len() + 1 <= usize::MAX,
        task_budget(people@),
    ensures
        aligned(people@) ==> (r matches Ok(rows) && rows@.len() == 4 + people@[0].tasks@.len() && (
        forall|i: int| 0 <= i < rows@.len() ==> (#[trigger] rows@[i]@).len() == people@.len() + 1)
            && rows@[0]@[0]@ == framed(Seq::<char>::empty()) && (forall|j: int|
            0 <= j < people@.len() ==> (#[trigger] rows@[0]@[j + 1]@) == framed(
                trim_spec(people@[j].username@),
            )) && (forall|j: int|
            0 <= j <= people@.len() ==> (#[trigger] rows@[1]@[j]@) == sep_piece()) && (forall|
            j: int,
        |
            0 <= j <= people@.len() ==> (#[trigger] rows@[3]@[j]@) == sep_piece())
            && rows@[2]@[0]@ == framed("Total"@) && (forall|j: int|
            0 <= j < people@.len() ==> colored_cell_ok(
                #[trigger] rows@[2]@[j + 1]@,
                sum_scores(people@[j].tasks@) as nat,
                sum_max(people@[j].tasks@) as nat,
            )) && (forall|i: int|
            0 <= i < people@[0].tasks@.len() ==> (#[trigger] rows@[i + 4]@[0]@) == framed(
                trim_spec(people@[0].tasks@[i].name@),
            )) && (forall|i: int, j: int|
            0 <= i < people@[0].tasks@.len() && 0 <= j < people@.len() ==> colored_cell_ok(
                #[trigger] rows@[i + 4]@[j + 1]@,
                people@[j].tasks@[i].score as nat,
                people@[j].tasks@[i].max_score as nat,
            ))),
        !aligned(people@) ==> (r matches Err(e) && e matches Error::TaskMismatch),
{
    let n: usize = people.len();
    let t0: usize = people[0].tasks.len();
    let mut j: usize = 1;
    while j < n
        invariant
            1 <= j <= n,
            n == people@.len(),
            t0 == people@[0].tasks@.len(),
            forall|k: int| 0 <= k < j ==> (#[trigger] people@[k].tasks@.len()) == t0,
        decreases n - j,
    {
        if people[j].tasks.len() != t0 {
            return Err(Error::TaskMismatch);
        }
        j = j + 1;
    }
    assert(aligned(people@));

    let mut rows: Vec<Vec<String>> = Vec::new();

    // header row
    let mut row: Vec<String> = Vec::new();
    let c0 = framed_cell("");
    proof {
        reveal_strlit("");
        assert(""@ =~= Seq::<char>::empty());
    }
    row.push(c0);
    let mut j: usize = 0;
    while j < n
        invariant
            j <= n,
            n == people@.len(),
            row@.len() == j + 1,
            row@[0]@ == framed(Seq::<char>::empty()),
            forall|k: int|
                0 <= k < j ==> (#[trigger] row@[k + 1]@) == framed(
                    trim_spec(people@[k].username@),
                ),
        decreases n - j,
    {
        let t = trim_id(people[j].username.as_str());
        row.push(framed_cell(t.as_str()));
        j = j + 1;
    }
    rows.push(row);

    // separator row
    rows.push(sep_row_pieces(n + 1));

    // totals row
    let mut row: Vec<String> = Vec::new();
    row.push(framed_cell("Total"));
    let mut j: usize = 0;
    while j < n
        invariant
            j <= n,
            n == people@.len(),
            task_budget(people@),
            row@.len() == j + 1,
            row@[0]@ == framed("Total"@),
            forall|k: int|
                0 <= k < j ==> colored_cell_ok(
                    #[trigger] row@[k + 1]@,
                    sum_scores(people@[k].tasks@) as nat,
                    sum_max(people@[k].tasks@) as nat,
                ),
        decreases n - j,
    {
        assert(people@[j as int].tasks@.len() <= 0xFFFF_FFFF);
        let totals = people[j].totals();
        row.push(colored_score_cell(totals.0, totals.1));
        j = j + 1;
    }
    rows.push(row);
    rows.push(sep_row_pieces(n + 1));

    // one row per task index
    let mut i: usize = 0;
    while i < t0
        invariant
            i <= t0,
            n == people@.len(),
            n > 0,
            t0 == people@[0].tasks@.len(),
            aligned(people@),
            rows@.len() == 4 + i,
            forall|k: int| 0 <= k < 4 + i ==> (#[trigger] rows@[k]@).len() == n + 1,
            rows@[0]@[0]@ == framed(Seq::<char>::empty()),
            forall|k: int|
                0 <= k < n ==> (#[trigger] rows@[0]@[k + 1]@) == framed(
                    trim_spec(people@[k].username@),
                ),
            forall|k: int| 0 <= k <= n ==> (#[trigger] rows@[1]@[k]@) == sep_piece(),
            forall|k: int| 0 <= k <= n ==> (#[trigger] rows@[3]@[k]@) == sep_piece(),
            rows@[2]@[0]@ == framed("Total"@),
            forall|k: int|
                0 <= k < n ==> colored_cell_ok(
                    #[trigger] rows@[2]@[k + 1]@,
                    sum_scores(people@[k].tasks@) as nat,
                    sum_max(people@[k].tasks@) as nat,
                ),
            forall|k: int|
                0 <= k < i ==> (#[trigger] rows@[k + 4]@[0]@) == framed(
                    trim_spec(people@[0].tasks@[k].name@),
                ),
            forall|k: int, j2: int|
                0 <= k < i && 0 <= j2 < n ==> colored_cell_ok(
                    #[trigger] rows@[k + 4]@[j2 + 1]@,
                    people@[j2].tasks@[k].score as nat,
                    people@[j2].tasks@[k].max_score as nat,
                ),
        decreases t0 - i,
    {
        let label = trim_id(people[0].tasks[i].name.as_str());
        let mut row: Vec<String> = Vec::new();
        row.push(framed_cell(label.as_str()));
        let mut j: usize = 0;
        while j < n
            invariant
                j <= n,
                i < t0,
                n == people@.len(),
                t0 == people@[0].tasks@.len(),
                aligned(people@),
                row@.len() == j + 1,
                row@[0]@ == framed(trim_spec(people@[0].tasks@[i as int].name@)),
                forall|k: int|
                    0 <= k < j ==> colored_cell_ok(
                        #[trigger] row@[k + 1]@,
                        people@[k].tasks@[i as int].score as nat,
                        people@[k].tasks@[i as int].max_score as nat,
                    ),
            decreases n - j,
        {
            assert(people@[j as int].tasks@.len() == t0);
            let task_score = people[j].tasks[i].score;
            let task_max = people[j].tasks[i].max_score;
            row.push(colored_score_cell(task_score as u64, task_max as u64));
            j = j + 1;
        }
        rows.push(row);
        i = i + 1;
    }
    Ok(rows)
}

/// The header of a per-user listing: the username and the summed pair.
pub open spec fn person_header_spec(p: Person) -> Seq<char> {
    p.username@ + ": "@ + pair_spec(sum_scores(p.tasks@) as nat, sum_max(p.tasks@) as nat)
}

/// One task of a per-user listing: the name right-aligned to 12
/// characters, then the task's pair.
pub open spec fn person_task_line_spec(t: Task) -> Seq<char> {
    pad_left_spec(t.name@, 12) + ": "@ + pair_spec(t.score as nat, t.max_score as nat)
}

/// The whole per-user listing, line by line.
pub open spec fn person_lines_spec(p: Person) -> Seq<Seq<char>> {
    Seq::new(
        1 + p.tasks@.len(),
        |i: int|
            if i == 0 {
                person_header_spec(p)
            } else {
                person_task_line_spec(p.tasks@[i - 1])
            },
    )
}

/// The per-user listing for `p`, uncoloured, one string per line: the
/// header with the summed pair, then one line per task in input order.
pub fn person_lines(p: &Person) -> (r: Vec<String>)
    requires
        p.tasks@.len() <= 0xFFFF_FFFF,
    ensures
        r@.len() == 1 + p.tasks@.len(),
        forall|i: int| 0 <= i < r@.len() ==> (#[trigger] r@[i]@) == person_lines_spec(*p)[i],
{
    let totals = p.totals();
    let mut line = p.username.clone();
    line.append(": ");
    let pair = score_pair(totals.0, totals.1);
    line.append(pair.as_str());
    let mut out: Vec<String> = Vec::new();
    out.push(line);
    let mut i: usize = 0;
    while i < p.tasks.len()
        invariant
            i <= p.tasks@.len(),
            out@.len() == 1 + i,
            out@[0]@ == person_header_spec(*p),
            forall|k: int|
                0 <= k < i ==> (#[trigger] out@[k + 1]@) == person_task_line_spec(p.tasks@[k]),
        decreases p.tasks@.len() - i,
    {
        let t = &p.tasks[i];
        let mut line = pad_left_str(t.name.as_str(), 12);
        line.append(": ");
        let pair = score_pair(t.score as u64, t.max_score as u64);
        line.append(pair.as_str());
        out.push(line);
        i = i + 1;
    }
    proof {
        assert forall|k: int| 0 <= k < out@.len() implies out@[k]@ == person_lines_spec(*p)[k] by {
            if k > 0 {
                assert(out@[(k - 1) + 1]@ == person_task_line_spec(p.tasks@[k - 1]));
            }
        }
    }
    out
}

/// The per-user listing cut into printable pieces: each line is the plain
/// prefix followed by the coloured pair.
pub fn person_pieces(p: &Person) -> (r: Vec<Vec<String>>)
    requires
        p.tasks@.len() <= 0xFFFF_FFFF,
    ensures
        r@.len() == 1 + p.tasks@.len(),
        forall|i: int| 0 <= i < r@.len() ==> (#[trigger] r@[i]@).len() == 2,
        r@[0]@[0]@ == p.username@ + ": "@,
        painted_ok(
            r@[0]@[1]@,
            pair_spec(sum_scores(p.tasks@) as nat, sum_max(p.tasks@) as nat),
            classify_spec(sum_scores(p.tasks@), sum_max(p.tasks@)),
        ),
        forall|i: int|
            0 <= i < p.tasks@.len() ==> (#[trigger] r@[i + 1]@[0]@) == pad_left_spec(
                p.tasks@[i].name@,
                12,
            ) + ": "@,
        forall|i: int|
            0 <= i < p.tasks@.len() ==> painted_ok(
                #[trigger] r@[i + 1]@[1]@,
                pair_spec(p.tasks@[i].score as nat, p.tasks@[i].max_score as nat),
                classify_spec(p.tasks@[i].score as int, p.tasks@[i].max_score as int),
            ),
{
    let totals = p.totals();
    let mut prefix = p.username.clone();
    prefix.append(": ");
    let mut head: Vec<String> = Vec::new();
    head.push(prefix);
    head.push(score_str(totals.0, totals.1));
    let mut out: Vec<Vec<String>> = Vec::new();
    out.push(head);
    let mut i: usize = 0;
    while i < p.tasks.len()
        invariant
            i <= p.tasks@.len(),
            out@.len() == 1 + i,
            out@[0]@.len() == 2,
            out@[0]@[0]@ == p.username@ + ": "@,
            painted_ok(
                out@[0]@[1]@,
                pair_spec(sum_scores(p.tasks@) as nat, sum_max(p.tasks@) as nat),
                classify_spec(sum_scores(p.tasks@), sum_max(p.tasks@)),
            ),
            forall|k: int| 0 <= k < i + 1 ==> (#[trigger] out@[k]@).len() == 2,
            forall|k: int|
                0 <= k < i ==> (#[trigger] out@[k + 1]@[0]@) == pad_left_spec(
                    p.tasks@[k].name@,
                    12,
                ) + ": "@,
            forall|k: int|
                0 <= k < i ==> painted_ok(
                    #[trigger] out@[k + 1]@[1]@,
                    pair_spec(p.tasks@[k].score as nat, p.tasks@[k].max_score as nat),
                    classify_spec(p.tasks@[k].score as int, p.tasks@[k].max_score as int),
                ),
        decreases p.tasks@.len() - i,
    {
        let t = &p.tasks[i];
        let mut prefix = pad_left_str(t.name.as_str(), 12);
        prefix.append(": ");
        let mut cell: Vec<String> = Vec::new();
        cell.push(prefix);
        cell.push(score_str(t.score as u64, t.max_score as u64));
        out.push(cell);
        i = i + 1;
    }
    out
}

} // verus!
