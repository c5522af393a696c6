//! The data the tool works on: tasks and the people that hold them, with
//! verified score totalling.

use vstd::prelude::*;

verus! {

/// One graded assignment: an attained score against an attainable maximum.
/// Scores are whole points; `score` may exceed `max_score` (bonus points),
/// the classification then counts the task as partial.
pub struct Task {
    /// Display label; the report shows the short `name` instead.
    pub title: String,
    /// Short identifier shown in the report.
    pub name: String,
    /// Points attained.
    pub score: u32,
    /// Points attainable.
    pub max_score: u32,
}

/// A username with its ordered task records, as one fetch returned them.
pub struct Person {
    pub username: String,
    pub tasks: Vec<Task>,
}

/// Sum of the attained scores of `tasks`, in input order.
pub open spec fn sum_scores(tasks: Seq<Task>) -> int
    decreases tasks.len(),
{
    if tasks.len() == 0 {
        0
    } else {
        sum_scores(tasks.drop_last()) + tasks.last().score
    }
}

/// Sum of the attainable maxima of `tasks`, in input order.
pub open spec fn sum_max(tasks: Seq<Task>) -> int
    decreases tasks.len(),
{
    if tasks.len() == 0 {
        0
    } else {
        sum_max(tasks.drop_last()) + tasks.last().max_score
    }
}

/// Each score fits in 32 bits, so a list's sums grow at most linearly with
/// its length; totalling in 64 bits therefore cannot overflow.
pub proof fn lemma_sum_bounds(tasks: Seq<Task>)
    ensures
        0 <= sum_scores(tasks) <= tasks.len() * 0xFFFF_FFFF,
        0 <= sum_max(tasks) <= tasks.len() * 0xFFFF_FFFF,
    decreases tasks.len(),
{
    if tasks.len() > 0 {
        lemma_sum_bounds(tasks.drop_last());
    }
}

impl Person {
    /// The aggregate pair the report prints for this person: the sums of
    /// the individual scores and maxima, taken in input order.
    pub fn totals(&self) -> (r: (u64, u64))
        requires
            self.tasks@.len() <= 0xFFFF_FFFF,
        ensures
            r.0 == sum_scores(self.tasks@),
            r.1 == sum_max(self.tasks@),
    {
        let mut score: u64 = 0;
        let mut total: u64 = 0;
        let n: usize = self.tasks.len();
        let mut i: usize = 0;
        while i < n
            invariant
                i <= n,
                n == self.tasks@.len(),
                n <= 0xFFFF_FFFF,
                score == sum_scores(self.tasks@.take(i as int)),
                total == sum_max(self.tasks@.take(i as int)),
            decreases n - i,
        {
            proof {
                lemma_sum_bounds(self.tasks@.take(i as int));
                assert(self.tasks@.take(i as int + 1).drop_last() =~= self.tasks@.take(i as int));
                assert(self.tasks@.take(i as int + 1).last() == self.tasks@[i as int]);
            }
            score = score + self.tasks[i].score as u64;
            total = total + self.tasks[i].max_score as u64;
            i = i + 1;
        }
        proof {
            assert(self.tasks@.take(n as int) =~= self.tasks@);
        }
        (score, total)
    }
}

} // verus!
