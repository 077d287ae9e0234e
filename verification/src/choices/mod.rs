use vstd::prelude::*;

mod batch_choice;
pub use batch_choice::{BatchChoice, BatchChoices};
mod moves;
pub use moves::{Move, MOVE_COUNT, MOVE_OUTCOMES};
mod boosters;
pub use boosters::Booster;
mod characters;
pub use characters::{Character, CHARACTER_COUNT, CHARACTER_HEADSTARTS};
mod arsenal_item;
pub use arsenal_item::ArsenalItem;
mod action;
pub use action::Action;
mod dequeue_choice;
pub use dequeue_choice::DequeueChoice;

verus! {

/// Sum of a sequence of numbers.
pub open spec fn sum(numbers: Seq<int>) -> int
    decreases numbers.len(),
{
    if numbers.len() == 0 {
        0
    } else {
        sum(numbers.drop_last()) + numbers.last()
    }
}

/// The sum of a part of a sequence of natural numbers does not exceed the sum
/// of the whole.
pub proof fn lemma_sum_of_prefix(numbers: Seq<int>, n: int)
    requires
        0 <= n <= numbers.len(),
        forall|j: int| 0 <= j < numbers.len() ==> 0 <= numbers[j],
    ensures
        0 <= sum(numbers.take(n)) <= sum(numbers),
    decreases numbers.len(),
{
    if n == numbers.len() {
        assert(numbers.take(n) =~= numbers);
        if n > 0 {
            lemma_sum_of_prefix(numbers.drop_last(), n - 1);
        }
    } else {
        assert(numbers.drop_last().take(n) =~= numbers.take(n));
        lemma_sum_of_prefix(numbers.drop_last(), n);
    }
}

/// The sum of numbers that are at most one does not exceed their count.
pub proof fn lemma_sum_at_most_len(numbers: Seq<int>)
    requires
        forall|j: int| 0 <= j < numbers.len() ==> numbers[j] <= 1,
    ensures
        sum(numbers) <= numbers.len(),
    decreases numbers.len(),
{
    if numbers.len() > 0 {
        lemma_sum_at_most_len(numbers.drop_last());
    }
}

/// The points that the choice at `i` scores against each choice of the batch
/// in turn, itself included.
pub open spec fn points_row<T: PointsAgainst>(choices: Seq<T>, i: int) -> Seq<int> {
    Seq::new(choices.len(), |j: int| choices[i].spec_points_against(&choices[j]) as int)
}

/// The points that the choice at `i` scores against the whole batch.
pub open spec fn total_points<T: PointsAgainst>(choices: Seq<T>, i: int) -> int {
    sum(points_row(choices, i))
}

/// Where no choice scores more than one point against another, none scores
/// more points against the batch than the batch has choices.
pub proof fn lemma_total_points_at_most_len<T: PointsAgainst>(choices: Seq<T>, i: int)
    requires
        0 <= i < choices.len(),
        forall|j: int|
            0 <= j < choices.len() ==> #[trigger] choices[i].spec_points_against(&choices[j]) <= 1,
    ensures
        0 <= total_points(choices, i) <= choices.len(),
{
    let row = points_row(choices, i);
    assert forall|j: int| 0 <= j < row.len() implies 0 <= #[trigger] row[j] && row[j] <= 1 by {
        assert(choices[i].spec_points_against(&choices[j]) <= 1);
    }
    lemma_sum_at_most_len(row);
    lemma_sum_of_prefix(row, 0);
}

/// A kind of choice that scores points against another choice of its kind.
pub trait PointsAgainst: Sized {
    /// What `points_against` returns. A kind of choice says here what it
    /// scores; one that says nothing leaves its points unknown.
    open spec fn spec_points_against(&self, other: &Self) -> u8 {
        arbitrary()
    }

    /// Points that `self` scores when it meets `other`.
    fn points_against(&self, other: &Self) -> (points: u8)
        ensures
            points == self.spec_points_against(other),
    ;
}

/// Scoring of a whole batch, for every kind of choice that scores points.
pub trait PointsOf: PointsAgainst {
    /// For each choice of a batch, the points it scores against all choices of
    /// the batch, itself included.
    fn points_of(choices: &[Self]) -> (points: Vec<u8>)
        requires
            forall|i: int| 0 <= i < choices@.len() ==> total_points(choices@, i) <= u8::MAX,
        ensures
            points@.len() == choices@.len(),
            forall|i: int| 0 <= i < choices@.len() ==> points@[i] == total_points(choices@, i),
    {
        let n = choices.len();
        let mut points: Vec<u8> = Vec::new();
        let mut i: usize = 0;
        while i < n
            invariant
                n == choices@.len(),
                i <= n,
                points@.len() == i,
                forall|k: int| 0 <= k < choices@.len() ==> total_points(choices@, k) <= u8::MAX,
                forall|k: int| 0 <= k < i ==> points@[k] == total_points(choices@, k),
            decreases n - i,
        {
            let ghost row = points_row(choices@, i as int);
            assert(total_points(choices@, i as int) <= u8::MAX);
            let mut total: u8 = 0;
            let mut j: usize = 0;
            while j < n
                invariant
                    n == choices@.len(),
                    i < n,
                    j <= n,
                    row == points_row(choices@, i as int),
                    sum(row) <= u8::MAX,
                    total == sum(row.take(j as int)),
                decreases n - j,
            {
                proof {
                    lemma_sum_of_prefix(row, j as int + 1);
                    assert(row.take(j as int + 1).drop_last() =~= row.take(j as int));
                }
                total = total + choices[i].points_against(&choices[j]);
                j += 1;
            }
            assert(row.take(n as int) =~= row);
            points.push(total);
            i += 1;
        }
        points
    }
}

impl<T: PointsAgainst> PointsOf for T {

}

} // verus!
