use crate::choices::{ArsenalItem, DequeueChoice};
use vstd::multiset::Multiset;
use vstd::prelude::*;
use vstd::std_specs::cmp::PartialEqSpecImpl;

verus! {

/// The items of a queue that wait to be drained. Two pools are equal when
/// they hold the same items the same number of times, in whatever order.
#[derive(Debug, Clone)]
pub struct Pool {
    pub items: Vec<ArsenalItem>,
}

impl Pool {
    /// The items with their multiplicities, the order forgotten.
    pub open spec fn contents(&self) -> Multiset<ArsenalItem> {
        self.items@.to_multiset()
    }

    /// How many times `item` is in the pool.
    pub fn count(&self, item: ArsenalItem) -> (count: usize)
        ensures
            count == self.contents().count(item),
    {
        let mut count: usize = 0;
        let mut i: usize = 0;
        proof {
            let none = self.items@.take(0);
            assert(!none.contains(item));
            vstd::seq_lib::to_multiset_contains(none, item);
        }
        while i < self.items.len()
            invariant
                i <= self.items.len(),
                count <= i,
                count == self.items@.take(i as int).to_multiset().count(item),
            decreases self.items.len() - i,
        {
            proof {
                let before = self.items@.take(i as int);
                let next = self.items@[i as int];
                assert(self.items@.take(i as int + 1) =~= before.push(next));
                vstd::seq_lib::to_multiset_build(before, next);
                vstd::multiset::lemma_insert_increases_count_by_1(before.to_multiset(), next);
                vstd::multiset::lemma_insert_other_elements_unchanged(
                    before.to_multiset(),
                    next,
                    item,
                );
            }
            if self.items[i] == item {
                count += 1;
            }
            i += 1;
        }
        assert(self.items@.take(i as int) =~= self.items@);
        count
    }

    /// Whether every item of `self` is as many times in `other` as in `self`.
    fn counts_agree(&self, other: &Pool) -> (agree: bool)
        ensures
            agree == forall|k: int|
                0 <= k < self.items@.len() ==> self.contents().count(#[trigger] self.items@[k])
                    == other.contents().count(self.items@[k]),
    {
        let mut i: usize = 0;
        while i < self.items.len()
            invariant
                i <= self.items.len(),
                forall|k: int|
                    0 <= k < i ==> self.contents().count(#[trigger] self.items@[k])
                        == other.contents().count(self.items@[k]),
            decreases self.items.len() - i,
        {
            let item = self.items[i];
            if self.count(item) != other.count(item) {
                return false;
            }
            i += 1;
        }
        true
    }
}

impl PartialEq for Pool {
    fn eq(&self, other: &Pool) -> (equal: bool) {
        let equal = self.counts_agree(other) && other.counts_agree(self);
        proof {
            broadcast use vstd::seq_lib::group_to_multiset_ensures;

            if equal {
                assert forall|item: ArsenalItem|
                    self.contents().count(item) == other.contents().count(item) by {
                    if self.items@.contains(item) {
                        let k = self.items@.index_of(item);
                        assert(self.items@[k] == item);
                    } else if other.items@.contains(item) {
                        let k = other.items@.index_of(item);
                        assert(other.items@[k] == item);
                    }
                }
                assert(self.contents() =~= other.contents());
            }
        }
        equal
    }
}

impl PartialEqSpecImpl for Pool {
    open spec fn obeys_eq_spec() -> bool {
        true
    }

    open spec fn eq_spec(&self, other: &Pool) -> bool {
        self.contents() == other.contents()
    }
}

/// The state of a queue as plain values.
pub struct QueueView {
    pub entrance: Option<ArsenalItem>,
    pub pool: Seq<ArsenalItem>,
    pub exit: Option<ArsenalItem>,
}

impl QueueView {
    /// The queue of a player who has used nothing yet: the mirror waits in the
    /// pool.
    pub open spec fn initial() -> QueueView {
        QueueView { entrance: None, pool: seq![ArsenalItem::Mirror], exit: None }
    }

    /// The queue after `entering` takes the entrance: what held the entrance
    /// joins the pool.
    pub open spec fn enqueue(self, entering: Option<ArsenalItem>) -> QueueView {
        QueueView {
            entrance: entering,
            pool: match self.entrance {
                Some(item) => self.pool.push(item),
                None => self.pool,
            },
            exit: self.exit,
        }
    }

    /// Whether the queue can follow `choice`: an item can be drained only
    /// while it is in the pool.
    pub open spec fn can_dequeue(self, choice: DequeueChoice) -> bool {
        choice matches DequeueChoice::DrainAndExit(item) ==> self.pool.contains(item)
    }

    /// The queue after it has followed `choice`. Declining changes nothing.
    /// Exiting empties the exit. Draining takes the first such item out of the
    /// pool and puts it in the exit.
    pub open spec fn dequeue(self, choice: DequeueChoice) -> QueueView {
        match choice {
            DequeueChoice::Decline => self,
            DequeueChoice::JustExit => QueueView { exit: None, ..self },
            DequeueChoice::DrainAndExit(item) => QueueView {
                entrance: self.entrance,
                pool: self.pool.remove(self.pool.index_of_first(item).unwrap()),
                exit: Some(item),
            },
        }
    }

    /// What leaves the queue when it follows `choice`: nothing on declining,
    /// and what was in the exit otherwise.
    pub open spec fn exiting(self, choice: DequeueChoice) -> Option<ArsenalItem> {
        match choice {
            DequeueChoice::Decline => None,
            _ => self.exit,
        }
    }

    /// Two queue states that `==` on queues does not tell apart.
    pub open spec fn same(self, other: QueueView) -> bool {
        &&& self.entrance == other.entrance
        &&& self.pool.to_multiset() == other.pool.to_multiset()
        &&& self.exit == other.exit
    }

    /// Two uses in a row: the first item used is in the pool after the second
    /// use, as its last item, and the second item used holds the entrance.
    pub proof fn lemma_enqueue_twice(self, first: ArsenalItem, second: Option<ArsenalItem>)
        ensures
            self.enqueue(Some(first)).enqueue(second).entrance == second,
            self.enqueue(Some(first)).enqueue(second).pool == self.enqueue(Some(first)).pool.push(
                first,
            ),
            self.enqueue(Some(first)).enqueue(second).pool.last() == first,
            self.enqueue(Some(first)).enqueue(second).exit == self.exit,
    {
    }

    /// The order of the pool does not matter to equality: two queues whose
    /// pools hold the same two runs of items in opposite order are equal.
    pub proof fn lemma_pool_order_is_irrelevant(
        entrance: Option<ArsenalItem>,
        left: Seq<ArsenalItem>,
        right: Seq<ArsenalItem>,
        exit: Option<ArsenalItem>,
    )
        ensures
            (QueueView { entrance, pool: left + right, exit }).same(
                QueueView { entrance, pool: right + left, exit },
            ),
    {
        vstd::seq_lib::lemma_seq_union_to_multiset_commutative(left, right);
    }
}

/// A player's pipeline for used items: a used item holds the entrance for one
/// round, then waits in the pool until it is drained to the exit, from where
/// it returns to the arsenal.
#[derive(Debug, Clone)]
pub struct Queue {
    pub entrance: Option<ArsenalItem>,
    pub pool: Pool,
    pub exit: Option<ArsenalItem>,
}

impl View for Queue {
    type V = QueueView;

    open spec fn view(&self) -> QueueView {
        QueueView { entrance: self.entrance, pool: self.pool.items@, exit: self.exit }
    }
}

impl Queue {
    /// The queue of a player who has used nothing yet.
    pub fn new() -> (queue: Queue)
        ensures
            queue@ == QueueView::initial(),
    {
        let items = vec![ArsenalItem::Mirror];
        assert(items@ =~= seq![ArsenalItem::Mirror]);
        Queue { entrance: None, pool: Pool { items }, exit: None }
    }

    /// Puts `entering` in the entrance and what held the entrance in the pool.
    pub fn enqueue(&mut self, entering: Option<ArsenalItem>)
        ensures
            final(self)@ == old(self)@.enqueue(entering),
    {
        let entrance = self.entrance.take();
        if let Some(entrance) = entrance {
            self.pool.items.push(entrance);
        }
        self.entrance = entering;
    }

    /// Follows `choice` and returns what leaves the queue. Draining an item
    /// that is not in the pool is an error and changes nothing.
    pub fn dequeue(&mut self, choice: DequeueChoice) -> (result: Result<Option<ArsenalItem>, ()>)
        ensures
            match result {
                Ok(exiting) => {
                    &&& old(self)@.can_dequeue(choice)
                    &&& final(self)@ == old(self)@.dequeue(choice)
                    &&& exiting == old(self)@.exiting(choice)
                },
                Err(_) => !old(self)@.can_dequeue(choice) && *final(self) == *old(self),
            },
    {
        match choice {
            DequeueChoice::Decline => Ok(None),
            DequeueChoice::JustExit => Ok(self.exit.take()),
            DequeueChoice::DrainAndExit(drainee) => self.drain(drainee),
        }
    }

    /// Moves the first `drainee` of the pool to the exit and returns what was
    /// in the exit; an error that changes nothing where the pool has none.
    pub fn drain(&mut self, drainee: ArsenalItem) -> (result: Result<Option<ArsenalItem>, ()>)
        ensures
            match result {
                Ok(exiting) => {
                    &&& old(self)@.pool.contains(drainee)
                    &&& final(self)@ == old(self)@.dequeue(DequeueChoice::DrainAndExit(drainee))
                    &&& exiting == old(self)@.exit
                },
                Err(_) => !old(self)@.pool.contains(drainee) && *final(self) == *old(self),
            },
    {
        let mut position: usize = 0;
        while position < self.pool.items.len() && self.pool.items[position] != drainee
            invariant
                position <= self.pool.items.len(),
                *self == *old(self),
                forall|k: int| 0 <= k < position ==> self.pool.items@[k] != drainee,
            decreases self.pool.items.len() - position,
        {
            position += 1;
        }
        proof {
            self.pool.items@.index_of_first_ensures(drainee);
        }
        if position == self.pool.items.len() {
            Err(())
        } else {
            self.pool.items.remove(position);
            let exiting = self.exit.take();
            self.exit = Some(drainee);
            Ok(exiting)
        }
    }

    /// The items that wait in the pool.
    pub fn pool(&self) -> (pool: &Vec<ArsenalItem>)
        ensures
            pool@ == self@.pool,
    {
        &self.pool.items
    }

    /// Whether nothing waits in the exit.
    pub fn exit_vacant(&self) -> (vacant: bool)
        ensures
            vacant == (self@.exit is None),
    {
        self.exit.is_none()
    }
}

impl PartialEq for Queue {
    fn eq(&self, other: &Queue) -> (equal: bool) {
        self.entrance == other.entrance && self.pool == other.pool && self.exit == other.exit
    }
}

impl PartialEqSpecImpl for Queue {
    open spec fn obeys_eq_spec() -> bool {
        true
    }

    open spec fn eq_spec(&self, other: &Queue) -> bool {
        self@.same(other@)
    }
}

impl Eq for Pool {

}

impl Eq for Queue {

}

} // verus!
