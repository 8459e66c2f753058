//! The rolling history: a bounded first-in, first-out record of the most
//! recent readings of one sensor.

use vstd::prelude::*;

verus! {

/// How many readings a rolling window keeps.
pub const WINDOW_CAPACITY: usize = 10;

/// The last `limit` elements of `values`, in their order; all of them where
/// there are no more than `limit`.
pub open spec fn most_recent(values: Seq<i32>, limit: nat) -> Seq<i32> {
    if values.len() <= limit {
        values
    } else {
        values.subrange(values.len() - limit, values.len() as int)
    }
}

/// What a window that held `start` holds after the values of `pushed` were
/// pushed into it one by one.
pub open spec fn after_pushes(start: Seq<i32>, pushed: Seq<i32>) -> Seq<i32>
    decreases pushed.len(),
{
    if pushed.len() == 0 {
        start
    } else {
        most_recent(
            after_pushes(start, pushed.drop_last()).push(pushed.last()),
            WINDOW_CAPACITY as nat,
        )
    }
}

/// The most recent readings of one sensor, oldest first.
#[derive(Clone, Debug, PartialEq, Eq)]
pub struct RollingWindow {
    values: Vec<i32>,
}

impl View for RollingWindow {
    type V = Seq<i32>;

    closed spec fn view(&self) -> Seq<i32> {
        self.values@
    }
}

impl RollingWindow {
    /// A window never holds more than its capacity.
    pub open spec fn wf(&self) -> bool {
        self@.len() <= WINDOW_CAPACITY
    }

    /// An empty window.
    pub fn new() -> (window: RollingWindow)
        ensures
            window.wf(),
            window@ == Seq::<i32>::empty(),
    {
        RollingWindow { values: Vec::new() }
    }

    /// Appends `value` as the newest reading. A window that is full first
    /// gives up its oldest reading.
    pub fn push(&mut self, value: i32)
        requires
            old(self).wf(),
        ensures
            final(self).wf(),
            final(self)@ == most_recent(old(self)@.push(value), WINDOW_CAPACITY as nat),
    {
        self.values.push(value);
        if self.values.len() > WINDOW_CAPACITY {
            self.values.remove(0);
        }
        assert(self.values@ =~= most_recent(old(self)@.push(value), WINDOW_CAPACITY as nat));
    }

    /// The number of readings held.
    pub fn len(&self) -> (count: usize)
        ensures
            count == self@.len(),
    {
        self.values.len()
    }

    /// Whether the window holds no reading.
    pub fn is_empty(&self) -> (empty: bool)
        ensures
            empty == (self@.len() == 0),
    {
        self.values.len() == 0
    }

    /// The readings held, oldest first.
    pub fn as_slice(&self) -> (values: &[i32])
        ensures
            values@ == self@,
    {
        self.values.as_slice()
    }

    /// A copy of the readings held, oldest first.
    pub fn snapshot(&self) -> (values: Vec<i32>)
        ensures
            values@ == self@,
    {
        self.values.clone()
    }
}

/// A window that starts empty holds, after any sequence of pushes, exactly
/// the most recent of the pushed values, as many as its capacity allows and
/// in the order in which they were pushed; so its length is the smaller of
/// the capacity and the number of pushes.
pub proof fn lemma_window_holds_most_recent(pushed: Seq<i32>)
    ensures
        after_pushes(Seq::<i32>::empty(), pushed) == most_recent(pushed, WINDOW_CAPACITY as nat),
        after_pushes(Seq::<i32>::empty(), pushed).len() == if pushed.len() <= WINDOW_CAPACITY {
            pushed.len()
        } else {
            WINDOW_CAPACITY as nat
        },
    decreases pushed.len(),
{
    if pushed.len() > 0 {
        let earlier = pushed.drop_last();
        lemma_window_holds_most_recent(earlier);
        assert(most_recent(
            most_recent(earlier, WINDOW_CAPACITY as nat).push(pushed.last()),
            WINDOW_CAPACITY as nat,
        ) =~= most_recent(pushed, WINDOW_CAPACITY as nat));
    } else {
        assert(after_pushes(Seq::<i32>::empty(), pushed) =~= most_recent(
            pushed,
            WINDOW_CAPACITY as nat,
        ));
    }
}

/// Pushing keeps a window within its capacity, whatever it held before.
pub proof fn lemma_pushes_stay_bounded(start: Seq<i32>, pushed: Seq<i32>)
    requires
        start.len() <= WINDOW_CAPACITY,
    ensures
        after_pushes(start, pushed).len() <= WINDOW_CAPACITY,
    decreases pushed.len(),
{
    if pushed.len() > 0 {
        lemma_pushes_stay_bounded(start, pushed.drop_last());
    }
}

} // verus!
