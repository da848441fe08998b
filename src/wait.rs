use vstd::prelude::*;

verus! {

/// The outcome of one poll of a wait.
#[derive(Debug, Clone, Copy, PartialEq, Eq, Structural)]
pub enum Readiness {
    Ready,
    Pending,
}

/// Wake handles of suspended tasks, in the order they were registered. A
/// task may stand in it more than once.
pub struct WakeQueue<T> {
    pending: Vec<T>,
}

impl<T> View for WakeQueue<T> {
    type V = Seq<T>;

    closed spec fn view(&self) -> Seq<T> {
        self.pending@
    }
}

impl<T> WakeQueue<T> {
    /// An empty queue.
    pub fn new() -> (r: WakeQueue<T>)
        ensures
            r@ == Seq::<T>::empty(),
    {
        WakeQueue { pending: Vec::new() }
    }

    /// Adds `handle` to the queue.
    pub fn register(&mut self, handle: T)
        ensures
            final(self)@ == old(self)@.push(handle),
    {
        self.pending.push(handle);
    }

    /// Takes every registered handle out, leaving the queue empty.
    pub fn drain(&mut self) -> (r: Vec<T>)
        ensures
            r@ == old(self)@,
            final(self)@ == Seq::<T>::empty(),
    {
        let mut out: Vec<T> = Vec::new();
        std::mem::swap(&mut self.pending, &mut out);
        out
    }

    /// The number of registered handles.
    pub fn len(&self) -> (r: usize)
        ensures
            r == self@.len(),
    {
        self.pending.len()
    }

    /// Whether no handle is registered.
    pub fn is_empty(&self) -> (r: bool)
        ensures
            r == (self@.len() == 0),
    {
        self.pending.len() == 0
    }
}

/// Whether a wait is ready after one poll that saw the counter at `ticks`:
/// once ready it stays so, and it becomes so when the counter has passed
/// the threshold.
pub open spec fn ready_after_poll(ready: bool, threshold: int, ticks: int) -> bool {
    ready || ticks > threshold
}

/// Whether a wait is ready after polls that saw the counter values `seen`,
/// in order.
pub open spec fn ready_after_polls(ready: bool, threshold: int, seen: Seq<usize>) -> bool
    decreases seen.len(),
{
    if seen.len() == 0 {
        ready
    } else {
        ready_after_poll(
            ready_after_polls(ready, threshold, seen.drop_last()),
            threshold,
            seen.last() as int,
        )
    }
}

/// How many of the polls that saw `seen` left the wait pending, that is,
/// registered the task's wake handle.
pub open spec fn registrations(ready: bool, threshold: int, seen: Seq<usize>) -> nat
    decreases seen.len(),
{
    if seen.len() == 0 {
        0
    } else if ready_after_polls(ready, threshold, seen) {
        registrations(ready, threshold, seen.drop_last())
    } else {
        registrations(ready, threshold, seen.drop_last()) + 1
    }
}

/// A wait until the event counter exceeds a threshold.
pub struct WaitValue {
    threshold: usize,
    ready: bool,
}

impl WaitValue {
    pub closed spec fn threshold_spec(&self) -> usize {
        self.threshold
    }

    pub closed spec fn is_ready_spec(&self) -> bool {
        self.ready
    }

    /// The counter value the wait must see exceeded.
    pub fn threshold(&self) -> (r: usize)
        ensures
            r == self.threshold_spec(),
    {
        self.threshold
    }

    /// Whether an earlier poll found the condition met.
    pub fn is_ready(&self) -> (r: bool)
        ensures
            r == self.is_ready_spec(),
    {
        self.ready
    }

    /// One poll with the counter at `ticks`. If the counter exceeds the
    /// threshold, or an earlier poll was ready, the wait is ready. Otherwise
    /// `waker` is registered in `queue` so that the next tick wakes the task,
    /// and the wait stays pending.
    pub fn poll<T>(&mut self, ticks: usize, waker: T, queue: &mut WakeQueue<T>) -> (r: Readiness)
        ensures
            final(self).threshold_spec() == old(self).threshold_spec(),
            final(self).is_ready_spec() == ready_after_poll(
                old(self).is_ready_spec(),
                old(self).threshold_spec() as int,
                ticks as int,
            ),
            (r == Readiness::Ready) == final(self).is_ready_spec(),
            final(self).is_ready_spec() ==> final(queue)@ == old(queue)@,
            !final(self).is_ready_spec() ==> final(queue)@ == old(queue)@.push(waker),
    {
        if self.ready || ticks > self.threshold {
            self.ready = true;
            Readiness::Ready
        } else {
            queue.register(waker);
            Readiness::Pending
        }
    }
}

/// A wait, not yet polled, until the counter exceeds `value`.
pub fn wait_value(value: usize) -> (r: WaitValue)
    ensures
        r.threshold_spec() == value,
        !r.is_ready_spec(),
{
    WaitValue { threshold: value, ready: false }
}

/// The tick routine: the counter moves from `ticks` to the next value, and
/// every handle registered so far is handed out to be woken.
pub fn service_tick<T>(ticks: usize, queue: &mut WakeQueue<T>) -> (r: (usize, Vec<T>))
    requires
        ticks < usize::MAX,
    ensures
        r.0 == ticks + 1,
        r.1@ == old(queue)@,
        final(queue)@ == Seq::<T>::empty(),
{
    let woken = queue.drain();
    (ticks + 1, woken)
}

/// A wait that has not been ready becomes ready in a run of polls exactly
/// when one of them saw the counter above the threshold; a wait that is
/// ready stays ready whatever later polls see.
pub proof fn lemma_ready_exactly_past_threshold(threshold: usize, seen: Seq<usize>)
    ensures
        ready_after_polls(false, threshold as int, seen) <==> exists|i: int|
            0 <= i < seen.len() && #[trigger] seen[i] > threshold,
        ready_after_polls(true, threshold as int, seen),
    decreases seen.len(),
{
    if seen.len() > 0 {
        let prefix = seen.drop_last();
        lemma_ready_exactly_past_threshold(threshold, prefix);
        if ready_after_polls(false, threshold as int, seen) {
            if seen.last() <= threshold {
                let i = choose|i: int| 0 <= i < prefix.len() && #[trigger] prefix[i] > threshold;
                assert(seen[i] == prefix[i]);
            }
        } else {
            assert forall|i: int| 0 <= i < seen.len() implies !(#[trigger] seen[i] > threshold) by {
                if i < prefix.len() {
                    assert(seen[i] == prefix[i]);
                }
            }
        }
    }
}

/// No wake is missed: every poll made while the condition does not hold
/// registers the task again, so a task woken too early is woken at a later
/// tick; and once any poll sees the counter past the threshold the wait is
/// ready, with no further registration.
pub proof fn lemma_no_missed_wakeup(threshold: usize, seen: Seq<usize>)
    ensures
        !ready_after_polls(false, threshold as int, seen) ==> registrations(
            false,
            threshold as int,
            seen,
        ) == seen.len(),
        (exists|i: int| 0 <= i < seen.len() && #[trigger] seen[i] > threshold) ==> ready_after_polls(
            false,
            threshold as int,
            seen,
        ),
    decreases seen.len(),
{
    lemma_ready_exactly_past_threshold(threshold, seen);
    if seen.len() > 0 {
        lemma_no_missed_wakeup(threshold, seen.drop_last());
    }
}

} // verus!
