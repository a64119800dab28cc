//! The decisions of the two background loops and of the hand-offs between
//! them.
//!
//! The simulation loop turns input into camera and model changes and
//! publishes a transform snapshot when something changed; the sort loop
//! re-sorts every point buffer against the latest snapshot. Both hand-offs
//! keep the latest value only. Threads, locks, clocks and sleeping are the
//! caller's: each function here is one step of a loop, from what the caller
//! observed to what it is to do next.

use crate::depth_sort::{is_depth_order, rearranged, sort_by_depth};
use crate::scalar::{Matrix, Scalar};
use vstd::prelude::*;

verus! {

/// Target period of the simulation loop, in nanoseconds.
pub const SIMULATION_PERIOD: u64 = 16_000_000;

/// Target period of the sort loop, in nanoseconds. It differs from the
/// simulation period so that the two loops do not run in lockstep.
pub const SORT_PERIOD: u64 = 17_000_000;

/// The transforms and sort direction of one moment. A snapshot is replaced
/// as a whole, never merged with the one before.
#[derive(Clone, Copy, Debug)]
pub struct TransformSnapshot {
    pub model: Matrix,
    pub view: Matrix,
    pub projection: Matrix,
    pub sort_descending: bool,
}

/// A cell that holds at most one pending value: publishing overwrites what
/// was there, so a reader only ever finds the latest.
pub struct Mailbox<T> {
    slot: Option<T>,
}

impl<T> View for Mailbox<T> {
    type V = Option<T>;

    closed spec fn view(&self) -> Option<T> {
        self.slot
    }
}

/// What a mailbox that held `held` holds after `values` were published into
/// it, one after the other.
pub open spec fn after_publishing<T>(held: Option<T>, values: Seq<T>) -> Option<T>
    decreases values.len(),
{
    if values.len() == 0 {
        held
    } else {
        after_publishing(Some(values.first()), values.drop_first())
    }
}

impl<T> Mailbox<T> {
    /// An empty mailbox.
    pub fn new() -> (mailbox: Self)
        ensures
            mailbox@ is None,
    {
        Mailbox { slot: None }
    }

    /// Puts `value` in the mailbox, dropping what was pending.
    pub fn publish(&mut self, value: T)
        ensures
            final(self)@ == Some(value),
            final(self)@ == after_publishing(old(self)@, seq![value]),
    {
        proof {
            reveal_with_fuel(after_publishing, 2);
            assert(seq![value].drop_first().len() == 0);
        }
        self.slot = Some(value);
    }

    /// Publishes each of `values` in turn.
    pub fn publish_all(&mut self, values: Vec<T>)
        ensures
            final(self)@ == after_publishing(old(self)@, values@),
            values@.len() > 0 ==> final(self)@ == Some(values@.last()),
            values@.len() == 0 ==> final(self)@ == old(self)@,
    {
        let mut values = values;
        proof {
            if values@.len() > 0 {
                lemma_latest_wins(self@, values@);
            }
        }
        match values.pop() {
            Some(last) => {
                self.slot = Some(last);
            },
            None => {},
        }
    }

    /// Takes the pending value out, if there is one.
    pub fn take(&mut self) -> (value: Option<T>)
        ensures
            value == old(self)@,
            final(self)@ is None,
    {
        self.slot.take()
    }

    /// Whether a value is pending.
    pub fn is_pending(&self) -> (pending: bool)
        ensures
            pending == (self@ is Some),
    {
        self.slot.is_some()
    }
}

impl<T: Copy> Mailbox<T> {
    /// A copy of the pending value, which stays in the mailbox: a reader that
    /// finds nothing new works on with the value it found before.
    pub fn latest(&self) -> (value: Option<T>)
        ensures
            value == self@,
    {
        self.slot
    }
}

/// Hand-off coalescing: however many values are published before the reader
/// comes, and whatever was pending before them, the mailbox then holds the
/// last of them and nothing else.
pub proof fn lemma_latest_wins<T>(held: Option<T>, values: Seq<T>)
    requires
        values.len() > 0,
    ensures
        after_publishing(held, values) == Some(values.last()),
    decreases values.len(),
{
    if values.len() > 1 {
        let rest = values.drop_first();
        assert(rest.last() == values.last());
        lemma_latest_wins(Some(values.first()), rest);
    } else {
        reveal_with_fuel(after_publishing, 2);
        assert(values.drop_first().len() == 0);
    }
}

/// What the reader of a mailbox works on: of `values` published since it
/// last came, only the last. Of two batches published one after the other
/// the first leaves no trace once the second is not empty.
pub proof fn lemma_stale_values_are_dropped<T>(held: Option<T>, stale: Seq<T>, fresh: Seq<T>)
    requires
        fresh.len() > 0,
    ensures
        after_publishing(after_publishing(held, stale), fresh) == after_publishing(None, fresh),
{
    lemma_latest_wins(after_publishing(held, stale), fresh);
    lemma_latest_wins(None, fresh);
}

/// Drains a queue of pending messages to the latest: the last message, or
/// nothing where none is pending. Earlier messages are discarded unread.
pub fn coalesce<T>(pending: Vec<T>) -> (latest: Option<T>)
    ensures
        latest == after_publishing(None, pending@),
        pending@.len() == 0 ==> latest is None,
        pending@.len() > 0 ==> latest == Some(pending@.last()),
{
    let mut inbox = Mailbox::new();
    inbox.publish_all(pending);
    inbox.take()
}

/// What the input collaborator reports for one simulation tick.
#[derive(Clone, Copy, Debug)]
pub struct TickInput {
    /// An orbit delta is pending.
    pub orbit: bool,
    /// The zoom-in key is held.
    pub zoom_in: bool,
    /// The zoom-out key is held.
    pub zoom_out: bool,
    /// The key that toggles the sort direction is held.
    pub toggle_sort: bool,
}

/// What the simulation loop is to do in one tick, in this order.
#[derive(Clone, Copy, Debug, PartialEq, Eq, Structural)]
pub struct TickPlan {
    /// Rotate the model and orbit the camera by the pending delta.
    pub orbit: bool,
    /// Move the camera one step along its direction.
    pub zoom_in: bool,
    /// Move the camera one step against its direction.
    pub zoom_out: bool,
    /// Build a snapshot of the transforms as they are after the steps above
    /// and try to publish it, without blocking.
    pub publish: bool,
    /// The sort direction that the snapshot carries.
    pub sort_descending: bool,
}

/// The state that the simulation loop keeps from tick to tick.
#[derive(Clone, Copy, Debug)]
pub struct Simulation {
    changed: bool,
    sort_descending: bool,
}

impl Simulation {
    /// Whether something changed that no snapshot has been built from yet.
    pub closed spec fn changed(self) -> bool {
        self.changed
    }

    /// The current sort direction.
    pub closed spec fn sort_descending(self) -> bool {
        self.sort_descending
    }

    /// The plan of a tick that starts in state `self` and finds `input`.
    pub open spec fn plan(self, input: TickInput) -> TickPlan {
        TickPlan {
            orbit: input.orbit,
            zoom_in: input.zoom_in,
            zoom_out: input.zoom_out,
            publish: self.changed() || input.orbit || input.zoom_in || input.zoom_out
                || input.toggle_sort,
            sort_descending: self.sort_descending() != input.toggle_sort,
        }
    }

    /// The state at start-up: nothing has been published yet, so the first
    /// tick publishes, and depths ascend along the buffers.
    pub fn new() -> (state: Self)
        ensures
            state.changed(),
            !state.sort_descending(),
    {
        Simulation { changed: true, sort_descending: false }
    }

    /// One tick. The plan publishes exactly when something changed since the
    /// last snapshot was built, in this tick or before; the change is then
    /// accounted for, whether or not the publish finds the cell free: a
    /// snapshot that cannot be written is dropped, not retried.
    pub fn tick(&mut self, input: TickInput) -> (plan: TickPlan)
        ensures
            plan == old(self).plan(input),
            !final(self).changed(),
            final(self).sort_descending() == plan.sort_descending,
    {
        let sort_descending = self.sort_descending != input.toggle_sort;
        let publish = self.changed || input.orbit || input.zoom_in || input.zoom_out
            || input.toggle_sort;
        self.changed = false;
        self.sort_descending = sort_descending;
        TickPlan {
            orbit: input.orbit,
            zoom_in: input.zoom_in,
            zoom_out: input.zoom_out,
            publish,
            sort_descending,
        }
    }
}

/// A tick without input, after a tick, does nothing: no step, no publish.
pub proof fn lemma_idle_tick_is_silent(state: Simulation, input: TickInput)
    requires
        !state.changed(),
        !input.orbit,
        !input.zoom_in,
        !input.zoom_out,
        !input.toggle_sort,
    ensures
        state.plan(input) == (TickPlan {
            orbit: false,
            zoom_in: false,
            zoom_out: false,
            publish: false,
            sort_descending: state.sort_descending(),
        }),
{
}

/// How long a loop sleeps after a tick whose body took `elapsed`: the rest
/// of its period, and nothing where the body overran it.
pub fn sleep_budget(period: u64, elapsed: u64) -> (rest: u64)
    ensures
        rest == if elapsed >= period {
            0
        } else {
            period - elapsed
        },
{
    if elapsed >= period {
        0
    } else {
        period - elapsed
    }
}

/// Whether each buffer has as many depths as points.
pub open spec fn depths_match<P>(buffers: Seq<Vec<P>>, depths: Seq<Vec<Scalar>>) -> bool {
    &&& buffers.len() == depths.len()
    &&& forall|b: int| 0 <= b < buffers.len() ==> (#[trigger] buffers[b])@.len() == depths[b]@.len()
}

/// Whether buffer `after` is buffer `before` put in depth order.
pub open spec fn is_sorted_buffer<P>(
    before: Seq<P>,
    after: Seq<P>,
    depths: Seq<Scalar>,
    descending: bool,
) -> bool {
    exists|order: Seq<usize>|
        {
            &&& is_depth_order(order, depths, descending)
            &&& after == #[trigger] rearranged(before, order)
        }
}

/// One pass of the sort loop: every buffer of the set is put in depth order,
/// all of them in the direction of the one snapshot that the depths were
/// projected with.
pub fn sort_buffers<P: Copy>(buffers: &mut Vec<Vec<P>>, depths: &Vec<Vec<Scalar>>, descending: bool)
    requires
        depths_match(old(buffers)@, depths@),
    ensures
        final(buffers)@.len() == old(buffers)@.len(),
        forall|b: int|
            0 <= b < old(buffers)@.len() ==> is_sorted_buffer(
                old(buffers)@[b]@,
                (#[trigger] final(buffers)@[b])@,
                depths@[b]@,
                descending,
            ),
{
    let n = buffers.len();
    let mut b: usize = 0;
    while b < n
        invariant
            n == buffers.len(),
            n == old(buffers)@.len(),
            n == depths.len(),
            b <= n,
            depths_match(old(buffers)@, depths@),
            forall|k: int| b <= k < n ==> buffers@[k] == old(buffers)@[k],
            forall|k: int|
                0 <= k < b ==> is_sorted_buffer(
                    old(buffers)@[k]@,
                    (#[trigger] buffers@[k])@,
                    depths@[k]@,
                    descending,
                ),
        decreases n - b,
    {
        let ghost before = buffers@[b as int]@;
        assert(old(buffers)@[b as int]@.len() == depths@[b as int]@.len());
        let mut points: Vec<P> = Vec::new();
        std::mem::swap(&mut points, &mut buffers[b]);
        let order = sort_by_depth(&mut points, &depths[b], descending);
        assert(points@ == rearranged(before, order@));
        buffers[b] = points;
        b += 1;
    }
}

} // verus!
