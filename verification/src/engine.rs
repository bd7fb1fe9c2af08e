//! The stateful clustering engine: deduplicates window events, windows them by
//! elapsed time, tracks the current burst, and decides which events must
//! trigger a consolidation action and when a completed burst is reported.

use vstd::prelude::*;

verus! {

use std::collections::HashSet;
use std::collections::VecDeque;

broadcast use vstd::std_specs::hash::group_hash_axioms;

/// Gap in milliseconds at or below which two accepted window events belong to
/// the same burst; equality counts as within the threshold.
pub const THRESHOLD_MS: u128 = 500;

/// Capacity of the recent-history dedup window: an id seen within the last
/// this-many distinct accepted ids is discarded as a re-report.
pub const RECENT_IDS_LIMIT: usize = 25;

/// One "window opened or changed" stream event, reduced to the fields the
/// engine reads.
#[derive(Clone, Copy, Debug)]
pub struct WindowEvent {
    /// Unique id of the window.
    pub id: u64,
    /// Position in the scrolling layout as (column index, tile index in
    /// column), if the window is tiled.
    pub column_position: Option<(usize, usize)>,
}

/// Mathematical view of the engine state.
pub ghost struct Model {
    /// Most recently accepted window id; set even when the id is later found
    /// to be a recent duplicate.
    pub last_id: Option<u64>,
    /// Timestamp of the last window accepted as a candidate for timing
    /// comparison; not moved by a recent-history discard.
    pub last_timestamp: Option<u128>,
    /// Column associated with the start of the current burst.
    pub last_column_id: Option<usize>,
    /// Members of the current open burst, in insertion order, without
    /// duplicates.
    pub cluster: Seq<u64>,
    /// Bounded FIFO of recently handled ids, oldest first.
    pub recent: Seq<u64>,
}

impl Model {
    /// The state before any event has been seen.
    pub open spec fn init() -> Model {
        Model {
            last_id: None,
            last_timestamp: None,
            last_column_id: None,
            cluster: Seq::empty(),
            recent: Seq::empty(),
        }
    }

    /// The state invariant: no duplicate burst members, and a distinct,
    /// bounded recent history.
    pub open spec fn inv(self) -> bool {
        &&& self.cluster.no_duplicates()
        &&& self.recent.no_duplicates()
        &&& self.recent.len() <= RECENT_IDS_LIMIT
    }

    /// The membership set of the current burst: exactly the elements of
    /// `cluster`.
    pub open spec fn membership(self) -> Set<u64> {
        self.cluster.to_set()
    }

    /// The event repeats the most recently accepted id.
    pub open spec fn immediate_duplicate(self, id: u64) -> bool {
        self.last_id == Some(id)
    }

    /// The id was already handled within the recent-history window.
    pub open spec fn recent_duplicate(self, id: u64) -> bool {
        self.recent.contains(id)
    }

    /// An arrival at `ts` continues the current burst; an arrival before the
    /// last timing candidate never does.
    pub open spec fn within_threshold(self, ts: u128) -> bool {
        self.last_timestamp matches Some(t) && t <= ts && ts - t <= THRESHOLD_MS
    }

    /// The event sits in the column the current burst started in; an event
    /// with no column position never matches.
    pub open spec fn same_column(self, column_position: Option<(usize, usize)>) -> bool {
        column_position matches Some(p) && self.last_column_id == Some(p.0)
    }
}

/// The column id carried by a column position, if any.
pub open spec fn column_of(column_position: Option<(usize, usize)>) -> Option<usize> {
    match column_position {
        Some(p) => Some(p.0),
        None => None,
    }
}

/// The recent history after appending `id`, evicting the oldest entry past
/// capacity.
pub open spec fn history_after(recent: Seq<u64>, id: u64) -> Seq<u64> {
    let pushed = recent.push(id);
    if pushed.len() > RECENT_IDS_LIMIT {
        pushed.drop_first()
    } else {
        pushed
    }
}

/// The engine state after processing one event with id `id`, column position
/// `column_position` and arrival timestamp `ts`.
pub open spec fn step(
    m: Model,
    id: u64,
    column_position: Option<(usize, usize)>,
    ts: u128,
) -> Model {
    if m.immediate_duplicate(id) {
        m
    } else if m.recent_duplicate(id) {
        Model { last_id: Some(id), ..m }
    } else {
        let accepted = Model {
            last_id: Some(id),
            last_timestamp: Some(ts),
            recent: history_after(m.recent, id),
            ..m
        };
        if m.within_threshold(ts) {
            if m.same_column(column_position) {
                accepted
            } else if m.cluster.contains(id) {
                accepted
            } else {
                Model { cluster: m.cluster.push(id), ..accepted }
            }
        } else {
            Model { cluster: seq![id], last_column_id: column_of(column_position), ..accepted }
        }
    }
}

/// Mathematical view of what one event obliges the caller to do.
pub ghost enum OutcomeModel {
    /// Consecutive repeat of the last accepted id: nothing changed.
    DuplicateLast,
    /// Id found in the recent history: discarded, burst timer untouched.
    RecentDuplicate,
    /// Within the threshold but already in the burst's column: no action.
    SameColumn,
    /// Within the threshold but already a burst member: no action.
    AlreadyInCluster,
    /// The id joined the burst: dispatch a consolidation command for it.
    Joined,
    /// Burst boundary: the previous cluster closed; report it when it had
    /// more than one member.
    Boundary(Option<Seq<u64>>),
}

/// The caller's obligation after one event: `step_outcome` is its mathematical
/// view.
pub open spec fn step_outcome(
    m: Model,
    id: u64,
    column_position: Option<(usize, usize)>,
    ts: u128,
) -> OutcomeModel {
    if m.immediate_duplicate(id) {
        OutcomeModel::DuplicateLast
    } else if m.recent_duplicate(id) {
        OutcomeModel::RecentDuplicate
    } else if m.within_threshold(ts) {
        if m.same_column(column_position) {
            OutcomeModel::SameColumn
        } else if m.cluster.contains(id) {
            OutcomeModel::AlreadyInCluster
        } else {
            OutcomeModel::Joined
        }
    } else {
        OutcomeModel::Boundary(
            if m.cluster.len() > 1 {
                Some(m.cluster)
            } else {
                None
            },
        )
    }
}

/// What the caller must do after one event: dispatch a consolidation command
/// for the event's id (`Joined`), report a completed burst (`Boundary` with
/// `Some`), or nothing.
#[derive(Debug)]
pub enum Outcome {
    /// Consecutive repeat of the last accepted id: nothing changed.
    DuplicateLast,
    /// Id found in the recent history: discarded, burst timer untouched.
    RecentDuplicate,
    /// Within the threshold but already in the burst's column: no action.
    SameColumn,
    /// Within the threshold but already a burst member: no action.
    AlreadyInCluster,
    /// The id joined the burst: dispatch a consolidation command for it.
    Joined,
    /// Burst boundary: carries the closed cluster when it had more than one
    /// member.
    Boundary(Option<Vec<u64>>),
}

impl Outcome {
    /// The mathematical view of this outcome.
    pub open spec fn model(self) -> OutcomeModel {
        match self {
            Outcome::DuplicateLast => OutcomeModel::DuplicateLast,
            Outcome::RecentDuplicate => OutcomeModel::RecentDuplicate,
            Outcome::SameColumn => OutcomeModel::SameColumn,
            Outcome::AlreadyInCluster => OutcomeModel::AlreadyInCluster,
            Outcome::Joined => OutcomeModel::Joined,
            Outcome::Boundary(r) => OutcomeModel::Boundary(
                match r {
                    Some(v) => Some(v@),
                    None => None,
                },
            ),
        }
    }
}

/// The clustering engine's state, owned by one task and mutated only through
/// `process_event`.
pub struct ClusterState {
    /// Most recently accepted window id.
    pub last_id: Option<u64>,
    /// Timestamp of the last timing candidate, in milliseconds.
    pub last_timestamp: Option<u128>,
    /// Column associated with the start of the current burst.
    pub last_column_id: Option<usize>,
    /// Members of the current open burst, in insertion order.
    pub cluster: Vec<u64>,
    /// Membership mirror of `cluster`.
    pub cluster_ids: HashSet<u64>,
    /// Bounded FIFO of recently handled ids.
    pub recent_ids: VecDeque<u64>,
}

impl ClusterState {
    /// The mathematical view of this state.
    pub open spec fn model(self) -> Model {
        Model {
            last_id: self.last_id,
            last_timestamp: self.last_timestamp,
            last_column_id: self.last_column_id,
            cluster: self.cluster@,
            recent: self.recent_ids@,
        }
    }

    /// Well-formedness: the membership mirror holds exactly the cluster's
    /// elements, and the model invariant holds.
    pub open spec fn wf(self) -> bool {
        &&& self.cluster_ids@ == self.model().membership()
        &&& self.model().inv()
    }

    /// The empty engine state.
    pub fn new() -> (s: ClusterState)
        ensures
            s.wf(),
            s.model() == Model::init(),
    {
        let s = ClusterState {
            last_id: None,
            last_timestamp: None,
            last_column_id: None,
            cluster: Vec::new(),
            cluster_ids: HashSet::new(),
            recent_ids: VecDeque::new(),
        };
        proof {
            assert(s.cluster@.to_set() =~= Set::<u64>::empty());
        }
        s
    }

    /// Whether `id` sits in the recent-history dedup window.
    pub fn recent_contains(&self, id: u64) -> (r: bool)
        ensures
            r == self.model().recent_duplicate(id),
    {
        let n = self.recent_ids.len();
        let mut i: usize = 0;
        while i < n
            invariant
                n == self.recent_ids@.len(),
                0 <= i <= n,
                forall|j: int| 0 <= j < i ==> self.recent_ids@[j] != id,
            decreases n - i,
        {
            if self.recent_ids[i] == id {
                proof {
                    assert(self.recent_ids@[i as int] == id);
                }
                return true;
            }
            i += 1;
        }
        false
    }

    /// Processes one decoded window event with arrival timestamp `ts` (in
    /// milliseconds, from a clock that never runs backwards), updates the
    /// state exactly as `step` says, and returns the caller's obligation
    /// exactly as `step_outcome` says.
    pub fn process_event(&mut self, ev: WindowEvent, ts: u128) -> (out: Outcome)
        requires
            old(self).wf(),
            old(self).model().last_timestamp matches Some(t) ==> t <= ts,
        ensures
            final(self).wf(),
            final(self).model() == step(old(self).model(), ev.id, ev.column_position, ts),
            out.model() == step_outcome(old(self).model(), ev.id, ev.column_position, ts),
    {
        let id = ev.id;

        // Immediate-duplicate filter: no state change at all.
        if let Some(last) = self.last_id {
            if last == id {
                return Outcome::DuplicateLast;
            }
        }
        self.last_id = Some(id);

        // Recent-history filter: the burst timer stays where it is.
        if self.recent_contains(id) {
            return Outcome::RecentDuplicate;
        }

        // Record the id in the history, evicting the oldest past capacity.
        let ghost recent_before = self.recent_ids@;
        self.recent_ids.push_back(id);
        if self.recent_ids.len() > RECENT_IDS_LIMIT {
            self.recent_ids.pop_front();
        }
        proof {
            assert(self.recent_ids@ == history_after(recent_before, id));
            lemma_history_after_distinct(recent_before, id);
        }

        // Elapsed time since the last timing candidate.
        let within = match self.last_timestamp {
            Some(t) => ts - t <= THRESHOLD_MS,
            None => false,
        };
        self.last_timestamp = Some(ts);

        if within {
            // Same column as the burst start: already consolidated, no action.
            if let Some((column_id, _)) = ev.column_position {
                if let Some(last_col) = self.last_column_id {
                    if column_id == last_col {
                        return Outcome::SameColumn;
                    }
                }
            }
            // Join the burst unless already a member.
            if self.cluster_ids.insert(id) {
                proof {
                    lemma_push_to_set(self.cluster@, id);
                    lemma_push_distinct(self.cluster@, id);
                }
                self.cluster.push(id);
                Outcome::Joined
            } else {
                proof {
                    assert(self.cluster_ids@ =~= self.cluster@.to_set());
                }
                Outcome::AlreadyInCluster
            }
        } else {
            // Burst boundary: close the previous cluster and seed a new one.
            let mut prev: Vec<u64> = Vec::new();
            core::mem::swap(&mut prev, &mut self.cluster);
            self.cluster.push(id);
            self.cluster_ids.clear();
            self.cluster_ids.insert(id);
            self.last_column_id = match ev.column_position {
                Some((column_id, _)) => Some(column_id),
                None => None,
            };
            proof {
                assert(self.cluster@ =~= seq![id]);
                lemma_push_to_set(Seq::<u64>::empty(), id);
                assert(Seq::<u64>::empty().to_set() =~= Set::<u64>::empty());
                assert(self.cluster_ids@ =~= self.cluster@.to_set());
            }
            let report = if prev.len() > 1 {
                Some(prev)
            } else {
                None
            };
            Outcome::Boundary(report)
        }
    }
}

/// Law: a consecutive repeat of the most recently accepted id is collapsed
/// with zero state mutation, whatever its column or arrival time.
pub proof fn lemma_immediate_duplicate_collapsed(
    m: Model,
    id: u64,
    column_position: Option<(usize, usize)>,
    ts: u128,
)
    requires
        m.immediate_duplicate(id),
    ensures
        step(m, id, column_position, ts) == m,
        step_outcome(m, id, column_position, ts) == OutcomeModel::DuplicateLast,
{
}

/// Law: an id found in the recent history is discarded without moving the
/// burst timer; only `last_id` is set, and it was already distinct from `id`.
pub proof fn lemma_recent_duplicate_keeps_timer(
    m: Model,
    id: u64,
    column_position: Option<(usize, usize)>,
    ts: u128,
)
    requires
        !m.immediate_duplicate(id),
        m.recent_duplicate(id),
    ensures
        step(m, id, column_position, ts).last_timestamp == m.last_timestamp,
        step(m, id, column_position, ts).last_column_id == m.last_column_id,
        step(m, id, column_position, ts).cluster == m.cluster,
        step(m, id, column_position, ts).recent == m.recent,
        step(m, id, column_position, ts).last_id == Some(id),
        step_outcome(m, id, column_position, ts) == OutcomeModel::RecentDuplicate,
{
}

/// Law: an accepted event in the column the current burst started in, within
/// the threshold, neither extends the cluster nor asks for a dispatch.
pub proof fn lemma_same_column_skipped(
    m: Model,
    id: u64,
    column_position: Option<(usize, usize)>,
    ts: u128,
)
    requires
        !m.immediate_duplicate(id),
        !m.recent_duplicate(id),
        m.within_threshold(ts),
        m.same_column(column_position),
    ensures
        step(m, id, column_position, ts).cluster == m.cluster,
        step(m, id, column_position, ts).last_column_id == m.last_column_id,
        step_outcome(m, id, column_position, ts) == OutcomeModel::SameColumn,
{
}

/// Law: a window id is dispatched at most once per burst: while it is a
/// member of the open cluster, no event with that id asks for a dispatch.
pub proof fn lemma_dispatch_at_most_once_per_burst(
    m: Model,
    id: u64,
    column_position: Option<(usize, usize)>,
    ts: u128,
)
    requires
        m.membership().contains(id),
    ensures
        !(step_outcome(m, id, column_position, ts) is Joined),
{
}

/// Law: the burst reporter fires exactly at a boundary whose closing cluster
/// has more than one member, and then reports that cluster; a lone opening id
/// seeds the new cluster and is never itself a dispatch target.
pub proof fn lemma_report_iff_more_than_one(
    m: Model,
    id: u64,
    column_position: Option<(usize, usize)>,
    ts: u128,
)
    requires
        !m.immediate_duplicate(id),
        !m.recent_duplicate(id),
    ensures
        step_outcome(m, id, column_position, ts) is Boundary <==> !m.within_threshold(ts),
        step_outcome(m, id, column_position, ts) matches OutcomeModel::Boundary(r) ==> {
            &&& r is Some <==> m.cluster.len() > 1
            &&& (r is Some ==> r == Some(m.cluster))
            &&& step(m, id, column_position, ts).cluster == seq![id]
        },
{
}

/// Law: after any step, the event's id is the most recently accepted id, so a
/// consecutive repeat of it in any event sequence is collapsed by
/// `lemma_immediate_duplicate_collapsed`.
pub proof fn lemma_step_sets_last_id(
    m: Model,
    id: u64,
    column_position: Option<(usize, usize)>,
    ts: u128,
)
    ensures
        step(m, id, column_position, ts).last_id == Some(id),
{
}

/// Law: in any event sequence, an event that repeats the id of the event just
/// processed is collapsed, whatever its own column or arrival time: the two
/// steps end where the first one ended.
pub proof fn lemma_consecutive_identical_ids_collapse(
    m: Model,
    id: u64,
    first_column: Option<(usize, usize)>,
    first_ts: u128,
    repeat_column: Option<(usize, usize)>,
    repeat_ts: u128,
)
    ensures
        step(step(m, id, first_column, first_ts), id, repeat_column, repeat_ts) == step(
            m,
            id,
            first_column,
            first_ts,
        ),
        step_outcome(step(m, id, first_column, first_ts), id, repeat_column, repeat_ts)
            == OutcomeModel::DuplicateLast,
{
    lemma_step_sets_last_id(m, id, first_column, first_ts);
    lemma_immediate_duplicate_collapsed(
        step(m, id, first_column, first_ts),
        id,
        repeat_column,
        repeat_ts,
    );
}

/// Law: every step preserves the state invariant.
pub proof fn lemma_step_preserves_inv(
    m: Model,
    id: u64,
    column_position: Option<(usize, usize)>,
    ts: u128,
)
    requires
        m.inv(),
    ensures
        step(m, id, column_position, ts).inv(),
{
    if !m.immediate_duplicate(id) && !m.recent_duplicate(id) {
        lemma_history_after_distinct(m.recent, id);
        if m.within_threshold(ts) && !m.same_column(column_position) && !m.cluster.contains(id) {
            lemma_push_distinct(m.cluster, id);
        }
    }
}

/// Law: the burst timer never moves backwards under a monotonic clock.
pub proof fn lemma_timer_monotonic(
    m: Model,
    id: u64,
    column_position: Option<(usize, usize)>,
    ts: u128,
)
    requires
        m.last_timestamp matches Some(t) ==> t <= ts,
    ensures
        m.last_timestamp matches Some(t0) ==> (step(m, id, column_position, ts).last_timestamp
            matches Some(t1) && t0 <= t1),
{
}

/// Pushing a fresh element keeps a sequence duplicate-free.
proof fn lemma_push_distinct(s: Seq<u64>, id: u64)
    requires
        s.no_duplicates(),
        !s.contains(id),
    ensures
        s.push(id).no_duplicates(),
{
    let p = s.push(id);
    assert forall|i: int, j: int| 0 <= i < p.len() && 0 <= j < p.len() && i != j implies p[i]
        != p[j] by {
        if i < s.len() && j < s.len() {
        } else if j == s.len() {
            assert(p[i] == s[i]);
        } else {
            assert(p[j] == s[j]);
        }
    }
}

/// Appending to the set view commutes with pushing to the sequence.
proof fn lemma_push_to_set(s: Seq<u64>, id: u64)
    ensures
        s.push(id).to_set() == s.to_set().insert(id),
{
    let p = s.push(id);
    assert forall|x: u64| p.to_set().contains(x) implies s.to_set().insert(id).contains(x) by {
        let i = choose|i: int| 0 <= i < p.len() && p[i] == x;
        if i < s.len() {
            assert(s[i] == x);
        }
    }
    assert forall|x: u64| s.to_set().insert(id).contains(x) implies p.to_set().contains(x) by {
        if x == id {
            assert(p[s.len() as int] == x);
        } else {
            let i = choose|i: int| 0 <= i < s.len() && s[i] == x;
            assert(p[i] == x);
        }
    }
    assert(p.to_set() =~= s.to_set().insert(id));
}

/// The recent history stays duplicate-free and within capacity.
proof fn lemma_history_after_distinct(recent: Seq<u64>, id: u64)
    requires
        recent.no_duplicates(),
        recent.len() <= RECENT_IDS_LIMIT,
        !recent.contains(id),
    ensures
        history_after(recent, id).no_duplicates(),
        history_after(recent, id).len() <= RECENT_IDS_LIMIT,
{
    lemma_push_distinct(recent, id);
    let p = recent.push(id);
    let h = history_after(recent, id);
    if p.len() > RECENT_IDS_LIMIT {
        assert forall|i: int, j: int|
            0 <= i < h.len() && 0 <= j < h.len() && i != j implies h[i] != h[j] by {
            assert(h[i] == p[i + 1]);
            assert(h[j] == p[j + 1]);
        }
    }
}

} // verus!
