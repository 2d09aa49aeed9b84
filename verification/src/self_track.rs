//! Cross-packet session identity: which spawn id is "us".
//!
//! Legends announces the local player's `OP_ZoneEntry` twice per zone: a live
//! copy that moves, and a static phantom a few ids higher. Movement is keyed
//! to the first id, profile/buff/stat data to the second, and the stat-sync
//! packet carrying the real maxima may arrive before the phantom's record. The
//! tracker therefore holds the id pair and the newest wide vitals seen for a
//! plausible, not yet resolved twin id; once that id resolves as ours the host
//! drains them with [`SelfTracker::take_pending_vitals`].
use vstd::prelude::*;
use crate::stat_sync::StatSync;
use crate::text::str_eq;

verus! {

/// The live copy and its phantom twin are issued in one batch, so their ids
/// sit within a few of each other; a stale id from a previous zone is far off.
pub const SAME_BATCH: u32 = 16;

/// What a self-named `OP_ZoneEntry` record means for the caller.
#[derive(Debug, Clone, Copy, PartialEq, Eq, Structural)]
pub enum SpawnRouting {
    /// Not the local player: hand it to the spawn list as normal.
    NotSelf,
    /// The live, moving copy: adopt as the player's id.
    AdoptSelf,
    /// The phantom twin (or a re-announce of the adopted id): swallow it, but
    /// remember the id, since the player's stats are keyed to it.
    SelfTwin,
}

/// One stat-sync packet's verdict. `is_self` false means the packet belongs
/// to some other spawn; the `has_*` flags matter only when it is true.
#[derive(Debug, Clone, Copy, PartialEq, Eq, Structural)]
pub struct SelfStat {
    pub is_self: bool,
    pub has_hp: bool,
    pub hp_cur: i64,
    pub hp_max: i64,
    pub has_mana: bool,
    pub mana_cur: i64,
    pub mana_max: i64,
    pub has_end: bool,
    pub end_cur: i64,
    pub end_max: i64,
}

/// The verdict that carries nothing: not ours, no stat.
pub open spec fn no_stat() -> SelfStat {
    SelfStat {
        is_self: false,
        has_hp: false,
        hp_cur: 0,
        hp_max: 0,
        has_mana: false,
        mana_cur: 0,
        mana_max: 0,
        has_end: false,
        end_cur: 0,
        end_max: 0,
    }
}

/// A stat-sync packet's vitals, marked as ours or not.
pub open spec fn stat_of(s: StatSync, is_self: bool) -> SelfStat {
    SelfStat {
        is_self,
        has_hp: s.has_hp,
        hp_cur: s.hp_cur,
        hp_max: s.hp_max,
        has_mana: s.has_mana,
        mana_cur: s.mana_cur,
        mana_max: s.mana_max,
        has_end: s.has_end,
        end_cur: s.end_cur,
        end_max: s.end_max,
    }
}

impl SelfStat {
    /// At least one stat is carried.
    pub open spec fn carries_any(self) -> bool {
        self.has_hp || self.has_mana || self.has_end
    }

    /// True when at least one stat is carried. A wide packet with no stat
    /// bits set is the periodic keepalive and updates nothing.
    pub fn any(&self) -> (r: bool)
        ensures
            r == self.carries_any(),
    {
        self.has_hp || self.has_mana || self.has_end
    }

    fn from_stat_sync(s: &StatSync, is_self: bool) -> (r: Self)
        ensures
            r == stat_of(*s, is_self),
    {
        SelfStat {
            is_self,
            has_hp: s.has_hp,
            hp_cur: s.hp_cur,
            hp_max: s.hp_max,
            has_mana: s.has_mana,
            mana_cur: s.mana_cur,
            mana_max: s.mana_max,
            has_end: s.has_end,
            end_cur: s.end_cur,
            end_max: s.end_max,
        }
    }
}

impl Default for SelfStat {
    fn default() -> (r: Self)
        ensures
            r == no_stat(),
    {
        SelfStat {
            is_self: false,
            has_hp: false,
            hp_cur: 0,
            hp_max: 0,
            has_mana: false,
            mana_cur: 0,
            mana_max: 0,
            has_end: false,
            end_cur: 0,
            end_max: 0,
        }
    }
}

/// The tracker's state: the adopted id, its twin, and vitals held for a
/// plausible twin id (0 meaning "none" for either id).
pub struct TrackerState {
    pub self_id: u32,
    pub alt_id: u32,
    pub pending: Option<(u32, SelfStat)>,
}

/// `|a - b|`.
pub open spec fn id_distance(a: u32, b: u32) -> int {
    if a >= b {
        a - b
    } else {
        b - a
    }
}

/// The state of a fresh tracker.
pub open spec fn fresh() -> TrackerState {
    TrackerState { self_id: 0, alt_id: 0, pending: None }
}

/// `id` counts as the player: nonzero and one of the two ids.
pub open spec fn is_self_in(st: TrackerState, id: u32) -> bool {
    id != 0 && (id == st.self_id || id == st.alt_id)
}

/// `id` is close enough to the adopted id to be its unresolved twin.
pub open spec fn twin_candidate(st: TrackerState, id: u32) -> bool {
    st.self_id != 0 && id != 0 && id_distance(id, st.self_id) <= SAME_BATCH
}

/// The effect of one `OP_ZoneEntry` record, with the names as characters.
pub open spec fn spawn_step(
    st: TrackerState,
    player_name: Seq<char>,
    spawn_name: Seq<char>,
    spawn_id: u32,
) -> (TrackerState, SpawnRouting) {
    if spawn_id == 0 || player_name.len() == 0 || spawn_name.len() == 0 || spawn_name
        != player_name {
        (st, SpawnRouting::NotSelf)
    } else if st.self_id == 0 || id_distance(spawn_id, st.self_id) > SAME_BATCH {
        let keep = match st.pending {
            Some((id, _)) => id == spawn_id,
            None => false,
        };
        (
            TrackerState {
                self_id: spawn_id,
                alt_id: 0,
                pending: if keep {
                    st.pending
                } else {
                    None
                },
            },
            SpawnRouting::AdoptSelf,
        )
    } else if spawn_id != st.self_id {
        (TrackerState { alt_id: spawn_id, ..st }, SpawnRouting::SelfTwin)
    } else {
        (st, SpawnRouting::SelfTwin)
    }
}

/// The effect of one decoded stat-sync packet.
pub open spec fn stat_step(st: TrackerState, s: StatSync) -> (TrackerState, SelfStat) {
    if is_self_in(st, s.spawn_id) {
        (st, stat_of(s, true))
    } else if s.wide && twin_candidate(st, s.spawn_id) && stat_of(s, true).carries_any() {
        (TrackerState { pending: Some((s.spawn_id, stat_of(s, true))), ..st }, no_stat())
    } else {
        (st, no_stat())
    }
}

/// The effect of draining the held vitals.
pub open spec fn take_step(st: TrackerState) -> (TrackerState, SelfStat) {
    match st.pending {
        Some((id, v)) => if is_self_in(st, id) {
            (TrackerState { pending: None, ..st }, v)
        } else {
            (st, no_stat())
        },
        None => (st, no_stat()),
    }
}

/// What every reachable state satisfies: a twin sits within the batch window
/// of a nonzero adopted id, and held vitals are ours-marked, non-empty, and
/// keyed to a nonzero id within the window.
pub open spec fn tracker_wf(st: TrackerState) -> bool {
    &&& st.alt_id != 0 ==> st.self_id != 0 && st.alt_id != st.self_id && id_distance(
        st.alt_id,
        st.self_id,
    ) <= SAME_BATCH
    &&& match st.pending {
        Some((id, v)) => {
            &&& id != 0
            &&& st.self_id != 0
            &&& id_distance(id, st.self_id) <= SAME_BATCH
            &&& v.is_self
            &&& v.carries_any()
        },
        None => true,
    }
}

/// Tracks the local player's id pair for one session, and holds vitals that
/// arrived before the id carrying them could be resolved.
///
/// Reset it wherever the host severs the self-id: zone change, re-entry to
/// the world, and the player's own death all issue a fresh id.
#[derive(Debug)]
pub struct SelfTracker {
    self_id: u32,
    alt_id: u32,
    /// `(spawn_id, vitals)` for a wide packet whose id was a plausible twin
    /// not yet known to be ours. At most one: the newest wins, since these are
    /// absolute snapshots rather than deltas.
    pending: Option<(u32, SelfStat)>,
}

impl View for SelfTracker {
    type V = TrackerState;

    closed spec fn view(&self) -> TrackerState {
        TrackerState { self_id: self.self_id, alt_id: self.alt_id, pending: self.pending }
    }
}

fn abs_diff(a: u32, b: u32) -> (r: u32)
    ensures
        r == id_distance(a, b),
{
    if a >= b {
        a - b
    } else {
        b - a
    }
}

impl SelfTracker {
    /// Every tracker is well formed: the only ways to make or change one are
    /// the operations below, and each of them keeps `tracker_wf`.
    #[verifier::type_invariant]
    spec fn well_formed(self) -> bool {
        tracker_wf(self@)
    }

    pub fn new() -> (t: Self)
        ensures
            t@ == fresh(),
    {
        SelfTracker { self_id: 0, alt_id: 0, pending: None }
    }

    /// Forget the session's identity, held vitals included: a new zone
    /// re-announces both records, and a previous zone's vitals could land on
    /// a recycled id.
    pub fn reset(&mut self)
        ensures
            final(self)@ == fresh(),
    {
        *self = SelfTracker::new();
    }

    /// The adopted (movement) id, or 0 if not yet resolved.
    pub fn self_id(&self) -> (r: u32)
        ensures
            r == self@.self_id,
    {
        self.self_id
    }

    /// The phantom twin id that stats, profile and buffs are keyed to, or 0.
    /// A twin is only ever recorded beside a different, nonzero adopted id
    /// at most `SAME_BATCH` away.
    pub fn alt_id(&self) -> (r: u32)
        ensures
            r == self@.alt_id,
            r != 0 ==> self@.self_id != 0 && r != self@.self_id && id_distance(r, self@.self_id)
                <= SAME_BATCH,
            tracker_wf(self@),
    {
        proof {
            use_type_invariant(self);
        }
        self.alt_id
    }

    /// Either id counts as the player.
    pub fn is_self(&self, id: u32) -> (r: bool)
        ensures
            r == is_self_in(self@, id),
    {
        id != 0 && (id == self.self_id || id == self.alt_id)
    }

    fn is_twin_candidate(&self, id: u32) -> (r: bool)
        ensures
            r == twin_candidate(self@, id),
    {
        self.self_id != 0 && id != 0 && abs_diff(id, self.self_id) <= SAME_BATCH
    }

    /// Classify an `OP_ZoneEntry` record. `player_name` is the host's
    /// authoritative character name; an empty name on either side never
    /// matches, so records seen before the profile lands are not ours.
    pub fn observe_spawn(&mut self, player_name: &str, spawn_name: &str, spawn_id: u32) -> (r:
        SpawnRouting)
        ensures
            (final(self)@, r) == spawn_step(old(self)@, player_name@, spawn_name@, spawn_id),
    {
        proof {
            use_type_invariant(&*self);
        }
        if spawn_id == 0 || player_name.is_empty() || spawn_name.is_empty() || !str_eq(
            spawn_name,
            player_name,
        ) {
            return SpawnRouting::NotSelf;
        }
        if self.self_id == 0 || abs_diff(spawn_id, self.self_id) > SAME_BATCH {
            let keep = match self.pending {
                Some((id, _)) => id == spawn_id,
                None => false,
            };
            let pending = if keep {
                self.pending
            } else {
                None
            };
            *self = SelfTracker { self_id: spawn_id, alt_id: 0, pending };
            return SpawnRouting::AdoptSelf;
        }
        if spawn_id != self.self_id {
            self.alt_id = spawn_id;
        }
        SpawnRouting::SelfTwin
    }

    /// Classify a decoded stat-sync packet. A plausible twin's wide vitals
    /// are held for later, and the packet is still reported as not ours, so
    /// the caller routes its HP to the spawn list as usual.
    pub fn observe_stat_sync(&mut self, s: &StatSync) -> (r: SelfStat)
        ensures
            (final(self)@, r) == stat_step(old(self)@, *s),
    {
        proof {
            use_type_invariant(&*self);
        }
        if self.is_self(s.spawn_id) {
            return SelfStat::from_stat_sync(s, true);
        }
        if s.wide && self.is_twin_candidate(s.spawn_id) {
            let v = SelfStat::from_stat_sync(s, true);
            if v.any() {
                self.pending = Some((s.spawn_id, v));
            }
        }
        SelfStat::default()
    }

    /// Drain vitals held for an id that has since been resolved as ours;
    /// the all-false verdict when there is nothing to apply.
    pub fn take_pending_vitals(&mut self) -> (r: SelfStat)
        ensures
            (final(self)@, r) == take_step(old(self)@),
    {
        proof {
            use_type_invariant(&*self);
        }
        if let Some((id, v)) = self.pending {
            if self.is_self(id) {
                self.pending = None;
                return v;
            }
        }
        SelfStat::default()
    }
}

impl Clone for SelfTracker {
    fn clone(&self) -> (t: Self)
        ensures
            t@ == self@,
    {
        proof {
            use_type_invariant(self);
        }
        SelfTracker { self_id: self.self_id, alt_id: self.alt_id, pending: self.pending }
    }
}

impl Default for SelfTracker {
    fn default() -> (t: Self)
        ensures
            t@ == fresh(),
    {
        SelfTracker::new()
    }
}

/// A fresh tracker is well formed, and every operation keeps a well-formed
/// tracker well formed.
pub proof fn lemma_tracker_wf_kept(
    st: TrackerState,
    player_name: Seq<char>,
    spawn_name: Seq<char>,
    spawn_id: u32,
    s: StatSync,
)
    requires
        tracker_wf(st),
    ensures
        tracker_wf(fresh()),
        tracker_wf(spawn_step(st, player_name, spawn_name, spawn_id).0),
        tracker_wf(stat_step(st, s).0),
        tracker_wf(take_step(st).0),
{
}

/// Draining is one-shot: right after a drain, a second drain yields nothing.
pub proof fn lemma_take_is_one_shot(st: TrackerState)
    ensures
        take_step(take_step(st).0).1 == no_stat(),
{
}

/// Held vitals are handed out only for an id that now counts as ours, and
/// then exactly as they were held.
pub proof fn lemma_take_only_for_self(st: TrackerState)
    ensures
        take_step(st).1 != no_stat() ==> (st.pending matches Some((id, v)) && is_self_in(st, id)
            && v == take_step(st).1),
{
}

/// The phantom twin never re-homes the movement id.
pub proof fn lemma_twin_keeps_movement_id(
    st: TrackerState,
    player_name: Seq<char>,
    spawn_name: Seq<char>,
    spawn_id: u32,
)
    ensures
        spawn_step(st, player_name, spawn_name, spawn_id).1 == SpawnRouting::SelfTwin
            ==> spawn_step(st, player_name, spawn_name, spawn_id).0.self_id == st.self_id,
{
}

/// A stat-sync packet is reported as ours exactly when its id is one of ours,
/// and then with the packet's own vitals.
pub proof fn lemma_stat_verdict(st: TrackerState, s: StatSync)
    ensures
        stat_step(st, s).1.is_self == is_self_in(st, s.spawn_id),
        is_self_in(st, s.spawn_id) ==> stat_step(st, s).1 == stat_of(s, true),
        !is_self_in(st, s.spawn_id) ==> stat_step(st, s).1 == no_stat(),
{
}

/// A packet that carries no stat (a keepalive) leaves the tracker as it was,
/// so it never overwrites held vitals.
pub proof fn lemma_keepalive_changes_nothing(st: TrackerState, s: StatSync)
    requires
        !stat_of(s, true).carries_any(),
    ensures
        stat_step(st, s).0 == st,
{
}

/// Vitals that arrive before the twin record naming their id are replayed:
/// wide vitals for a plausible twin, then that twin's self-named record, then
/// a drain hands back exactly those vitals, marked as ours.
pub proof fn lemma_early_vitals_replayed(st: TrackerState, s: StatSync, name: Seq<char>)
    requires
        tracker_wf(st),
        name.len() > 0,
        s.wide,
        twin_candidate(st, s.spawn_id),
        !is_self_in(st, s.spawn_id),
        stat_of(s, true).carries_any(),
    ensures
        stat_step(st, s).1 == no_stat(),
        spawn_step(stat_step(st, s).0, name, name, s.spawn_id).1 == SpawnRouting::SelfTwin,
        take_step(spawn_step(stat_step(st, s).0, name, name, s.spawn_id).0).1 == stat_of(s, true),
{
}

/// A fresh (or reset) tracker knows no id and holds nothing.
pub proof fn lemma_fresh_knows_nobody(id: u32)
    ensures
        !is_self_in(fresh(), id),
        take_step(fresh()).1 == no_stat(),
{
}

/// Vitals for an id that is neither ours nor a plausible twin are never held:
/// the tracker is left as it was.
pub proof fn lemma_distant_ids_never_held(st: TrackerState, s: StatSync)
    requires
        !is_self_in(st, s.spawn_id),
        !twin_candidate(st, s.spawn_id),
    ensures
        stat_step(st, s).0 == st,
{
}

/// Before the host knows the player's name (an empty name), no record is
/// ours and the tracker does not change.
pub proof fn lemma_unnamed_never_self(st: TrackerState, spawn_name: Seq<char>, spawn_id: u32)
    ensures
        spawn_step(st, Seq::empty(), spawn_name, spawn_id) == (st, SpawnRouting::NotSelf),
{
}

} // verus!
