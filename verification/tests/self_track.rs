use seq_backend_eql::{SelfTracker, SpawnRouting, StatSync, SAME_BATCH};

const ME: &str = "Testchar";

fn wide(spawn_id: u32, hp: (i64, i64), mana: (i64, i64), end: (i64, i64)) -> StatSync {
    StatSync {
        spawn_id,
        wide: true,
        has_hp: true,
        hp_cur: hp.0,
        hp_max: hp.1,
        has_mana: true,
        mana_cur: mana.0,
        mana_max: mana.1,
        has_end: true,
        end_cur: end.0,
        end_max: end.1,
    }
}

fn keepalive(spawn_id: u32) -> StatSync {
    StatSync { spawn_id, wide: true, ..StatSync::default() }
}

#[test]
fn adopts_the_first_self_record_and_twins_the_second() {
    let mut t = SelfTracker::new();
    assert_eq!(t.observe_spawn(ME, ME, 5893), SpawnRouting::AdoptSelf);
    assert_eq!(t.self_id(), 5893);
    assert_eq!(t.observe_spawn(ME, ME, 5906), SpawnRouting::SelfTwin);
    assert_eq!(t.self_id(), 5893, "movement id must not be re-homed by the twin");
    assert_eq!(t.alt_id(), 5906);
    assert!(t.is_self(5893) && t.is_self(5906));
}

#[test]
fn other_spawns_are_not_self() {
    let mut t = SelfTracker::new();
    t.observe_spawn(ME, ME, 5893);
    assert_eq!(t.observe_spawn(ME, "Someoneelse", 5901), SpawnRouting::NotSelf);
    assert!(!t.is_self(5901));
}

#[test]
fn a_distant_id_re_homes_rather_than_twinning() {
    let mut t = SelfTracker::new();
    t.observe_spawn(ME, ME, 5893);
    t.observe_spawn(ME, ME, 5906);
    assert_eq!(t.observe_spawn(ME, ME, 12636), SpawnRouting::AdoptSelf);
    assert_eq!(t.self_id(), 12636);
    assert_eq!(t.alt_id(), 0, "the previous zone's twin must not linger");
    assert!(!t.is_self(5906));
}

#[test]
fn stats_on_the_twin_id_are_ours() {
    let mut t = SelfTracker::new();
    t.observe_spawn(ME, ME, 5893);
    t.observe_spawn(ME, ME, 5906);
    let got = t.observe_stat_sync(&wide(5906, (4023, 4265), (1780, 4170), (1138, 2976)));
    assert!(got.is_self);
    assert_eq!((got.hp_max, got.mana_max, got.end_max), (4265, 4170, 2976));
}

#[test]
fn vitals_arriving_before_the_twin_record_are_replayed() {
    let mut t = SelfTracker::new();
    assert_eq!(t.observe_spawn(ME, ME, 5893), SpawnRouting::AdoptSelf);
    let early = t.observe_stat_sync(&wide(5906, (4023, 4265), (1780, 4170), (1138, 2976)));
    assert!(!early.is_self, "cannot be attributed yet");
    assert!(!t.observe_stat_sync(&keepalive(5906)).any());
    assert_eq!(t.observe_spawn(ME, ME, 5906), SpawnRouting::SelfTwin);
    let held = t.take_pending_vitals();
    assert!(held.is_self && held.any());
    assert_eq!((held.hp_cur, held.hp_max), (4023, 4265));
    assert_eq!((held.mana_cur, held.mana_max), (1780, 4170));
    assert_eq!((held.end_cur, held.end_max), (1138, 2976));
    assert!(!t.take_pending_vitals().any());
}

#[test]
fn held_vitals_are_not_applied_to_an_unrelated_id() {
    let mut t = SelfTracker::new();
    t.observe_spawn(ME, ME, 5893);
    t.observe_stat_sync(&wide(5906, (10, 20), (30, 40), (50, 60)));
    assert_eq!(t.observe_spawn(ME, "Neighbour", 5901), SpawnRouting::NotSelf);
    assert!(!t.take_pending_vitals().any());
}

#[test]
fn distant_ids_are_never_held() {
    let mut t = SelfTracker::new();
    t.observe_spawn(ME, ME, 5893);
    t.observe_stat_sync(&wide(1002, (540, 668), (381, 410), (524, 524)));
    t.observe_spawn(ME, ME, 5906);
    assert!(!t.take_pending_vitals().any());
}

#[test]
fn keepalives_never_overwrite_held_vitals() {
    let mut t = SelfTracker::new();
    t.observe_spawn(ME, ME, 5893);
    t.observe_stat_sync(&wide(5906, (4023, 4265), (1780, 4170), (1138, 2976)));
    t.observe_stat_sync(&keepalive(5906));
    t.observe_spawn(ME, ME, 5906);
    assert_eq!(t.take_pending_vitals().hp_max, 4265);
}

#[test]
fn reset_clears_everything() {
    let mut t = SelfTracker::new();
    t.observe_spawn(ME, ME, 5893);
    t.observe_stat_sync(&wide(5906, (1, 2), (3, 4), (5, 6)));
    t.reset();
    assert_eq!(t.self_id(), 0);
    assert_eq!(t.alt_id(), 0);
    assert!(!t.is_self(5893));
    t.observe_spawn(ME, ME, 5906);
    assert!(!t.take_pending_vitals().any(), "pre-reset vitals must not survive");
}

#[test]
fn nothing_matches_before_the_profile_names_us() {
    let mut t = SelfTracker::new();
    assert_eq!(t.observe_spawn("", ME, 5893), SpawnRouting::NotSelf);
    assert_eq!(t.self_id(), 0);
    assert!(!t.observe_stat_sync(&wide(5893, (1, 2), (3, 4), (5, 6))).is_self);
}

#[test]
fn the_batch_window_is_inclusive_at_its_edge() {
    let mut t = SelfTracker::new();
    t.observe_spawn(ME, ME, 1000);
    assert_eq!(t.observe_spawn(ME, ME, 1000 + SAME_BATCH), SpawnRouting::SelfTwin);
    assert_eq!(t.observe_spawn(ME, ME, 1000 + SAME_BATCH + 1), SpawnRouting::AdoptSelf);
}

#[test]
fn a_re_announce_of_the_adopted_id_is_a_twin_without_an_alt() {
    let mut t = SelfTracker::new();
    t.observe_spawn(ME, ME, 77);
    assert_eq!(t.observe_spawn(ME, ME, 77), SpawnRouting::SelfTwin);
    assert_eq!(t.alt_id(), 0);
}

#[test]
fn a_zero_spawn_id_is_never_self() {
    let mut t = SelfTracker::new();
    assert_eq!(t.observe_spawn(ME, ME, 0), SpawnRouting::NotSelf);
    assert!(!t.is_self(0));
}

#[test]
fn a_re_home_drops_vitals_held_for_the_old_zone() {
    let mut t = SelfTracker::new();
    t.observe_spawn(ME, ME, 100);
    t.observe_stat_sync(&wide(110, (1, 2), (3, 4), (5, 6)));
    assert_eq!(t.observe_spawn(ME, ME, 5000), SpawnRouting::AdoptSelf);
    t.observe_spawn(ME, ME, 5010);
    assert!(!t.take_pending_vitals().any());
}
