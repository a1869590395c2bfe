use core_sim::branch_predictor::{BranchPredictor, SaturatingCounter, NUM_COUNTERS};
use core_sim::cache::{Cache, CACHE_NUM_LINES};
use core_sim::stat::{BranchStat, CacheStat, InstrStat};

#[test]
fn two_untaken_from_weakly_taken_reach_strongly_untaken() {
    let s = SaturatingCounter::WeaklyTaken;
    assert_eq!(s.prev(), SaturatingCounter::WeaklyUntaken);
    assert_eq!(s.prev().prev(), SaturatingCounter::StronglyUntaken);
    assert_eq!(s.prev().prev().prev(), SaturatingCounter::StronglyUntaken);
    assert_eq!(s.next(), SaturatingCounter::StronglyTaken);
    assert_eq!(s.next().next(), SaturatingCounter::StronglyTaken);
    assert_eq!(SaturatingCounter::StronglyUntaken.next(), SaturatingCounter::WeaklyUntaken);
    assert_eq!(SaturatingCounter::WeaklyUntaken.next(), SaturatingCounter::WeaklyTaken);
    assert_eq!(SaturatingCounter::StronglyTaken.prev(), SaturatingCounter::WeaklyTaken);
}

#[test]
fn the_predictor_is_indexed_modulo_its_size() {
    let mut p = BranchPredictor::<NUM_COUNTERS>::new();
    assert!(p.predict(12));
    p.update_state(12, false);
    assert!(!p.predict(12));
    assert!(!p.predict(12 + 64));
    assert!(p.predict(13));
    p.update_state(12 + 128, false);
    assert_eq!(p.state(12), SaturatingCounter::StronglyUntaken);
    p.update_state(12, true);
    p.update_state(12, true);
    assert!(p.predict(12));
    assert_eq!(p.state(12), SaturatingCounter::WeaklyTaken);
}

#[test]
fn the_branch_counters_sum_to_the_number_of_branches() {
    let mut s = BranchStat::default();
    let outcomes = [(true, true), (true, false), (false, true), (false, false), (true, true)];
    for (n, (p, a)) in outcomes.iter().enumerate() {
        s.update_stat(*p, *a);
        let sum = s.taken_pred_taken_count
            + s.taken_pred_untaken_count
            + s.untaken_pred_taken_count
            + s.untaken_pred_untaken_count;
        assert_eq!(sum, n + 1);
    }
    assert_eq!(s.taken_pred_taken_count, 2);
    assert_eq!(s.untaken_pred_taken_count, 1);
    assert_eq!(s.taken_pred_untaken_count, 1);
    assert_eq!(s.untaken_pred_untaken_count, 1);
}

#[test]
fn the_cache_maps_words_to_lines_and_tags() {
    let mut c = Cache::<CACHE_NUM_LINES>::new();
    // every line starts with tag 0
    assert!(c.access_cache(0));
    assert!(c.access_cache(4 * 100));
    let far = 4 * (3 * CACHE_NUM_LINES + 100);
    assert_eq!((far >> 2) % CACHE_NUM_LINES, 100);
    assert_eq!((far >> 2) / CACHE_NUM_LINES, 3);
    assert_eq!(far >> 2, 3 * 16384 + 100);
    assert!(!c.access_cache(far));
    assert!(c.access_cache(far));
    assert!(c.access_cache(far + 3));
    assert!(!c.access_cache(4 * 100));
    assert!(c.access_cache(4 * 101));
}

#[test]
fn cache_and_instruction_counters_count() {
    let mut c = CacheStat::default();
    c.update_stat(true);
    c.update_stat(false);
    c.update_stat(false);
    assert_eq!((c.hit_count, c.miss_count), (1, 2));
    let mut i = InstrStat::new();
    i.encounter(8);
    i.encounter(8);
    i.encounter(122);
    assert_eq!(i.count(8), 2);
    assert_eq!(i.count(122), 1);
    assert_eq!(i.count(0), 0);
    assert_eq!(i.total(), 3);
}
