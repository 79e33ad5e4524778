use efibootnext::heuristics_load_option_number_iter::HeuristicsLoadOptionNumberIter;
use std::collections::HashSet;

#[test]
fn loops_through_all_interesting_values() {
    let mut interesting_values: HashSet<u16> = HashSet::new();
    interesting_values.insert(0x0000);
    interesting_values.insert(0x0001);
    interesting_values.insert(0x0009);
    interesting_values.insert(0x0010);
    interesting_values.insert(0x9990);
    interesting_values.insert(0x9999);
    interesting_values.insert(0x999F);
    interesting_values.insert(0xFFFF);

    let mut inverse_interesting_values: HashSet<u16> = HashSet::new();
    inverse_interesting_values.insert(0x0025);

    let mut emitted_values: HashSet<u16> = HashSet::new();
    let mut iter = HeuristicsLoadOptionNumberIter::new();
    let mut iter_count = 0;
    while let Some(num) = iter.next() {
        iter_count += 1;
        interesting_values.remove(&num);
        assert!(
            emitted_values.insert(num),
            "{:#x} was emitted twice: {:?}",
            num,
            emitted_values
        );
        assert!(
            !inverse_interesting_values.contains(&num),
            "{:#x} was found in the output while it was not expected",
            num
        );
    }

    assert!(
        interesting_values.is_empty(),
        "not all interesing values were emitted: {:?}",
        interesting_values
    );

    let iter_count_limit = 30000;
    assert!(
        iter_count <= iter_count_limit,
        "too many interations, expected {} got {}",
        iter_count_limit,
        iter_count
    );
}

fn sweep() -> Vec<u16> {
    let mut iter = HeuristicsLoadOptionNumberIter::new();
    let mut out = Vec::new();
    while let Some(n) = iter.next() {
        out.push(n);
        assert!(out.len() <= 65536);
    }
    out
}

#[test]
fn sweep_covers_everything_but_the_gap_once() {
    let out = sweep();
    assert_eq!(out.len(), 0x21 + (0x10000 - 0x9980));
    let seen: HashSet<u16> = out.iter().copied().collect();
    assert_eq!(seen.len(), out.len());
    for v in 0..=u16::MAX {
        let in_gap = (0x0021..=0x997F).contains(&v);
        assert_eq!(seen.contains(&v), !in_gap, "slot {:#x}", v);
    }
    assert_eq!(out.first(), Some(&0x0000));
    assert_eq!(out.last(), Some(&0xFFFF));
}

#[test]
fn sweep_jumps_from_low_range_to_high_range() {
    let out = sweep();
    let at = out.iter().position(|&v| v == 0x0020).unwrap();
    assert_eq!(out[at + 1], 0x9980);
    assert_eq!(out[at - 1], 0x001F);
    let high = out.iter().position(|&v| v == 0x99FF).unwrap();
    assert_eq!(out[high + 1], 0x9A00);
}

#[test]
fn sweep_stays_done_after_the_last_slot() {
    let mut iter = HeuristicsLoadOptionNumberIter::new();
    let mut last = None;
    while let Some(n) = iter.next() {
        last = Some(n);
    }
    assert_eq!(last, Some(0xFFFF));
    assert_eq!(iter.next(), None);
    assert_eq!(iter.next(), None);
}
