use rotating_table::motor::{pattern_for, CoilPattern};

fn as_bools(p: CoilPattern) -> [bool; 4] {
    [p.in1, p.in2, p.in3, p.in4]
}

#[test]
fn pattern_cycle_matches_half_step_table() {
    let expected: [[bool; 4]; 8] = [
        [true, false, false, true],
        [true, false, false, false],
        [true, true, false, false],
        [false, true, false, false],
        [false, true, true, false],
        [false, false, true, false],
        [false, false, true, true],
        [false, false, false, true],
    ];
    for k in 0..8u64 {
        assert_eq!(as_bools(pattern_for(k)), expected[k as usize]);
    }
}

#[test]
fn pattern_index_reduced_modulo_cycle() {
    assert_eq!(pattern_for(8), pattern_for(0));
    assert_eq!(pattern_for(11), pattern_for(3));
    assert_eq!(pattern_for(4096), pattern_for(0));
    assert_eq!(pattern_for(u64::MAX), pattern_for(u64::MAX % 8));
}

#[test]
fn adjacent_patterns_change_one_coil() {
    for k in 0..8u64 {
        let a = as_bools(pattern_for(k));
        let b = as_bools(pattern_for(k + 1));
        let changed = (0..4).filter(|&i| a[i] != b[i]).count();
        assert_eq!(changed, 1);
    }
}
