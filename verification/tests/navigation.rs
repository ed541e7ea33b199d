use ytui_core::navigation::{advance_index, get_page, HeadTo};

#[test]
fn advance_index_next_steps_and_wraps() {
    assert_eq!(advance_index(0, 3, HeadTo::Next), 1);
    assert_eq!(advance_index(1, 3, HeadTo::Next), 2);
    assert_eq!(advance_index(2, 3, HeadTo::Next), 0);
}

#[test]
fn advance_index_prev_steps_and_wraps() {
    assert_eq!(advance_index(2, 3, HeadTo::Prev), 1);
    assert_eq!(advance_index(1, 3, HeadTo::Prev), 0);
    assert_eq!(advance_index(0, 3, HeadTo::Prev), 2);
}

#[test]
fn advance_index_initial_stays() {
    assert_eq!(advance_index(1, 3, HeadTo::Initial), 1);
    assert_eq!(advance_index(0, 7, HeadTo::Initial), 0);
}

#[test]
fn advance_index_empty_list_yields_zero() {
    assert_eq!(advance_index(0, 0, HeadTo::Next), 0);
    assert_eq!(advance_index(5, 0, HeadTo::Prev), 0);
    assert_eq!(advance_index(9, 0, HeadTo::Initial), 0);
}

#[test]
fn advance_index_stays_in_range() {
    for limit in 1..6usize {
        for current in 0..limit {
            let next = advance_index(current, limit, HeadTo::Next);
            let prev = advance_index(current, limit, HeadTo::Prev);
            assert!(next < limit);
            assert!(prev < limit);
        }
    }
}

#[test]
fn advance_index_next_then_prev_returns() {
    for limit in 1..6usize {
        for current in 0..limit {
            let forward = advance_index(current, limit, HeadTo::Next);
            assert_eq!(advance_index(forward, limit, HeadTo::Prev), current);
        }
    }
}

#[test]
fn advance_index_full_cycle_returns() {
    for start in 0..4usize {
        let mut current = start;
        for _ in 0..4 {
            current = advance_index(current, 4, HeadTo::Next);
        }
        assert_eq!(current, start);
    }
}

#[test]
fn get_page_none_yields_zero() {
    assert_eq!(get_page(&None, HeadTo::Next), 0);
    assert_eq!(get_page(&None, HeadTo::Prev), 0);
    assert_eq!(get_page(&None, HeadTo::Initial), 0);
}

#[test]
fn get_page_next_increments() {
    assert_eq!(get_page(&Some(0), HeadTo::Next), 1);
    assert_eq!(get_page(&Some(3), HeadTo::Next), 4);
}

#[test]
fn get_page_prev_saturates_at_zero() {
    assert_eq!(get_page(&Some(3), HeadTo::Prev), 2);
    assert_eq!(get_page(&Some(1), HeadTo::Prev), 0);
    assert_eq!(get_page(&Some(0), HeadTo::Prev), 0);
}

#[test]
fn get_page_initial_restarts() {
    assert_eq!(get_page(&Some(7), HeadTo::Initial), 0);
}
