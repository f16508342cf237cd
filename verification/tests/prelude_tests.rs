use libos::prelude::{align_down, align_up, unbox};

#[test]
fn align_down_rounds_to_lower_multiple() {
    assert_eq!(align_down(13, 4), 12);
    assert_eq!(align_down(4095, 4096), 0);
    assert_eq!(align_down(8193, 4096), 8192);
}

#[test]
fn align_up_rounds_to_upper_multiple() {
    assert_eq!(align_up(13, 4), 16);
    assert_eq!(align_up(1, 4096), 4096);
    assert_eq!(align_up(4097, 4096), 8192);
}

#[test]
fn aligned_addresses_stay() {
    assert_eq!(align_down(0, 8), 0);
    assert_eq!(align_up(0, 8), 0);
    assert_eq!(align_down(4096, 4096), 4096);
    assert_eq!(align_up(4096, 4096), 4096);
    assert_eq!(align_up(7, 1), 7);
    assert_eq!(align_down(7, 1), 7);
}

#[test]
fn align_up_is_next_multiple_after_align_down() {
    for addr in 0usize..100 {
        let down = align_down(addr, 16);
        let up = align_up(addr, 16);
        if addr % 16 == 0 {
            assert_eq!(up, down);
        } else {
            assert_eq!(up, down + 16);
        }
    }
}

#[test]
fn align_at_top_of_address_space() {
    assert_eq!(align_down(usize::MAX, 2), usize::MAX - 1);
    assert_eq!(align_up(usize::MAX - 1, 2), usize::MAX - 1);
}

#[test]
fn unbox_moves_value_out() {
    assert_eq!(unbox(Box::new(42u64)), 42);
    assert_eq!(unbox(Box::new(String::from("x"))), "x");
}
