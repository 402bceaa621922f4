use ownership_toolkit::cell_view::construct_view;
use ownership_toolkit::error::Error;
use ownership_toolkit::mixing::{mix, shift_right};

const ALTERNATING: u64 = 0x5555_5555_5555_5555;

#[test]
fn transform_of_zero_and_three_gives_one_and_two() {
    let mut buffer = [0u64, 3];
    {
        let mut view = construct_view(&mut buffer).unwrap();
        assert_eq!(view.transform(0, 1, 1, ALTERNATING), Ok(()));
        assert_eq!(view.get(0), Ok(1));
        assert_eq!(view.get(1), Ok(2));
    }
    assert_eq!(buffer, [1, 2]);
}

#[test]
fn the_mask_of_alternating_bits_is_a_third_of_the_largest_value() {
    assert_eq!(ALTERNATING, u64::MAX / 3);
}

#[test]
fn construction_leaves_the_buffer_as_it_was() {
    let mut buffer = [9u64, 8, 7, 6];
    {
        let view = construct_view(&mut buffer).unwrap();
        assert_eq!(view.len(), 4);
        assert_eq!(view.get(0), Ok(9));
        assert_eq!(view.get(3), Ok(6));
    }
    assert_eq!(buffer, [9, 8, 7, 6]);
}

#[test]
fn construction_over_an_empty_buffer_succeeds() {
    let mut buffer: [u64; 0] = [];
    let mut view = construct_view(&mut buffer).unwrap();
    assert_eq!(view.len(), 0);
    assert_eq!(view.get(0), Err(Error::IndexOutOfRange));
    assert_eq!(view.set(0, 1), Err(Error::IndexOutOfRange));
    assert_eq!(view.transform(0, 0, 0, u64::MAX), Err(Error::IndexOutOfRange));
}

#[test]
fn set_overwrites_one_cell_only() {
    let mut buffer = [1u64, 2, 3];
    {
        let mut view = construct_view(&mut buffer).unwrap();
        assert_eq!(view.set(1, 20), Ok(()));
        assert_eq!(view.get(1), Ok(20));
    }
    assert_eq!(buffer, [1, 20, 3]);
}

#[test]
fn every_index_from_the_length_on_is_out_of_range() {
    let mut buffer = [4u64, 5, 6];
    {
        let mut view = construct_view(&mut buffer).unwrap();
        for i in [3usize, 4, 100, usize::MAX] {
            assert_eq!(view.get(i), Err(Error::IndexOutOfRange));
            assert_eq!(view.set(i, 99), Err(Error::IndexOutOfRange));
            assert_eq!(view.transform(i, 0, 1, u64::MAX), Err(Error::IndexOutOfRange));
            assert_eq!(view.transform(0, i, 1, u64::MAX), Err(Error::IndexOutOfRange));
            assert_eq!(view.transform(i, i, 1, u64::MAX), Err(Error::IndexOutOfRange));
        }
        assert_eq!(view.get(2), Ok(6));
    }
    assert_eq!(buffer, [4, 5, 6]);
}

#[test]
fn a_failed_transform_writes_neither_cell() {
    let mut buffer = [0u64, 3];
    {
        let mut view = construct_view(&mut buffer).unwrap();
        assert_eq!(view.transform(0, 2, 1, ALTERNATING), Err(Error::IndexOutOfRange));
        assert_eq!(view.transform(2, 1, 1, ALTERNATING), Err(Error::IndexOutOfRange));
    }
    assert_eq!(buffer, [0, 3]);
}

#[test]
fn pairing_a_cell_with_itself_applies_the_step_once() {
    let a: u64 = 0b1011_0110;
    let shift: u32 = 2;
    let mask: u64 = 0b0011_1100;
    let expected = a ^ ((a ^ (a >> shift)) & mask);
    let mut buffer = [7u64, a, 7];
    {
        let mut view = construct_view(&mut buffer).unwrap();
        assert_eq!(view.transform(1, 1, shift, mask), Ok(()));
    }
    assert_eq!(buffer, [7, expected, 7]);
    assert_eq!(expected, 0b1010_1110);
    assert_ne!(expected, a);
}

#[test]
fn the_second_cell_takes_the_term_unshifted() {
    let mut buffer = [0u64, 2];
    {
        let mut view = construct_view(&mut buffer).unwrap();
        assert_eq!(view.transform(0, 1, 1, 1), Ok(()));
    }
    // t = (0 ^ (2 >> 1)) & 1 = 1; a swap would have put 2 ^ (1 << 1) = 0 into the second cell.
    assert_eq!(buffer, [1, 3]);
}

#[test]
fn the_order_of_the_indices_matters() {
    let mut forward = [8u64, 1];
    construct_view(&mut forward).unwrap().transform(0, 1, 3, u64::MAX).unwrap();
    // a = 8, b = 1: t = 8 ^ (1 >> 3) = 8
    assert_eq!(forward, [0, 9]);
    let mut backward = [8u64, 1];
    construct_view(&mut backward).unwrap().transform(1, 0, 3, u64::MAX).unwrap();
    // a = 1, b = 8: t = 1 ^ (8 >> 3) = 0
    assert_eq!(backward, [8, 1]);
}

#[test]
fn a_shift_by_the_width_or_more_moves_every_bit_out() {
    assert_eq!(shift_right(u64::MAX, 63), 1);
    assert_eq!(shift_right(u64::MAX, 64), 0);
    assert_eq!(shift_right(u64::MAX, 65), 0);
    assert_eq!(shift_right(u64::MAX, u32::MAX), 0);
    assert_eq!(shift_right(0xF0, 4), 0x0F);
    assert_eq!(shift_right(0xF0, 0), 0xF0);
    let mut buffer = [0b1100u64, u64::MAX];
    {
        let mut view = construct_view(&mut buffer).unwrap();
        assert_eq!(view.transform(0, 1, 64, 0b0110), Ok(()));
    }
    // the shifted operand is 0, so t = 0b1100 & 0b0110 = 0b0100
    assert_eq!(buffer, [0b1000, u64::MAX ^ 0b0100]);
}

#[test]
fn a_zero_mask_changes_nothing() {
    let mut buffer = [12u64, 34];
    construct_view(&mut buffer).unwrap().transform(0, 1, 5, 0).unwrap();
    assert_eq!(buffer, [12, 34]);
}

#[test]
fn mix_returns_both_operands_with_the_same_term() {
    assert_eq!(mix(0, 3, 1, ALTERNATING), (1, 2));
    let (a, b) = mix(0xDEAD_BEEF, 0x1234_5678_9ABC_DEF0, 7, 0x00FF_00FF_00FF_00FF);
    let t = (0xDEAD_BEEFu64 ^ (0x1234_5678_9ABC_DEF0u64 >> 7)) & 0x00FF_00FF_00FF_00FF;
    assert_eq!(a, 0xDEAD_BEEF ^ t);
    assert_eq!(b, 0x1234_5678_9ABC_DEF0 ^ t);
    assert_eq!(a ^ 0xDEAD_BEEF, b ^ 0x1234_5678_9ABC_DEF0);
}

#[test]
fn operations_apply_in_call_order() {
    let mut buffer = [0u64, 3, 5];
    {
        let mut view = construct_view(&mut buffer).unwrap();
        view.transform(0, 1, 1, ALTERNATING).unwrap();
        view.set(2, 2).unwrap();
        view.transform(1, 2, 0, u64::MAX).unwrap();
        view.transform(2, 0, 0, 0b1).unwrap();
    }
    // [1, 2, 5] -> [1, 2, 2] -> t = 2 ^ 2 = 0 -> [1, 2, 2] -> t = (2 ^ 1) & 1 = 1 -> [0, 2, 3]
    assert_eq!(buffer, [0, 2, 3]);
}

#[test]
fn the_buffer_can_be_viewed_again_after_a_view_has_ended() {
    let mut buffer = vec![0u64, 3];
    construct_view(&mut buffer).unwrap().transform(0, 1, 1, ALTERNATING).unwrap();
    buffer.push(4);
    let mut again = construct_view(&mut buffer).unwrap();
    assert_eq!(again.len(), 3);
    assert_eq!(again.get(2), Ok(4));
    assert_eq!(again.set(2, 6), Ok(()));
    assert_eq!(again.get(2), Ok(6));
}
