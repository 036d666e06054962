use vecbit::error::UserError;
use vecbit::vecbit::{get_bit, get_bits, set_bit};

#[test]
fn get_bits_of_zero_is_empty() {
    assert_eq!(get_bits(&0), Vec::<u64>::new());
}

#[test]
fn get_bits_lists_up_to_highest_set_bit() {
    assert_eq!(get_bits(&5), vec![1, 0, 1]);
    assert_eq!(get_bits(&1), vec![1]);
    assert_eq!(get_bits(&0b1000), vec![0, 0, 0, 1]);
}

#[test]
fn get_bits_of_all_ones_has_sixty_four_entries() {
    let bits = get_bits(&u64::MAX);
    assert_eq!(bits.len(), 64);
    assert!(bits.iter().all(|b| *b == 1));
}

#[test]
fn get_bits_of_top_bit_only() {
    let bits = get_bits(&(1u64 << 63));
    assert_eq!(bits.len(), 64);
    assert_eq!(bits[63], 1);
    assert!(bits[..63].iter().all(|b| *b == 0));
}

#[test]
fn get_bits_reads_back_as_the_integer() {
    for x in [0u64, 1, 2, 3, 5, 42, 0xdead_beef, u64::MAX, 1 << 40] {
        let bits = get_bits(&x);
        let mut value: u128 = 0;
        for (i, b) in bits.iter().enumerate() {
            value += (*b as u128) << i;
        }
        assert_eq!(value, x as u128);
    }
}

#[test]
fn set_bit_sets_and_clears() {
    let mut x: u64 = 0;
    set_bit(&mut x, 3, true);
    assert_eq!(x, 8);
    set_bit(&mut x, 0, true);
    assert_eq!(x, 9);
    set_bit(&mut x, 3, false);
    assert_eq!(x, 1);
    set_bit(&mut x, 63, true);
    assert_eq!(x, 1 | (1 << 63));
}

#[test]
fn get_bit_reads_each_bit() {
    let x: u64 = 0b1010;
    assert!(matches!(get_bit(&x, 0), Ok(false)));
    assert!(matches!(get_bit(&x, 1), Ok(true)));
    assert!(matches!(get_bit(&x, 3), Ok(true)));
    assert!(matches!(get_bit(&x, 63), Ok(false)));
}

#[test]
fn get_bit_past_sixty_four_is_out_of_range() {
    assert!(matches!(get_bit(&u64::MAX, 64), Err(UserError::IndexOutOfRange)));
    assert!(matches!(get_bit(&0, 1000), Err(UserError::IndexOutOfRange)));
}

#[test]
fn read_after_write_gives_the_written_bit() {
    let mut x: u64 = 0x0f0f;
    set_bit(&mut x, 20, true);
    assert!(matches!(get_bit(&x, 20), Ok(true)));
    assert!(matches!(get_bit(&x, 0), Ok(true)));
    assert!(matches!(get_bit(&x, 4), Ok(false)));
    set_bit(&mut x, 0, false);
    assert!(matches!(get_bit(&x, 0), Ok(false)));
    assert!(matches!(get_bit(&x, 1), Ok(true)));
}
