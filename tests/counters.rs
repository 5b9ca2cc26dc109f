use tetris_env::bcd::decode_bcd;
use tetris_env::environment::Environment;

#[test]
fn bcd_score_order_decodes_digits() {
    assert_eq!(decode_bcd(&[0x01, 0x23, 0x45]), 12345);
}

#[test]
fn bcd_zero_lines() {
    assert_eq!(decode_bcd(&[0x00, 0x00]), 0);
}

#[test]
fn bcd_largest_score() {
    assert_eq!(decode_bcd(&[0x99, 0x99, 0x99]), 999999);
}

#[test]
fn bcd_empty_is_zero() {
    assert_eq!(decode_bcd(&[]), 0);
}

#[test]
fn bcd_out_of_range_nibbles_pass_through() {
    assert_eq!(decode_bcd(&[0x0A]), 10);
    assert_eq!(decode_bcd(&[0xFF]), 165);
    assert_eq!(decode_bcd(&[0x01, 0xFF]), 265);
}

#[test]
fn bcd_nine_bytes() {
    assert_eq!(
        decode_bcd(&[0x12, 0x34, 0x56, 0x78, 0x90, 0x12, 0x34, 0x56, 0x78]),
        123456789012345678
    );
}

#[test]
fn score_reads_most_significant_first() {
    assert_eq!(Environment::get_score(&[0x01, 0x23, 0x45]), 12345);
    assert_eq!(Environment::get_score(&[0x00, 0x00, 0x00]), 0);
    assert_eq!(Environment::get_score(&[0x99, 0x99, 0x99]), 999999);
}

#[test]
fn lines_read_most_significant_first() {
    assert_eq!(Environment::get_lines(&[0x00, 0x00]), 0);
    assert_eq!(Environment::get_lines(&[0x01, 0x07]), 107);
    assert_eq!(Environment::get_lines(&[0x99, 0x99]), 9999);
}
