use degen_base_signer::error::ScriptTreeError;
use degen_base_signer::script::{create_script_refund, create_script_unspendable, read_pushed_int};

const KEY: [u8; 32] = [7u8; 32];

fn expected_refund(push: &[u8], key: &[u8; 32]) -> Vec<u8> {
    let mut v = push.to_vec();
    v.extend_from_slice(&[0xb1, 0x75, 0x20]);
    v.extend_from_slice(key);
    v.push(0xac);
    v
}

#[test]
fn refund_script_layout_for_500000() {
    let s = create_script_refund(&KEY, 500_000).unwrap();
    assert_eq!(s, expected_refund(&[0x03, 0x20, 0xa1, 0x07], &KEY));
    assert_eq!(read_pushed_int(&s), Some(500_000));
}

#[test]
fn refund_script_is_deterministic() {
    let a = create_script_refund(&KEY, 812_345).unwrap();
    let b = create_script_refund(&KEY, 812_345).unwrap();
    assert_eq!(a, b);
}

#[test]
fn refund_script_small_heights_use_number_opcodes() {
    assert_eq!(create_script_refund(&KEY, 0).unwrap(), expected_refund(&[0x00], &KEY));
    assert_eq!(create_script_refund(&KEY, 1).unwrap(), expected_refund(&[0x51], &KEY));
    assert_eq!(create_script_refund(&KEY, 16).unwrap(), expected_refund(&[0x60], &KEY));
    assert_eq!(create_script_refund(&KEY, 17).unwrap(), expected_refund(&[0x01, 0x11], &KEY));
}

#[test]
fn refund_script_sign_bit_gets_extra_byte() {
    assert_eq!(
        create_script_refund(&KEY, 128).unwrap(),
        expected_refund(&[0x02, 0x80, 0x00], &KEY)
    );
    assert_eq!(
        create_script_refund(&KEY, 0x8000).unwrap(),
        expected_refund(&[0x03, 0x00, 0x80, 0x00], &KEY)
    );
}

#[test]
fn refund_script_largest_height() {
    let s = create_script_refund(&KEY, 0x7fff_ffff).unwrap();
    assert_eq!(s, expected_refund(&[0x04, 0xff, 0xff, 0xff, 0x7f], &KEY));
    assert_eq!(read_pushed_int(&s), Some(0x7fff_ffff));
}

#[test]
fn refund_script_rejects_height_past_range() {
    assert_eq!(create_script_refund(&KEY, 0x8000_0000), Err(ScriptTreeError::Encoding));
    assert_eq!(create_script_refund(&KEY, usize::MAX), Err(ScriptTreeError::Encoding));
}

#[test]
fn refund_script_height_round_trip() {
    for h in [0usize, 1, 15, 16, 17, 127, 128, 255, 256, 500_000, 0x7f_ffff, 0x80_0000, 0x7fff_ffff] {
        let s = create_script_refund(&KEY, h).unwrap();
        assert_eq!(read_pushed_int(&s), Some(h as i64));
    }
}

#[test]
fn refund_script_changes_with_height() {
    let a = create_script_refund(&KEY, 500_000).unwrap();
    let b = create_script_refund(&KEY, 500_001).unwrap();
    assert_ne!(a, b);
}

#[test]
fn unspendable_script_is_op_return() {
    assert_eq!(create_script_unspendable(), vec![0x6a]);
}

#[test]
fn read_pushed_int_other_forms() {
    assert_eq!(read_pushed_int(&vec![]), None);
    assert_eq!(read_pushed_int(&vec![0x4f]), Some(-1));
    assert_eq!(read_pushed_int(&vec![0x01, 0x81]), Some(-1));
    assert_eq!(read_pushed_int(&vec![0x02, 0xe8, 0x83]), Some(-1000));
    assert_eq!(read_pushed_int(&vec![0x05, 1, 2, 3, 4, 5]), None);
    assert_eq!(read_pushed_int(&vec![0x03, 1, 2]), None);
    assert_eq!(read_pushed_int(&vec![0x6a]), None);
}
