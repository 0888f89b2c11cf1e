use secp_registers::scalar::is_zero;

#[test]
fn is_zero_of_zeros() {
    assert!(is_zero(&[0u8; 32]));
}

#[test]
fn is_zero_sees_every_byte() {
    for i in 0..32 {
        let mut bytes = [0u8; 32];
        bytes[i] = 1;
        assert!(!is_zero(&bytes));
        bytes[i] = 0x80;
        assert!(!is_zero(&bytes));
    }
    assert!(!is_zero(&[0xff; 32]));
}
