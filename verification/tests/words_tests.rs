use artillery_calc::words::{hiword, loword};

#[test]
fn words_split() {
    assert_eq!(loword(0x1234_5678), 0x5678);
    assert_eq!(hiword(0x1234_5678), 0x1234);
}

#[test]
fn words_extremes() {
    assert_eq!(loword(0), 0);
    assert_eq!(hiword(0), 0);
    assert_eq!(loword(u32::MAX), 0xFFFF);
    assert_eq!(hiword(u32::MAX), 0xFFFF);
}

#[test]
fn words_recompose() {
    for l in [0u32, 1, 0xFFFF, 0x1_0000, 0xDEAD_BEEF, u32::MAX] {
        assert_eq!((hiword(l) as u32) * 0x1_0000 + loword(l) as u32, l);
    }
}
