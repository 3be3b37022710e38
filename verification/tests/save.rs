use game_the_curse_of_the_headless_goose::save::Save;

#[test]
fn test_save_pull() {
    let mut save = Save::new();
    save.buf[..4].copy_from_slice(&[0x12, 0x34, 0x56, 0x78]);
    save.reset(4);

    assert_eq!(save.pull_u16(0xFF), 0x1234);
    assert_eq!(save.pull_u8(0xFF), 0x56);
    assert_eq!(save.pull_u8(0xFF), 0x78);
}

#[test]
fn test_save_push() {
    let mut save = Save::new();
    assert_eq!(save.slice(), &[]);

    save.push_u16(0x1234);
    save.push_u8(0x56);
    save.push_u8(0x78);

    assert_eq!(save.slice(), &[0x12, 0x34, 0x56, 0x78]);
}

#[test]
fn test_save_pull_from_empty() {
    let mut save = Save::new();
    assert_eq!(save.pull_u16(0x1337), 0x1337);
}

#[test]
fn save_pull_past_the_end_gives_defaults() {
    let mut save = Save::new();
    save.buf[..3].copy_from_slice(&[0xAB, 0xCD, 0xEF]);
    save.reset(3);
    assert_eq!(save.pull_u16(0x1111), 0xABCD);
    // One byte is left: a u16 does not fit, and the cursor moves on anyway.
    assert_eq!(save.pull_u16(0x2222), 0x2222);
    assert_eq!(save.pull_u8(0x33), 0x33);
}

#[test]
fn save_round_trip_of_all_widths() {
    let mut save = Save::new();
    save.push_u16(0xBEEF);
    save.push_u8(0x42);
    save.push_u128(0x0123_4567_89AB_CDEF_0011_2233_4455_6677);
    assert_eq!(save.slice().len(), 19);
    let len = save.slice().len();
    save.reset(len);
    assert_eq!(save.pull_u16(0), 0xBEEF);
    assert_eq!(save.pull_u8(0), 0x42);
    assert_eq!(save.pull_u128(0), 0x0123_4567_89AB_CDEF_0011_2233_4455_6677);
}

#[test]
fn save_push_stops_at_the_end_of_the_buffer() {
    let mut save = Save::new();
    for _ in 0..128 {
        save.push_u16(0x0102);
    }
    assert_eq!(save.slice().len(), 256);
    // No room left: the byte is dropped.
    save.push_u8(0x99);
    assert_eq!(save.slice().len(), 256);
    assert_eq!(save.slice()[255], 0x02);
}
