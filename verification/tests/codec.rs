use fnlock::codec::encode;
use fnlock::codec::Command;
use fnlock::codec::K380_SEQ_FKEYS_OFF;
use fnlock::codec::K380_SEQ_FKEYS_ON;
use fnlock::codec::PAYLOAD_LEN;

#[test]
fn encode_lock_is_the_known_report() {
    assert_eq!(encode(Command::Lock).as_bytes(), &[0x10, 0xff, 0x0b, 0x1e, 0x00, 0x00, 0x00]);
}

#[test]
fn encode_unlock_is_the_known_report() {
    assert_eq!(encode(Command::Unlock).as_bytes(), &[0x10, 0xff, 0x0b, 0x1e, 0x01, 0x00, 0x00]);
}

#[test]
fn encode_uses_the_constant_tables() {
    assert_eq!(encode(Command::Lock).as_bytes(), &K380_SEQ_FKEYS_ON);
    assert_eq!(encode(Command::Unlock).as_bytes(), &K380_SEQ_FKEYS_OFF);
}

#[test]
fn encode_is_deterministic() {
    assert_eq!(encode(Command::Lock).as_bytes(), encode(Command::Lock).as_bytes());
    assert_eq!(encode(Command::Unlock).as_bytes(), encode(Command::Unlock).as_bytes());
}

#[test]
fn reports_differ_in_the_fifth_byte_only() {
    let lock = *encode(Command::Lock).as_bytes();
    let unlock = *encode(Command::Unlock).as_bytes();
    assert_eq!(lock.len(), PAYLOAD_LEN);
    assert_eq!(unlock.len(), PAYLOAD_LEN);
    let differing: Vec<usize> = (0..PAYLOAD_LEN).filter(|&i| lock[i] != unlock[i]).collect();
    assert_eq!(differing, vec![4]);
    assert_eq!(lock[4], 0x00);
    assert_eq!(unlock[4], 0x01);
}

#[test]
fn command_from_lock_flag() {
    assert_eq!(Command::from_lock_flag(true), Command::Lock);
    assert_eq!(Command::from_lock_flag(false), Command::Unlock);
}

#[test]
fn command_is_lock() {
    assert!(Command::Lock.is_lock());
    assert!(!Command::Unlock.is_lock());
}
