use foxtrot::protocol::{InputFlags, InputProtocol};

#[test]
fn new_carries_the_flag_bits() {
    let flags = InputFlags::up().union(&InputFlags::fire());
    let protocol = InputProtocol::new(flags);
    assert_eq!(protocol.input, 0x11);
}

#[test]
fn each_button_has_its_bit() {
    assert_eq!(InputFlags::up().bits(), 1);
    assert_eq!(InputFlags::down().bits(), 2);
    assert_eq!(InputFlags::left().bits(), 4);
    assert_eq!(InputFlags::right().bits(), 8);
    assert_eq!(InputFlags::fire().bits(), 16);
    assert_eq!(InputFlags::all().bits(), 0x1f);
    assert_eq!(InputFlags::empty().bits(), 0);
}

#[test]
fn from_flags_equals_new() {
    let flags = InputFlags::left().union(&InputFlags::right());
    let via_from: InputProtocol = InputProtocol::from(flags);
    assert_eq!(via_from, InputProtocol { input: 0x0c });
}

#[test]
fn send_and_decode_round_trip() {
    for bits in 0u8..=0x1f {
        let flags = InputFlags::from_bits(bits).unwrap();
        let protocol = InputProtocol::from(flags);
        let decoded = InputFlags::try_from(protocol).unwrap();
        assert_eq!(decoded.bits(), bits);
    }
}

#[test]
fn invalid_bytes_are_rejected_with_message() {
    let err = InputFlags::try_from(InputProtocol { input: 0x20 }).err().unwrap();
    assert_eq!(err, "Failed to read protocol bits as valid inputs. Received: 32");
    let err = InputFlags::try_from(InputProtocol { input: 255 }).err().unwrap();
    assert_eq!(err, "Failed to read protocol bits as valid inputs. Received: 255");
    let err = InputFlags::try_from(InputProtocol { input: 0x41 }).err().unwrap();
    assert_eq!(err, "Failed to read protocol bits as valid inputs. Received: 65");
}

#[test]
fn every_invalid_byte_is_rejected() {
    for input in 0x20u8..=0xff {
        assert!(InputFlags::try_from(InputProtocol { input }).is_err());
        assert!(InputFlags::from_bits(input).is_none());
    }
}

#[test]
fn truncate_drops_unknown_bits() {
    assert_eq!(InputFlags::from_bits_truncate(0xe3).bits(), 0x03);
}

#[test]
fn insert_remove_contains() {
    let mut flags = InputFlags::empty();
    assert!(flags.is_empty());
    flags.insert(&InputFlags::down());
    flags.insert(&InputFlags::fire());
    assert!(flags.contains(&InputFlags::down()));
    assert!(flags.contains(&InputFlags::fire()));
    assert!(!flags.contains(&InputFlags::up()));
    flags.remove(&InputFlags::down());
    assert!(!flags.contains(&InputFlags::down()));
    assert_eq!(flags.bits(), 0x10);
    assert!(InputFlags::all().contains(&flags));
}
