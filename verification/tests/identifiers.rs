//! CAN identifiers, the J1939 identifier and its Parameter Group Number.

use isotp_rs::can::identifier::Id;
use isotp_rs::can::j1939::address::{Address, DestinationAddress, SourceAddress};
use isotp_rs::can::j1939::payload::{DataField, NameField, Pdu, PduType};
use isotp_rs::can::j1939::pgn::{CommunicationMode, GroupExtension, PduAssignment, PduFormat, Pgn};
use isotp_rs::can::j1939::{Conversion, J1939Id};
use isotp_rs::can::j1939::message::Message;

#[test]
fn test_id_from_bits() {
    assert_eq!(Id::from_bits(0x7FF, false), Id::Standard(0x7FF));
    assert_eq!(Id::from_bits(0x7FF, true), Id::Extended(0x7FF));
    assert_eq!(Id::from_bits(0x800, false), Id::Extended(0x800));
    // the raw value is masked to 29 bits
    assert_eq!(Id::from_bits(0xFFFF_FFFF, true), Id::Extended(0x1FFF_FFFF));
    assert_eq!(Id::try_from_bits(0x2000_0000, false), None);
    assert_eq!(Id::try_from_bits(0x1FFF_FFFF, true), Some(Id::Extended(0x1FFF_FFFF)));
}

#[test]
fn test_id_hex() {
    assert_eq!(Id::from_hex("7DF", false), Some(Id::Standard(0x7DF)));
    assert_eq!(Id::from_hex("+7DF", false), Some(Id::Standard(0x7DF)));
    assert_eq!(Id::from_hex("XYZ", false), None);
    assert_eq!(Id::from_hex("", false), None);
    assert_eq!(Id::try_from_hex("20000000", false), None);
    assert_eq!(Id::Standard(0x7DF).into_hex(), "000007DF");
    assert_eq!(Id::Extended(0x1FFF_FFFF).into_hex(), "1FFFFFFF");
}

#[test]
fn test_id_standard_part() {
    assert_eq!(Id::Standard(0x123).standard_id(), Id::Standard(0x123));
    assert_eq!(
        Id::Extended(0x0CF0_0400).standard_id(),
        Id::Standard((0x0CF0_0400u32 >> 18) as u16)
    );
    assert!(Id::Extended(1).is_extended());
    assert!(!Id::Standard(1).is_extended());
    assert_eq!(Id::Extended(0x0CF0_0400).as_raw(), 0x0CF0_0400);
}

#[test]
fn test_j1939_id_fields() {
    let id = J1939Id::from_hex("0CF00400").unwrap();
    assert_eq!(id.into_bits(), 217_056_256);
    assert_eq!(id.priority(), 3);
    assert!(!id.data_page());
    assert_eq!(id.pdu_format(), 0xF0);
    assert_eq!(id.pdu_specific(), 0x04);
    assert_eq!(id.source_address(), SourceAddress::Present(0x00));
    assert_eq!(J1939Id::from_bits(15).into_hex(), "0000000F");
    assert_eq!(J1939Id::try_from_bits(4_294_967_295), None);
}

#[test]
fn test_j1939_id_from_raw_parts() {
    let id = J1939Id::from_raw_parts(3, false, 0xF0, 0x04, 0x00).unwrap();
    assert_eq!(id.into_bits(), 0x0CF0_0400);
    assert_eq!(J1939Id::from_raw_parts(8, false, 0, 0, 0), None);
}

#[test]
fn test_pgn_classification() {
    let id = J1939Id::from_raw_parts(3, false, 0xF0, 0x04, 0x00).unwrap();
    let pgn = id.pgn();
    assert_eq!(pgn.into_bits(), 0xF004);
    assert_eq!(pgn.pdu_format(), PduFormat::Pdu2(0xF0));
    assert_eq!(pgn.group_extension(), GroupExtension::Present(0x04));
    assert_eq!(pgn.destination_address(), DestinationAddress::Absent);
    assert_eq!(pgn.communication_mode(), CommunicationMode::Broadcast);
    assert!(pgn.is_broadcast());
    assert!(!pgn.is_p2p());
    assert_eq!(pgn.pdu_assignment(), PduAssignment::Sae(0xF004));

    let pgn = Pgn::from_bits(0xEF00);
    assert_eq!(pgn.pdu_format(), PduFormat::Pdu1(0xEF));
    assert_eq!(pgn.group_extension(), GroupExtension::Absent);
    assert_eq!(pgn.destination_address(), DestinationAddress::Present(0x00));
    assert!(pgn.is_p2p());
    assert_eq!(pgn.pdu_assignment(), PduAssignment::Manufacturer(0xEF00));

    assert_eq!(Pgn::from_bits(0x2F000).pdu_assignment(), PduAssignment::Unknown(0x2F000));
    assert_eq!(Pgn::try_from_bits(0x40000), None);
    assert_eq!(Pgn::from_bits(0xF004).into_hex(), "0F004");
    // a value wider than the minimum width is not cut short
    assert_eq!(Pgn::from_bits(0x123456).into_hex(), "123456");
}

#[test]
fn test_address_lookup() {
    assert_eq!(
        SourceAddress::Present(0).lookup(),
        Some(Address::PrimaryEngineController)
    );
    assert_eq!(
        SourceAddress::Present(249).lookup(),
        Some(Address::ServiceTool)
    );
    assert_eq!(SourceAddress::Present(2).lookup(), Some(Address::Unknown(2)));
    assert_eq!(SourceAddress::Absent.lookup(), None);
    assert_eq!(
        DestinationAddress::Present(11).lookup(),
        Some(Address::Brakes)
    );
    assert_eq!(DestinationAddress::Absent.lookup(), None);
    assert_eq!(u8::from(Address::Brakes), 11);
    assert_eq!(Address::from(11u8), Address::Brakes);
}

#[test]
fn test_message_round_trip() {
    let m = Message::from_bits(0x0CF0_0400, 0x1122_3344_5566_7788, PduType::Data);
    assert_eq!(m.id(), J1939Id(0x0CF0_0400));
    assert_eq!(m.pdu(), Pdu::DataFiled(DataField(0x1122_3344_5566_7788)));
    let (id, pdu) = m.into_parts();
    assert_eq!(Message::from_parts(id, pdu), m);

    let m = Message::try_from_hex("0CF00400", "FFFF82DF1AFFFFFF", PduType::Name).unwrap();
    assert_eq!(m.pdu(), Pdu::NameField(NameField(0xFFFF_82DF_1AFF_FFFF)));
    assert_eq!(Message::try_from_hex("20000000", "00", PduType::Name), None);
    assert_eq!(Message::from_hex("ZZ", "00", PduType::Data), None);
}
