//! A J1939 message: a 29-bit identifier and 64 bits of payload.

use vstd::prelude::*;
use vstd::string::StringSliceAdditionalSpecFns;

use crate::can::j1939::Conversion;
use crate::can::j1939::J1939Id;
use crate::can::j1939::payload::DataField;
use crate::can::j1939::payload::NameField;
use crate::can::j1939::payload::Pdu;
use crate::can::j1939::payload::PduType;

verus! {

/// A J1939 message.
#[derive(Debug, Clone, Copy, PartialEq, Eq, Structural)]
pub struct Message {
    pub id: J1939Id,
    pub pdu: Pdu,
}

/// The payload a raw 64-bit value wraps into, by kind.
pub open spec fn spec_pdu_from_bits(bits: u64, pdu_type: PduType) -> Pdu {
    match pdu_type {
        PduType::Name => Pdu::NameField(NameField(bits)),
        PduType::Data => Pdu::DataFiled(DataField(bits)),
    }
}

impl Message {
    /// Builds a message from its two parts.
    pub fn from_parts(id: J1939Id, pdu: Pdu) -> (r: Message)
        ensures
            r.id == id,
            r.pdu == pdu,
    {
        Message { id, pdu }
    }

    /// Takes the message apart.
    pub fn into_parts(self) -> (r: (J1939Id, Pdu))
        ensures
            r.0 == self.id,
            r.1 == self.pdu,
    {
        (self.id, self.pdu)
    }

    /// Builds a message from raw bit values; every pair of raw values is
    /// accepted, since neither payload kind constrains its 64 bits.
    pub fn try_from_bits(hex_id: u32, hex_pdu: u64, pdu_type: PduType) -> (r: Option<Message>)
        ensures
            r == Some(
                Message { id: J1939Id(hex_id), pdu: spec_pdu_from_bits(hex_pdu, pdu_type) },
            ),
    {
        let id = J1939Id::from_bits(hex_id);
        let pdu = match pdu_type {
            PduType::Name => match NameField::try_from_bits(hex_pdu) {
                Some(v) => Some(Pdu::NameField(v)),
                None => None,
            },
            PduType::Data => match DataField::try_from_bits(hex_pdu) {
                Some(v) => Some(Pdu::DataFiled(v)),
                None => None,
            },
        };
        match pdu {
            Some(pdu) => Some(Message { id, pdu }),
            None => None,
        }
    }

    /// Builds a message from hexadecimal strings, accepting only an
    /// identifier within its 29 bits.
    pub fn try_from_hex(hex_id: &str, hex_pdu: &str, pdu_type: PduType) -> (r: Option<Message>)
        ensures
            match r {
                Some(m) => {
                    let ids = hex_id.spec_bytes();
                    let ps = hex_pdu.spec_bytes();
                    &&& <J1939Id as Conversion>::spec_hex_ok(ids)
                    &&& <J1939Id as Conversion>::spec_bits_valid(
                        <J1939Id as Conversion>::spec_hex_bits(ids),
                    )
                    &&& <NameField as Conversion>::spec_hex_ok(ps)
                    &&& m == (Message {
                        id: J1939Id(<J1939Id as Conversion>::spec_hex_bits(ids)),
                        pdu: spec_pdu_from_bits(
                            <NameField as Conversion>::spec_hex_bits(ps),
                            pdu_type,
                        ),
                    })
                },
                None => !(<J1939Id as Conversion>::spec_hex_ok(hex_id.spec_bytes())
                    && <J1939Id as Conversion>::spec_bits_valid(
                    <J1939Id as Conversion>::spec_hex_bits(hex_id.spec_bytes()),
                ) && <NameField as Conversion>::spec_hex_ok(hex_pdu.spec_bytes())),
            },
    {
        let id = J1939Id::try_from_hex(hex_id);
        match id {
            Some(id) => {
                let pdu = match pdu_type {
                    PduType::Name => match NameField::try_from_hex(hex_pdu) {
                        Some(v) => Some(Pdu::NameField(v)),
                        None => None,
                    },
                    PduType::Data => match DataField::try_from_hex(hex_pdu) {
                        Some(v) => Some(Pdu::DataFiled(v)),
                        None => None,
                    },
                };
                match pdu {
                    Some(pdu) => Some(Message { id, pdu }),
                    None => None,
                }
            },
            None => None,
        }
    }

    /// Builds a message from raw bit values.
    pub fn from_bits(hex_id: u32, hex_pdu: u64, pdu_type: PduType) -> (r: Message)
        ensures
            r == (Message { id: J1939Id(hex_id), pdu: spec_pdu_from_bits(hex_pdu, pdu_type) }),
    {
        let id = J1939Id::from_bits(hex_id);
        let pdu = match pdu_type {
            PduType::Name => Pdu::NameField(NameField::from_bits(hex_pdu)),
            PduType::Data => Pdu::DataFiled(DataField::from_bits(hex_pdu)),
        };
        Message { id, pdu }
    }

    /// Builds a message from hexadecimal strings.
    pub fn from_hex(hex_id: &str, hex_pdu: &str, pdu_type: PduType) -> (r: Option<Message>)
        ensures
            match r {
                Some(m) => {
                    let ids = hex_id.spec_bytes();
                    let ps = hex_pdu.spec_bytes();
                    &&& <J1939Id as Conversion>::spec_hex_ok(ids)
                    &&& <NameField as Conversion>::spec_hex_ok(ps)
                    &&& m == (Message {
                        id: J1939Id(<J1939Id as Conversion>::spec_hex_bits(ids)),
                        pdu: spec_pdu_from_bits(
                            <NameField as Conversion>::spec_hex_bits(ps),
                            pdu_type,
                        ),
                    })
                },
                None => !(<J1939Id as Conversion>::spec_hex_ok(hex_id.spec_bytes())
                    && <NameField as Conversion>::spec_hex_ok(hex_pdu.spec_bytes())),
            },
    {
        let id = match J1939Id::from_hex(hex_id) {
            Some(v) => v,
            None => {
                return None;
            },
        };
        let pdu = match pdu_type {
            PduType::Name => match NameField::from_hex(hex_pdu) {
                Some(v) => Pdu::NameField(v),
                None => {
                    return None;
                },
            },
            PduType::Data => match DataField::from_hex(hex_pdu) {
                Some(v) => Pdu::DataFiled(v),
                None => {
                    return None;
                },
            },
        };
        Some(Message { id, pdu })
    }

    /// The 29-bit identifier.
    pub fn id(&self) -> (r: J1939Id)
        ensures
            r == self.id,
    {
        self.id
    }

    /// The payload.
    pub fn pdu(&self) -> (r: Pdu)
        ensures
            r == self.pdu,
    {
        self.pdu
    }
}

} // verus!
