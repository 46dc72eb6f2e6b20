//! Generic J1939 network addresses.

use vstd::prelude::*;

verus! {

/// Well-known J1939 node addresses; codes with no assigned role carry
/// their raw value.
#[derive(Debug, Clone, Copy, PartialEq, Eq, Structural)]
pub enum Address {
    PrimaryEngineController,
    SecondaryEngineController,
    PrimaryTransmissionController,
    TransmissionShiftSelector,
    Brakes,
    Retarder,
    CruiseControl,
    FuelSystem,
    SteeringController,
    InstrumentCluster,
    ClimateControl1,
    Compass,
    BodyController,
    OffVehicleGateway,
    DidVid,
    RetarderExhaustEngine1,
    HeadwayController,
    Suspension,
    CabController,
    TirePressureController,
    LightingControlModule,
    ClimateControl2,
    ExhaustEmissionController,
    AuxiliaryHeater,
    ChassisController,
    CommunicationsUnit,
    Radio,
    SafetyRestraintSystem,
    AftertreatmentControlModule,
    MultiPurposeCamera,
    SwitchExpansionModule,
    AuxiliaryGaugeSwitchPack,
    Iteris,
    QualcommPeopleNetTranslatorBox,
    StandAloneRealTimeClock,
    CenterPanel1,
    CenterPanel2,
    CenterPanel3,
    CenterPanel4,
    CenterPanel5,
    WabcoOnGuardRadar,
    SecondaryInstrumentCluster,
    OffboardDiagnostics,
    Trailer3Bridge,
    Trailer2Bridge,
    Trailer1Bridge,
    SafetyDirectProcessor,
    ForwardRoadImageProcessor,
    LeftRearDoorPod,
    RightRearDoorPod,
    DoorController1,
    DoorController2,
    Tachograph,
    HybridSystem,
    AuxiliaryPowerUnit,
    ServiceTool,
    SourceAddressRequest0,
    SourceAddressRequest1,
    Unknown(u8),
}

/// The address a code designates.
pub open spec fn spec_address_from_u8(value: u8) -> Address {
    match value {
        0 => Address::PrimaryEngineController,
        1 => Address::SecondaryEngineController,
        3 => Address::PrimaryTransmissionController,
        5 => Address::TransmissionShiftSelector,
        11 => Address::Brakes,
        15 => Address::Retarder,
        17 => Address::CruiseControl,
        18 => Address::FuelSystem,
        19 => Address::SteeringController,
        23 => Address::InstrumentCluster,
        25 => Address::ClimateControl1,
        28 => Address::Compass,
        33 => Address::BodyController,
        37 => Address::OffVehicleGateway,
        40 => Address::DidVid,
        41 => Address::RetarderExhaustEngine1,
        42 => Address::HeadwayController,
        47 => Address::Suspension,
        49 => Address::CabController,
        51 => Address::TirePressureController,
        55 => Address::LightingControlModule,
        58 => Address::ClimateControl2,
        61 => Address::ExhaustEmissionController,
        69 => Address::AuxiliaryHeater,
        71 => Address::ChassisController,
        74 => Address::CommunicationsUnit,
        76 => Address::Radio,
        83 => Address::SafetyRestraintSystem,
        85 => Address::AftertreatmentControlModule,
        127 => Address::MultiPurposeCamera,
        128 => Address::SwitchExpansionModule,
        132 => Address::AuxiliaryGaugeSwitchPack,
        139 => Address::Iteris,
        142 => Address::QualcommPeopleNetTranslatorBox,
        150 => Address::StandAloneRealTimeClock,
        151 => Address::CenterPanel1,
        152 => Address::CenterPanel2,
        153 => Address::CenterPanel3,
        154 => Address::CenterPanel4,
        155 => Address::CenterPanel5,
        160 => Address::WabcoOnGuardRadar,
        167 => Address::SecondaryInstrumentCluster,
        172 => Address::OffboardDiagnostics,
        184 => Address::Trailer3Bridge,
        192 => Address::Trailer2Bridge,
        200 => Address::Trailer1Bridge,
        209 => Address::SafetyDirectProcessor,
        232 => Address::ForwardRoadImageProcessor,
        233 => Address::LeftRearDoorPod,
        234 => Address::RightRearDoorPod,
        236 => Address::DoorController1,
        237 => Address::DoorController2,
        238 => Address::Tachograph,
        239 => Address::HybridSystem,
        247 => Address::AuxiliaryPowerUnit,
        249 => Address::ServiceTool,
        254 => Address::SourceAddressRequest0,
        255 => Address::SourceAddressRequest1,
        a => Address::Unknown(a),
    }
}

/// The code of an address.
pub open spec fn spec_address_into_u8(value: Address) -> u8 {
    match value {
        Address::PrimaryEngineController => 0,
        Address::SecondaryEngineController => 1,
        Address::PrimaryTransmissionController => 3,
        Address::TransmissionShiftSelector => 5,
        Address::Brakes => 11,
        Address::Retarder => 15,
        Address::CruiseControl => 17,
        Address::FuelSystem => 18,
        Address::SteeringController => 19,
        Address::InstrumentCluster => 23,
        Address::ClimateControl1 => 25,
        Address::Compass => 28,
        Address::BodyController => 33,
        Address::OffVehicleGateway => 37,
        Address::DidVid => 40,
        Address::RetarderExhaustEngine1 => 41,
        Address::HeadwayController => 42,
        Address::Suspension => 47,
        Address::CabController => 49,
        Address::TirePressureController => 51,
        Address::LightingControlModule => 55,
        Address::ClimateControl2 => 58,
        Address::ExhaustEmissionController => 61,
        Address::AuxiliaryHeater => 69,
        Address::ChassisController => 71,
        Address::CommunicationsUnit => 74,
        Address::Radio => 76,
        Address::SafetyRestraintSystem => 83,
        Address::AftertreatmentControlModule => 85,
        Address::MultiPurposeCamera => 127,
        Address::SwitchExpansionModule => 128,
        Address::AuxiliaryGaugeSwitchPack => 132,
        Address::Iteris => 139,
        Address::QualcommPeopleNetTranslatorBox => 142,
        Address::StandAloneRealTimeClock => 150,
        Address::CenterPanel1 => 151,
        Address::CenterPanel2 => 152,
        Address::CenterPanel3 => 153,
        Address::CenterPanel4 => 154,
        Address::CenterPanel5 => 155,
        Address::WabcoOnGuardRadar => 160,
        Address::SecondaryInstrumentCluster => 167,
        Address::OffboardDiagnostics => 172,
        Address::Trailer3Bridge => 184,
        Address::Trailer2Bridge => 192,
        Address::Trailer1Bridge => 200,
        Address::SafetyDirectProcessor => 209,
        Address::ForwardRoadImageProcessor => 232,
        Address::LeftRearDoorPod => 233,
        Address::RightRearDoorPod => 234,
        Address::DoorController1 => 236,
        Address::DoorController2 => 237,
        Address::Tachograph => 238,
        Address::HybridSystem => 239,
        Address::AuxiliaryPowerUnit => 247,
        Address::ServiceTool => 249,
        Address::SourceAddressRequest0 => 254,
        Address::SourceAddressRequest1 => 255,
        Address::Unknown(a) => a,
    }
}

impl From<u8> for Address {
    /// Translates an address code to the node it designates.
    fn from(value: u8) -> Address {
        match value {
            0 => Address::PrimaryEngineController,
            1 => Address::SecondaryEngineController,
            3 => Address::PrimaryTransmissionController,
            5 => Address::TransmissionShiftSelector,
            11 => Address::Brakes,
            15 => Address::Retarder,
            17 => Address::CruiseControl,
            18 => Address::FuelSystem,
            19 => Address::SteeringController,
            23 => Address::InstrumentCluster,
            25 => Address::ClimateControl1,
            28 => Address::Compass,
            33 => Address::BodyController,
            37 => Address::OffVehicleGateway,
            40 => Address::DidVid,
            41 => Address::RetarderExhaustEngine1,
            42 => Address::HeadwayController,
            47 => Address::Suspension,
            49 => Address::CabController,
            51 => Address::TirePressureController,
            55 => Address::LightingControlModule,
            58 => Address::ClimateControl2,
            61 => Address::ExhaustEmissionController,
            69 => Address::AuxiliaryHeater,
            71 => Address::ChassisController,
            74 => Address::CommunicationsUnit,
            76 => Address::Radio,
            83 => Address::SafetyRestraintSystem,
            85 => Address::AftertreatmentControlModule,
            127 => Address::MultiPurposeCamera,
            128 => Address::SwitchExpansionModule,
            132 => Address::AuxiliaryGaugeSwitchPack,
            139 => Address::Iteris,
            142 => Address::QualcommPeopleNetTranslatorBox,
            150 => Address::StandAloneRealTimeClock,
            151 => Address::CenterPanel1,
            152 => Address::CenterPanel2,
            153 => Address::CenterPanel3,
            154 => Address::CenterPanel4,
            155 => Address::CenterPanel5,
            160 => Address::WabcoOnGuardRadar,
            167 => Address::SecondaryInstrumentCluster,
            172 => Address::OffboardDiagnostics,
            184 => Address::Trailer3Bridge,
            192 => Address::Trailer2Bridge,
            200 => Address::Trailer1Bridge,
            209 => Address::SafetyDirectProcessor,
            232 => Address::ForwardRoadImageProcessor,
            233 => Address::LeftRearDoorPod,
            234 => Address::RightRearDoorPod,
            236 => Address::DoorController1,
            237 => Address::DoorController2,
            238 => Address::Tachograph,
            239 => Address::HybridSystem,
            247 => Address::AuxiliaryPowerUnit,
            249 => Address::ServiceTool,
            254 => Address::SourceAddressRequest0,
            255 => Address::SourceAddressRequest1,
            a => Address::Unknown(a),
        }
    }
}

impl vstd::std_specs::convert::FromSpecImpl<u8> for Address {
    open spec fn obeys_from_spec() -> bool {
        true
    }

    open spec fn from_spec(v: u8) -> Address {
        spec_address_from_u8(v)
    }
}

impl From<Address> for u8 {
    /// Translates an address back to its code.
    fn from(value: Address) -> u8 {
        match value {
            Address::PrimaryEngineController => 0,
            Address::SecondaryEngineController => 1,
            Address::PrimaryTransmissionController => 3,
            Address::TransmissionShiftSelector => 5,
            Address::Brakes => 11,
            Address::Retarder => 15,
            Address::CruiseControl => 17,
            Address::FuelSystem => 18,
            Address::SteeringController => 19,
            Address::InstrumentCluster => 23,
            Address::ClimateControl1 => 25,
            Address::Compass => 28,
            Address::BodyController => 33,
            Address::OffVehicleGateway => 37,
            Address::DidVid => 40,
            Address::RetarderExhaustEngine1 => 41,
            Address::HeadwayController => 42,
            Address::Suspension => 47,
            Address::CabController => 49,
            Address::TirePressureController => 51,
            Address::LightingControlModule => 55,
            Address::ClimateControl2 => 58,
            Address::ExhaustEmissionController => 61,
            Address::AuxiliaryHeater => 69,
            Address::ChassisController => 71,
            Address::CommunicationsUnit => 74,
            Address::Radio => 76,
            Address::SafetyRestraintSystem => 83,
            Address::AftertreatmentControlModule => 85,
            Address::MultiPurposeCamera => 127,
            Address::SwitchExpansionModule => 128,
            Address::AuxiliaryGaugeSwitchPack => 132,
            Address::Iteris => 139,
            Address::QualcommPeopleNetTranslatorBox => 142,
            Address::StandAloneRealTimeClock => 150,
            Address::CenterPanel1 => 151,
            Address::CenterPanel2 => 152,
            Address::CenterPanel3 => 153,
            Address::CenterPanel4 => 154,
            Address::CenterPanel5 => 155,
            Address::WabcoOnGuardRadar => 160,
            Address::SecondaryInstrumentCluster => 167,
            Address::OffboardDiagnostics => 172,
            Address::Trailer3Bridge => 184,
            Address::Trailer2Bridge => 192,
            Address::Trailer1Bridge => 200,
            Address::SafetyDirectProcessor => 209,
            Address::ForwardRoadImageProcessor => 232,
            Address::LeftRearDoorPod => 233,
            Address::RightRearDoorPod => 234,
            Address::DoorController1 => 236,
            Address::DoorController2 => 237,
            Address::Tachograph => 238,
            Address::HybridSystem => 239,
            Address::AuxiliaryPowerUnit => 247,
            Address::ServiceTool => 249,
            Address::SourceAddressRequest0 => 254,
            Address::SourceAddressRequest1 => 255,
            Address::Unknown(a) => a,
        }
    }
}

impl vstd::std_specs::convert::FromSpecImpl<Address> for u8 {
    open spec fn obeys_from_spec() -> bool {
        true
    }

    open spec fn from_spec(v: Address) -> u8 {
        spec_address_into_u8(v)
    }
}

/// The source address of an identifier.
#[derive(Debug, Clone, Copy, PartialEq, Eq, Structural)]
pub enum SourceAddress {
    /// No source address.
    Absent,
    /// Source address with a specific value.
    Present(u8),
}

/// The destination address of an identifier.
#[derive(Debug, Clone, Copy, PartialEq, Eq, Structural)]
pub enum DestinationAddress {
    /// No destination address.
    Absent,
    /// Destination address with a specific value.
    Present(u8),
}

impl SourceAddress {
    /// Translates the source address code, when there is one.
    pub fn lookup(self) -> (r: Option<Address>)
        ensures
        match self {
            SourceAddress::Present(value) => r == Some(spec_address_from_u8(value)),
            SourceAddress::Absent => r is None,
        },
    {
        match self {
        SourceAddress::Present(value) => Some(Address::from(value)),
        SourceAddress::Absent => None,
        }
    }
}

impl DestinationAddress {
    /// Translates the destination address code, when there is one.
    pub fn lookup(self) -> (r: Option<Address>)
        ensures
        match self {
            DestinationAddress::Present(value) => r == Some(spec_address_from_u8(value)),
            DestinationAddress::Absent => r is None,
        },
    {
        match self {
        DestinationAddress::Present(value) => Some(Address::from(value)),
        DestinationAddress::Absent => None,
        }
    }
}

} // verus!
