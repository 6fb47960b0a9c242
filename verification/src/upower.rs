//! Typed codes of the power daemon's battery interface.
//!
//! The daemon reports battery state, kind, coarse level and technology as
//! unsigned codes; each enum here maps its published codes exactly, and a
//! reading of an unpublished code is answered with nothing rather than a
//! guess.

use vstd::prelude::*;

verus! {

/// The charging state of a battery.
#[derive(Debug, Clone, Copy, PartialEq, Eq, Structural)]
pub enum BatteryState {
    Unknown,
    Charging,
    Discharging,
    Empty,
    FullyCharged,
    PendingCharge,
    PendingDischarge,
}

/// The state a published code names.
pub open spec fn battery_state_of(code: u32) -> Option<BatteryState> {
    match code {
        0u32 => Some(BatteryState::Unknown),
        1u32 => Some(BatteryState::Charging),
        2u32 => Some(BatteryState::Discharging),
        3u32 => Some(BatteryState::Empty),
        4u32 => Some(BatteryState::FullyCharged),
        5u32 => Some(BatteryState::PendingCharge),
        6u32 => Some(BatteryState::PendingDischarge),
        _ => None,
    }
}

/// The published code of a state.
pub open spec fn battery_state_code(v: BatteryState) -> u32 {
    match v {
        BatteryState::Unknown => 0,
        BatteryState::Charging => 1,
        BatteryState::Discharging => 2,
        BatteryState::Empty => 3,
        BatteryState::FullyCharged => 4,
        BatteryState::PendingCharge => 5,
        BatteryState::PendingDischarge => 6,
    }
}

impl BatteryState {
    /// Types a raw code reading; an unpublished code reads as nothing.
    pub fn from_code(code: u32) -> (r: Option<BatteryState>)
        ensures
            r == battery_state_of(code),
    {
        match code {
            0 => Some(BatteryState::Unknown),
            1 => Some(BatteryState::Charging),
            2 => Some(BatteryState::Discharging),
            3 => Some(BatteryState::Empty),
            4 => Some(BatteryState::FullyCharged),
            5 => Some(BatteryState::PendingCharge),
            6 => Some(BatteryState::PendingDischarge),
            _ => None,
        }
    }

    /// The published code of the state.
    pub fn code(&self) -> (r: u32)
        ensures
            r == battery_state_code(*self),
    {
        match self {
            BatteryState::Unknown => 0,
            BatteryState::Charging => 1,
            BatteryState::Discharging => 2,
            BatteryState::Empty => 3,
            BatteryState::FullyCharged => 4,
            BatteryState::PendingCharge => 5,
            BatteryState::PendingDischarge => 6,
        }
    }
}

/// The kind of power device.
#[derive(Debug, Clone, Copy, PartialEq, Eq, Structural)]
pub enum BatteryType {
    Unknown,
    LinePower,
    Battery,
    Ups,
    Monitor,
    Mouse,
    Keyboard,
    Pda,
    Phone,
    MediaPlayer,
    Tablet,
    Computer,
    GamingInput,
    Pen,
    Touchpad,
    Modem,
    Network,
    Headset,
    Speakers,
    Headphones,
    Video,
    OtherAudio,
    RemoteControl,
    Printer,
    Scanner,
    Camera,
    Wearable,
    Toy,
    BluetoothGeneric,
}

/// The kind a published code names.
pub open spec fn battery_type_of(code: u32) -> Option<BatteryType> {
    match code {
        0u32 => Some(BatteryType::Unknown),
        1u32 => Some(BatteryType::LinePower),
        2u32 => Some(BatteryType::Battery),
        3u32 => Some(BatteryType::Ups),
        4u32 => Some(BatteryType::Monitor),
        5u32 => Some(BatteryType::Mouse),
        6u32 => Some(BatteryType::Keyboard),
        7u32 => Some(BatteryType::Pda),
        8u32 => Some(BatteryType::Phone),
        9u32 => Some(BatteryType::MediaPlayer),
        10u32 => Some(BatteryType::Tablet),
        11u32 => Some(BatteryType::Computer),
        12u32 => Some(BatteryType::GamingInput),
        13u32 => Some(BatteryType::Pen),
        14u32 => Some(BatteryType::Touchpad),
        15u32 => Some(BatteryType::Modem),
        16u32 => Some(BatteryType::Network),
        17u32 => Some(BatteryType::Headset),
        18u32 => Some(BatteryType::Speakers),
        19u32 => Some(BatteryType::Headphones),
        20u32 => Some(BatteryType::Video),
        21u32 => Some(BatteryType::OtherAudio),
        22u32 => Some(BatteryType::RemoteControl),
        23u32 => Some(BatteryType::Printer),
        24u32 => Some(BatteryType::Scanner),
        25u32 => Some(BatteryType::Camera),
        26u32 => Some(BatteryType::Wearable),
        27u32 => Some(BatteryType::Toy),
        28u32 => Some(BatteryType::BluetoothGeneric),
        _ => None,
    }
}

impl BatteryType {
    /// Types a raw code reading; an unpublished code reads as nothing.
    pub fn from_code(code: u32) -> (r: Option<BatteryType>)
        ensures
            r == battery_type_of(code),
    {
        match code {
            0 => Some(BatteryType::Unknown),
            1 => Some(BatteryType::LinePower),
            2 => Some(BatteryType::Battery),
            3 => Some(BatteryType::Ups),
            4 => Some(BatteryType::Monitor),
            5 => Some(BatteryType::Mouse),
            6 => Some(BatteryType::Keyboard),
            7 => Some(BatteryType::Pda),
            8 => Some(BatteryType::Phone),
            9 => Some(BatteryType::MediaPlayer),
            10 => Some(BatteryType::Tablet),
            11 => Some(BatteryType::Computer),
            12 => Some(BatteryType::GamingInput),
            13 => Some(BatteryType::Pen),
            14 => Some(BatteryType::Touchpad),
            15 => Some(BatteryType::Modem),
            16 => Some(BatteryType::Network),
            17 => Some(BatteryType::Headset),
            18 => Some(BatteryType::Speakers),
            19 => Some(BatteryType::Headphones),
            20 => Some(BatteryType::Video),
            21 => Some(BatteryType::OtherAudio),
            22 => Some(BatteryType::RemoteControl),
            23 => Some(BatteryType::Printer),
            24 => Some(BatteryType::Scanner),
            25 => Some(BatteryType::Camera),
            26 => Some(BatteryType::Wearable),
            27 => Some(BatteryType::Toy),
            28 => Some(BatteryType::BluetoothGeneric),
            _ => None,
        }
    }
}

/// The coarse charge level of a battery without fine reporting.
#[derive(Debug, Clone, Copy, PartialEq, Eq, Structural)]
pub enum BatteryLevel {
    Unknown,
    NoLevel,
    Low,
    Critical,
    Normal,
    High,
    Full,
}

/// The level a published code names.
pub open spec fn battery_level_of(code: u32) -> Option<BatteryLevel> {
    match code {
        0u32 => Some(BatteryLevel::Unknown),
        1u32 => Some(BatteryLevel::NoLevel),
        3u32 => Some(BatteryLevel::Low),
        4u32 => Some(BatteryLevel::Critical),
        6u32 => Some(BatteryLevel::Normal),
        7u32 => Some(BatteryLevel::High),
        8u32 => Some(BatteryLevel::Full),
        _ => None,
    }
}

impl BatteryLevel {
    /// Types a raw code reading; an unpublished code reads as nothing.
    pub fn from_code(code: u32) -> (r: Option<BatteryLevel>)
        ensures
            r == battery_level_of(code),
    {
        match code {
            0 => Some(BatteryLevel::Unknown),
            1 => Some(BatteryLevel::NoLevel),
            3 => Some(BatteryLevel::Low),
            4 => Some(BatteryLevel::Critical),
            6 => Some(BatteryLevel::Normal),
            7 => Some(BatteryLevel::High),
            8 => Some(BatteryLevel::Full),
            _ => None,
        }
    }
}

/// The cell technology of a battery.
#[derive(Debug, Clone, Copy, PartialEq, Eq, Structural)]
pub enum BatteryTechnology {
    Unknown,
    LithiumIon,
    LithiumPolymer,
    LithiumIronPhosphate,
    LeadAcid,
    NickelCadmium,
    NickelMetalHydride,
}

/// The technology a published code names.
pub open spec fn battery_technology_of(code: u32) -> Option<BatteryTechnology> {
    match code {
        0u32 => Some(BatteryTechnology::Unknown),
        1u32 => Some(BatteryTechnology::LithiumIon),
        2u32 => Some(BatteryTechnology::LithiumPolymer),
        3u32 => Some(BatteryTechnology::LithiumIronPhosphate),
        4u32 => Some(BatteryTechnology::LeadAcid),
        5u32 => Some(BatteryTechnology::NickelCadmium),
        6u32 => Some(BatteryTechnology::NickelMetalHydride),
        _ => None,
    }
}

impl BatteryTechnology {
    /// Types a raw code reading; an unpublished code reads as nothing.
    pub fn from_code(code: u32) -> (r: Option<BatteryTechnology>)
        ensures
            r == battery_technology_of(code),
    {
        match code {
            0 => Some(BatteryTechnology::Unknown),
            1 => Some(BatteryTechnology::LithiumIon),
            2 => Some(BatteryTechnology::LithiumPolymer),
            3 => Some(BatteryTechnology::LithiumIronPhosphate),
            4 => Some(BatteryTechnology::LeadAcid),
            5 => Some(BatteryTechnology::NickelCadmium),
            6 => Some(BatteryTechnology::NickelMetalHydride),
            _ => None,
        }
    }
}

} // verus!
