//! The tagged primitive values of the protocol: the ID byte and the bus and
//! route bits of the TYPE byte, each with total conversions to and from its
//! wire representation.

use vstd::prelude::*;

use crate::constants::id;

verus! {

/// What MMIX calls an u8.
pub type Byte = u8;

/// What MMIX calls an u16.
pub type Wyde = u16;

/// What MMIX calls an u32.
pub type Tetra = u32;

/// What MMIX calls an u64.
pub type Octa = u64;

/// The ID byte of the message header: 21 predefined message kinds plus a
/// catch-all for every other byte value.
#[derive(Debug, Copy, Clone, PartialEq, Eq, Structural)]
pub enum Id {
    /// A message the receiver may safely ignore; the bus may still unlock on it.
    Ignore,
    /// A request for `(SIZE+1)` octas of memory at the given address.
    Read,
    /// A request to store the payload octas at the given address.
    Write,
    /// The answer to a `Read`: the payload holds the requested memory.
    Readreply,
    /// The notice that a read request cannot be answered.
    Noreply,
    /// A request for one byte at the given address.
    Readbyte,
    /// A request for one wyde at the given address.
    Readwyde,
    /// A request for one tetra at the given address.
    Readtetra,
    /// A request to store one byte, left justified in the payload octa.
    Writebyte,
    /// A request to store one wyde, left justified in the payload octa.
    Writewyde,
    /// A request to store one tetra, left justified in the payload octa.
    Writetetra,
    /// The answer to a `Readbyte`.
    Bytereply,
    /// The answer to a `Readwyde`.
    Wydereply,
    /// The answer to a `Readtetra`.
    Tetrareply,
    /// A polite request to terminate the device simulator.
    Terminate,
    /// A request to register the sending device with the bus.
    Register,
    /// The notice that a registered device is about to disconnect.
    Unregister,
    /// An interrupt; the interrupt number, 0 to 63, stands in the SLOT byte.
    Interrupt,
    /// The hardware reset signal.
    Reset,
    /// The definite end of power.
    Poweroff,
    /// The beginning of life for a device.
    Poweron,
    /// Any ID byte without a predefined meaning.
    Other(u8),
}

/// The variant that a given ID byte decodes to.
pub open spec fn spec_id_from_byte(byte: u8) -> Id {
    if byte == id::IGNORE {
        Id::Ignore
    } else if byte == id::READ {
        Id::Read
    } else if byte == id::WRITE {
        Id::Write
    } else if byte == id::READREPLY {
        Id::Readreply
    } else if byte == id::NOREPLY {
        Id::Noreply
    } else if byte == id::READBYTE {
        Id::Readbyte
    } else if byte == id::READWYDE {
        Id::Readwyde
    } else if byte == id::READTETRA {
        Id::Readtetra
    } else if byte == id::WRITEBYTE {
        Id::Writebyte
    } else if byte == id::WRITEWYDE {
        Id::Writewyde
    } else if byte == id::WRITETETRA {
        Id::Writetetra
    } else if byte == id::BYTEREPLY {
        Id::Bytereply
    } else if byte == id::WYDEREPLY {
        Id::Wydereply
    } else if byte == id::TETRAREPLY {
        Id::Tetrareply
    } else if byte == id::TERMINATE {
        Id::Terminate
    } else if byte == id::REGISTER {
        Id::Register
    } else if byte == id::UNREGISTER {
        Id::Unregister
    } else if byte == id::INTERRUPT {
        Id::Interrupt
    } else if byte == id::RESET {
        Id::Reset
    } else if byte == id::POWEROFF {
        Id::Poweroff
    } else if byte == id::POWERON {
        Id::Poweron
    } else {
        Id::Other(byte)
    }
}

/// The byte that a given ID variant encodes to.
pub open spec fn spec_id_to_byte(i: Id) -> u8 {
    match i {
        Id::Ignore => id::IGNORE,
        Id::Read => id::READ,
        Id::Write => id::WRITE,
        Id::Readreply => id::READREPLY,
        Id::Noreply => id::NOREPLY,
        Id::Readbyte => id::READBYTE,
        Id::Readwyde => id::READWYDE,
        Id::Readtetra => id::READTETRA,
        Id::Writebyte => id::WRITEBYTE,
        Id::Writewyde => id::WRITEWYDE,
        Id::Writetetra => id::WRITETETRA,
        Id::Bytereply => id::BYTEREPLY,
        Id::Wydereply => id::WYDEREPLY,
        Id::Tetrareply => id::TETRAREPLY,
        Id::Terminate => id::TERMINATE,
        Id::Register => id::REGISTER,
        Id::Unregister => id::UNREGISTER,
        Id::Interrupt => id::INTERRUPT,
        Id::Reset => id::RESET,
        Id::Poweroff => id::POWEROFF,
        Id::Poweron => id::POWERON,
        Id::Other(val) => val,
    }
}

/// Every ID byte survives a decode followed by an encode: the 21 named
/// variants cover their 21 codes and `Other` carries every remaining byte
/// through unchanged.
pub proof fn lemma_id_byte_roundtrip(byte: u8)
    ensures
        spec_id_to_byte(spec_id_from_byte(byte)) == byte,
{
}

impl From<u8> for Id {
    fn from(byte: u8) -> Self {
        match byte {
            id::IGNORE => Self::Ignore,
            id::READ => Self::Read,
            id::WRITE => Self::Write,
            id::READREPLY => Self::Readreply,
            id::NOREPLY => Self::Noreply,
            id::READBYTE => Self::Readbyte,
            id::READWYDE => Self::Readwyde,
            id::READTETRA => Self::Readtetra,
            id::WRITEBYTE => Self::Writebyte,
            id::WRITEWYDE => Self::Writewyde,
            id::WRITETETRA => Self::Writetetra,
            id::BYTEREPLY => Self::Bytereply,
            id::WYDEREPLY => Self::Wydereply,
            id::TETRAREPLY => Self::Tetrareply,
            id::TERMINATE => Self::Terminate,
            id::REGISTER => Self::Register,
            id::UNREGISTER => Self::Unregister,
            id::INTERRUPT => Self::Interrupt,
            id::RESET => Self::Reset,
            id::POWEROFF => Self::Poweroff,
            id::POWERON => Self::Poweron,
            other => Self::Other(other),
        }
    }
}

impl vstd::std_specs::convert::FromSpecImpl<u8> for Id {
    open spec fn obeys_from_spec() -> bool {
        true
    }

    open spec fn from_spec(byte: u8) -> Self {
        spec_id_from_byte(byte)
    }
}

impl From<Id> for u8 {
    fn from(i: Id) -> Self {
        match i {
            Id::Ignore => id::IGNORE,
            Id::Read => id::READ,
            Id::Write => id::WRITE,
            Id::Readreply => id::READREPLY,
            Id::Noreply => id::NOREPLY,
            Id::Readbyte => id::READBYTE,
            Id::Readwyde => id::READWYDE,
            Id::Readtetra => id::READTETRA,
            Id::Writebyte => id::WRITEBYTE,
            Id::Writewyde => id::WRITEWYDE,
            Id::Writetetra => id::WRITETETRA,
            Id::Bytereply => id::BYTEREPLY,
            Id::Wydereply => id::WYDEREPLY,
            Id::Tetrareply => id::TETRAREPLY,
            Id::Terminate => id::TERMINATE,
            Id::Register => id::REGISTER,
            Id::Unregister => id::UNREGISTER,
            Id::Interrupt => id::INTERRUPT,
            Id::Reset => id::RESET,
            Id::Poweroff => id::POWEROFF,
            Id::Poweron => id::POWERON,
            Id::Other(val) => val,
        }
    }
}

impl vstd::std_specs::convert::FromSpecImpl<Id> for u8 {
    open spec fn obeys_from_spec() -> bool {
        true
    }

    open spec fn from_spec(i: Id) -> Self {
        spec_id_to_byte(i)
    }
}

/// The bus bit of the TYPE byte.
#[derive(Debug, Copy, Clone, PartialEq, Eq, Structural)]
pub enum Bus {
    /// A message from device to device that the bus merely forwards.
    DeviceMessage,
    /// A message for or from the bus (motherboard) itself.
    BusMessage,
}

/// The variant that a given bus bit decodes to.
pub open spec fn spec_bus_from_bit(bit: bool) -> Bus {
    if bit {
        Bus::BusMessage
    } else {
        Bus::DeviceMessage
    }
}

/// The bit that a given bus variant encodes to.
pub open spec fn spec_bus_to_bit(bus: Bus) -> bool {
    bus == Bus::BusMessage
}

impl From<bool> for Bus {
    fn from(bit: bool) -> Self {
        if bit {
            Self::BusMessage
        } else {
            Self::DeviceMessage
        }
    }
}

impl vstd::std_specs::convert::FromSpecImpl<bool> for Bus {
    open spec fn obeys_from_spec() -> bool {
        true
    }

    open spec fn from_spec(bit: bool) -> Self {
        spec_bus_from_bit(bit)
    }
}

impl From<Bus> for bool {
    fn from(bus: Bus) -> Self {
        match bus {
            Bus::DeviceMessage => false,
            Bus::BusMessage => true,
        }
    }
}

impl vstd::std_specs::convert::FromSpecImpl<Bus> for bool {
    open spec fn obeys_from_spec() -> bool {
        true
    }

    open spec fn from_spec(bus: Bus) -> Self {
        spec_bus_to_bit(bus)
    }
}

/// The route bit of the TYPE byte.
#[derive(Debug, Copy, Clone, PartialEq, Eq, Structural)]
pub enum Route {
    /// The receiver is the device in the SLOT byte.
    SlotRoute,
    /// The receiver is determined from the address field if the address bit
    /// is set; otherwise there is none, which is fine for bus messages and
    /// for messages with ID byte 0.
    OtherRoute,
}

/// The variant that a given route bit decodes to.
pub open spec fn spec_route_from_bit(bit: bool) -> Route {
    if bit {
        Route::SlotRoute
    } else {
        Route::OtherRoute
    }
}

/// The bit that a given route variant encodes to.
pub open spec fn spec_route_to_bit(route: Route) -> bool {
    route == Route::SlotRoute
}

impl From<bool> for Route {
    fn from(bit: bool) -> Self {
        if bit {
            Self::SlotRoute
        } else {
            Self::OtherRoute
        }
    }
}

impl vstd::std_specs::convert::FromSpecImpl<bool> for Route {
    open spec fn obeys_from_spec() -> bool {
        true
    }

    open spec fn from_spec(bit: bool) -> Self {
        spec_route_from_bit(bit)
    }
}

impl From<Route> for bool {
    fn from(route: Route) -> Self {
        match route {
            Route::SlotRoute => true,
            Route::OtherRoute => false,
        }
    }
}

impl vstd::std_specs::convert::FromSpecImpl<Route> for bool {
    open spec fn obeys_from_spec() -> bool {
        true
    }

    open spec fn from_spec(route: Route) -> Self {
        spec_route_to_bit(route)
    }
}

} // verus!
