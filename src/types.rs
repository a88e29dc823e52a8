use vstd::prelude::*;

verus! {

/// Largest value of the `Full` output range.
pub const MAX_CHANNEL_VALUE: u16 = 26427;

/// One of the four single-ended inputs of the front end.
#[derive(Debug, Clone, Copy, PartialEq, Eq, Structural)]
pub enum Channel {
    A0,
    A1,
    A2,
    A3,
}

/// Device selector: which of four co-addressed front ends to talk to.
#[derive(Debug, Clone, Copy, PartialEq, Eq, Structural)]
pub enum Address {
    X48,
    X49,
    X4A,
    X4B,
}

/// Output bucket a channel's reading is scaled into.
#[derive(Debug, Clone, Copy, PartialEq, Eq, Structural)]
pub enum Range {
    Within255,
    Within511,
    Within1023,
    Full,
}

/// A channel whose scaled value differs from the one seen before.
#[derive(Debug, Clone, Copy, PartialEq, Eq, Structural)]
pub struct Change {
    pub channel: Channel,
    pub value: u16,
}

impl Channel {
    /// Position of the channel in the cycle A0, A1, A2, A3.
    pub open spec fn spec_index(self) -> int {
        match self {
            Channel::A0 => 0,
            Channel::A1 => 1,
            Channel::A2 => 2,
            Channel::A3 => 3,
        }
    }

    /// The channel at position `i` of the cycle.
    pub open spec fn spec_from_index(i: int) -> Channel {
        if i == 0 {
            Channel::A0
        } else if i == 1 {
            Channel::A1
        } else if i == 2 {
            Channel::A2
        } else {
            Channel::A3
        }
    }

    /// Position of the channel in the cycle A0, A1, A2, A3.
    pub fn index(&self) -> (r: usize)
        ensures
            r == self.spec_index(),
            r < 4,
    {
        match self {
            Channel::A0 => 0,
            Channel::A1 => 1,
            Channel::A2 => 2,
            Channel::A3 => 3,
        }
    }

    /// The channel at position `i` of the cycle.
    pub fn from_index(i: usize) -> (r: Channel)
        requires
            i < 4,
        ensures
            r == Channel::spec_from_index(i as int),
            r.spec_index() == i,
    {
        if i == 0 {
            Channel::A0
        } else if i == 1 {
            Channel::A1
        } else if i == 2 {
            Channel::A2
        } else {
            Channel::A3
        }
    }

    /// The channel sampled after this one: A0, A1, A2, A3, then A0 again.
    pub fn next(&self) -> (r: Channel)
        ensures
            r.spec_index() == (self.spec_index() + 1) % 4,
    {
        match self {
            Channel::A0 => Channel::A1,
            Channel::A1 => Channel::A2,
            Channel::A2 => Channel::A3,
            Channel::A3 => Channel::A0,
        }
    }
}

impl Address {
    /// Seven-bit bus address of the selected device.
    pub open spec fn spec_bus_address(self) -> u8 {
        match self {
            Address::X48 => 0x48,
            Address::X49 => 0x49,
            Address::X4A => 0x4A,
            Address::X4B => 0x4B,
        }
    }

    /// Initial timer value, in microseconds, that staggers the sampling of
    /// devices sharing one bus.
    pub open spec fn spec_phase_offset_us(self) -> u32 {
        match self {
            Address::X48 => 0,
            Address::X49 => 250,
            Address::X4A => 500,
            Address::X4B => 750,
        }
    }

    /// The selector used when none is given.
    pub fn default() -> (r: Address)
        ensures
            r == Address::X48,
    {
        Address::X48
    }

    /// The selector for a seven-bit bus address; an address that no device
    /// can take falls back to the default.
    pub fn from_u8(value: u8) -> (r: Address)
        ensures
            value == 0x49 ==> r == Address::X49,
            value == 0x4A ==> r == Address::X4A,
            value == 0x4B ==> r == Address::X4B,
            !(value == 0x49 || value == 0x4A || value == 0x4B) ==> r == Address::X48,
            r.spec_bus_address() == value || r == Address::X48,
    {
        match value {
            0x48 => Address::X48,
            0x49 => Address::X49,
            0x4A => Address::X4A,
            0x4B => Address::X4B,
            _ => Address::X48,
        }
    }

    /// Seven-bit bus address of the selected device.
    pub fn bus_address(&self) -> (r: u8)
        ensures
            r == self.spec_bus_address(),
    {
        match self {
            Address::X48 => 0x48,
            Address::X49 => 0x49,
            Address::X4A => 0x4A,
            Address::X4B => 0x4B,
        }
    }

    /// Initial timer value, in microseconds, for this selector.
    pub fn phase_offset_us(&self) -> (r: u32)
        ensures
            r == self.spec_phase_offset_us(),
    {
        match self {
            Address::X48 => 0,
            Address::X49 => 250,
            Address::X4A => 500,
            Address::X4B => 750,
        }
    }
}

} // verus!
