use vstd::prelude::*;

verus! {

/// The input/output latch of a port.
#[derive(Debug, PartialEq, Eq, Structural, Clone, Copy)]
pub struct Io(pub u8);

/// The data direction register of a port: a set bit is an output.
#[derive(Debug, PartialEq, Eq, Structural, Clone, Copy)]
pub struct DataDirection(pub u8);

impl Default for Io {
    fn default() -> (r: Io)
        ensures
            r.0 == 0,
    {
        Io(0)
    }
}

impl Default for DataDirection {
    fn default() -> (r: DataDirection)
        ensures
            r.0 == 0,
    {
        DataDirection(0)
    }
}

impl From<Io> for u8 {
    fn from(p: Io) -> (r: u8) {
        p.0
    }
}

impl vstd::std_specs::convert::FromSpecImpl<Io> for u8 {
    open spec fn obeys_from_spec() -> bool {
        true
    }

    open spec fn from_spec(p: Io) -> u8 {
        p.0
    }
}

impl From<DataDirection> for u8 {
    fn from(d: DataDirection) -> (r: u8) {
        d.0
    }
}

impl vstd::std_specs::convert::FromSpecImpl<DataDirection> for u8 {
    open spec fn obeys_from_spec() -> bool {
        true
    }

    open spec fn from_spec(d: DataDirection) -> u8 {
        d.0
    }
}

/// A peripheral port: an I/O latch and a data direction register.
#[derive(Debug, PartialEq, Eq, Structural, Clone, Copy)]
pub struct PeripheralPort {
    pub io: Io,
    pub ddr: DataDirection,
}

impl Default for PeripheralPort {
    fn default() -> (p: PeripheralPort)
        ensures
            p.io.0 == 0,
            p.ddr.0 == 0,
    {
        PeripheralPort { io: Io(0), ddr: DataDirection(0) }
    }
}

impl PeripheralPort {
    pub fn new(io: Io, ddr: DataDirection) -> (p: PeripheralPort)
        ensures
            p.io == io,
            p.ddr == ddr,
    {
        PeripheralPort { io, ddr }
    }

    pub fn set_data_direction(&mut self, val: u8)
        ensures
            *final(self) == (PeripheralPort { ddr: DataDirection(val), ..*old(self) }),
    {
        self.ddr = DataDirection(val);
    }

    pub fn data_direction(&self) -> (d: DataDirection)
        ensures
            d == self.ddr,
    {
        self.ddr
    }

    pub fn set_io(&mut self, io: Io)
        ensures
            *final(self) == (PeripheralPort { io, ..*old(self) }),
    {
        self.io = io;
    }

    pub fn io(&self) -> (io: Io)
        ensures
            io == self.io,
    {
        self.io
    }

    /// The input bits of the latch; output bits read as zero.
    pub fn read(&self) -> (v: u8)
        ensures
            v == self.io.0 & !self.ddr.0,
    {
        self.io.0 & !self.ddr.0
    }

    /// Latches the output bits of `val`; input bits are pulled high.
    pub fn write(&mut self, val: u8)
        ensures
            *final(self) == (PeripheralPort {
                io: Io((val & old(self).ddr.0) | !old(self).ddr.0),
                ..*old(self)
            }),
    {
        self.io = Io((val & self.ddr.0) | !self.ddr.0);
    }
}

} // verus!
