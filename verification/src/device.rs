//! Memory-mapped devices: the interface the bus talks to, and a RAM device.

use vstd::prelude::*;

verus! {

/// The mathematical state of a device, as far as the bus can observe it:
/// what a read at each offset yields, and the state a write leads to.
pub trait DeviceModel: Sized {
    /// The byte that a read at `offset` returns in this state. Unless a
    /// model says otherwise, every read yields zero.
    open spec fn peek(self, offset: u16) -> u8 {
        0
    }

    /// The state after `data` has been written at `offset`. Unless a model
    /// says otherwise, a write changes nothing.
    open spec fn poke(self, offset: u16, data: u8) -> Self {
        self
    }
}

/// A device that answers 8-bit reads and writes at 16-bit offsets relative to
/// the start of the region it is mapped to.
///
/// An implementation chooses a model of its state and promises that `read`
/// and `write` follow that model. Neither may fail: a device that has nothing
/// meaningful at an offset returns a fixed byte and ignores writes there.
///
/// The model and the tag come with bodies, so that a device written outside
/// verified code needs the model's type and the three executable methods
/// only; nothing is then proved of it.
pub trait Device {
    /// The model of this device's state.
    type Model: DeviceModel;

    /// The current state of the device. Unless a device says otherwise,
    /// nothing is known of it.
    open spec fn model(&self) -> Self::Model {
        arbitrary()
    }

    /// The tag that names the kind of device. Unless a device says
    /// otherwise, nothing is known of it.
    open spec fn tag(&self) -> Seq<char> {
        arbitrary()
    }

    /// A short tag naming the kind of device, for diagnostics.
    fn get_type(&self) -> (name: String)
        ensures
            name@ == self.tag(),
    ;

    /// Reads the byte at `address`, an offset into the device.
    fn read(&self, address: u16) -> (byte: u8)
        ensures
            byte == self.model().peek(address),
    ;

    /// Writes `data` at `address`, an offset into the device. The device
    /// stays of its kind.
    fn write(&mut self, address: u16, data: u8)
        ensures
            final(self).model() == old(self).model().poke(address, data),
            final(self).tag() == old(self).tag(),
    ;
}

/// The model of a RAM: its bytes in order. Offsets past the end read as zero
/// and ignore writes.
impl DeviceModel for Seq<u8> {
    open spec fn peek(self, offset: u16) -> u8 {
        if offset < self.len() {
            self[offset as int]
        } else {
            0
        }
    }

    open spec fn poke(self, offset: u16, data: u8) -> Seq<u8> {
        if offset < self.len() {
            self.update(offset as int, data)
        } else {
            self
        }
    }
}

/// The model of a device without state: every read yields zero and a write
/// changes nothing that a later read could see.
impl DeviceModel for () {}

/// Random-access memory of a fixed size, all zero when created.
pub struct Ram {
    data: Vec<u8>,
}

impl View for Ram {
    type V = Seq<u8>;

    closed spec fn view(&self) -> Seq<u8> {
        self.data@
    }
}

impl Ram {
    /// Creates a RAM of `size` bytes, all zero.
    pub fn new(size: usize) -> (ram: Ram)
        ensures
            ram@ == Seq::new(size as nat, |i: int| 0u8),
    {
        let ram = Ram { data: vec![0u8; size] };
        assert(ram.data@ =~= Seq::new(size as nat, |i: int| 0u8));
        ram
    }
}

impl Device for Ram {
    type Model = Seq<u8>;

    open spec fn model(&self) -> Seq<u8> {
        self@
    }

    open spec fn tag(&self) -> Seq<char> {
        "Ram"@
    }

    fn get_type(&self) -> (name: String) {
        "Ram".to_string()
    }

    fn read(&self, address: u16) -> (byte: u8) {
        let at = address as usize;
        if at < self.data.len() {
            self.data[at]
        } else {
            0
        }
    }

    fn write(&mut self, address: u16, data: u8) {
        let at = address as usize;
        if at < self.data.len() {
            self.data.set(at, data);
        }
    }
}

/// The state of a region's backing: the model of the bus's own RAM, or that
/// of a plugged device.
pub enum BackingModel<M> {
    Ram(Seq<u8>),
    Plugged(M),
}

impl<M: DeviceModel> DeviceModel for BackingModel<M> {
    open spec fn peek(self, offset: u16) -> u8 {
        match self {
            BackingModel::Ram(bytes) => bytes.peek(offset),
            BackingModel::Plugged(device) => device.peek(offset),
        }
    }

    open spec fn poke(self, offset: u16, data: u8) -> BackingModel<M> {
        match self {
            BackingModel::Ram(bytes) => BackingModel::Ram(bytes.poke(offset, data)),
            BackingModel::Plugged(device) => BackingModel::Plugged(device.poke(offset, data)),
        }
    }
}

/// What stands behind a region of the bus: the RAM that the bus brings
/// itself, or a device of the caller's kind `D`.
pub enum Backing<D> {
    Ram(Ram),
    Plugged(D),
}

impl<D: Device> Device for Backing<D> {
    type Model = BackingModel<D::Model>;

    open spec fn model(&self) -> BackingModel<D::Model> {
        match self {
            Backing::Ram(ram) => BackingModel::Ram(ram@),
            Backing::Plugged(device) => BackingModel::Plugged(device.model()),
        }
    }

    open spec fn tag(&self) -> Seq<char> {
        match self {
            Backing::Ram(ram) => ram.tag(),
            Backing::Plugged(device) => device.tag(),
        }
    }

    fn get_type(&self) -> (name: String) {
        match self {
            Backing::Ram(ram) => ram.get_type(),
            Backing::Plugged(device) => device.get_type(),
        }
    }

    fn read(&self, address: u16) -> (byte: u8) {
        match self {
            Backing::Ram(ram) => ram.read(address),
            Backing::Plugged(device) => device.read(address),
        }
    }

    fn write(&mut self, address: u16, data: u8) {
        match self {
            Backing::Ram(ram) => ram.write(address, data),
            Backing::Plugged(device) => device.write(address, data),
        }
    }
}

} // verus!
