//! The bus: an ordered list of address regions, each backed by a device.
//!
//! A read or a write goes to the first region, in priority order, whose
//! bounds cover the address, at the offset of the address from the region's
//! start. The region mapped last has the highest priority.

use crate::device::{Backing, BackingModel, Device, DeviceModel, Ram};
use crate::error::Error;
use crate::text::{hex4, push_hex4};
use vstd::prelude::*;

verus! {

/// The model of one region: its inclusive bounds and the state of its device.
pub struct Mapping<M> {
    pub start: u16,
    pub end: u16,
    pub device: M,
}

impl<M> Mapping<M> {
    /// Whether `address` lies within the region's bounds, both inclusive.
    pub open spec fn covers(self, address: u16) -> bool {
        self.start <= address <= self.end
    }

    /// Whether the region's bounds are exactly `start` and `end`.
    pub open spec fn spans(self, start: u16, end: u16) -> bool {
        self.start == start && self.end == end
    }
}

/// Whether region `i` of `bus` is the first, in priority order, that covers
/// `address`.
pub open spec fn first_cover<M>(bus: Seq<Mapping<M>>, address: u16, i: int) -> bool {
    &&& 0 <= i < bus.len()
    &&& bus[i].covers(address)
    &&& forall|j: int| 0 <= j < i ==> !(#[trigger] bus[j]).covers(address)
}

/// The index of the region that an access to `address` goes to, if any.
pub open spec fn resolve<M>(bus: Seq<Mapping<M>>, address: u16) -> Option<int> {
    if exists|i: int| first_cover(bus, address, i) {
        Some(choose|i: int| first_cover(bus, address, i))
    } else {
        None
    }
}

/// Whether region `i` of `bus` is the first, in priority order, whose bounds
/// are exactly `start` and `end`.
pub open spec fn first_span<M>(bus: Seq<Mapping<M>>, start: u16, end: u16, i: int) -> bool {
    &&& 0 <= i < bus.len()
    &&& bus[i].spans(start, end)
    &&& forall|j: int| 0 <= j < i ==> !(#[trigger] bus[j]).spans(start, end)
}

/// What a read at `address` yields: the byte that the covering region's
/// device holds at the address's offset, or the failure.
pub open spec fn peek<M: DeviceModel>(bus: Seq<Mapping<M>>, address: u16) -> Result<u8, Error> {
    match resolve(bus, address) {
        Some(i) => Ok(bus[i].device.peek((address - bus[i].start) as u16)),
        None => Err(Error::UnmappedAddress(address)),
    }
}

/// The bus after a write of `data` at `address`: the covering region's device
/// has taken the write at the address's offset and nothing else has changed.
/// Where no region covers the address the write fails.
pub open spec fn poke<M: DeviceModel>(bus: Seq<Mapping<M>>, address: u16, data: u8) -> Result<
    Seq<Mapping<M>>,
    Error,
> {
    match resolve(bus, address) {
        Some(i) => Ok(
            bus.update(
                i,
                Mapping {
                    start: bus[i].start,
                    end: bus[i].end,
                    device: bus[i].device.poke((address - bus[i].start) as u16, data),
                },
            ),
        ),
        None => Err(Error::UnmappedAddress(address)),
    }
}

/// The bus after a region has been mapped: the new region stands first.
pub open spec fn mapped<M>(bus: Seq<Mapping<M>>, start: u16, end: u16, device: M) -> Seq<
    Mapping<M>,
> {
    seq![Mapping { start, end, device }] + bus
}

/// The index of the first region with bounds `start` and `end`, if any.
pub open spec fn find_span<M>(bus: Seq<Mapping<M>>, start: u16, end: u16) -> Option<int> {
    if exists|i: int| first_span(bus, start, end, i) {
        Some(choose|i: int| first_span(bus, start, end, i))
    } else {
        None
    }
}

/// The bus after the first region with bounds `start` and `end` has been
/// taken out, or the failure where there is none.
pub open spec fn unmapped<M>(bus: Seq<Mapping<M>>, start: u16, end: u16) -> Result<
    Seq<Mapping<M>>,
    Error,
> {
    match find_span(bus, start, end) {
        Some(i) => Ok(bus.remove(i)),
        None => Err(Error::NoSuchRegion(start, end)),
    }
}

/// A region that is the first with the given bounds is the one that a
/// search for those bounds finds.
pub proof fn find_span_finds_first_span<M>(bus: Seq<Mapping<M>>, start: u16, end: u16, i: int)
    requires
        first_span(bus, start, end, i),
    ensures
        find_span(bus, start, end) == Some(i),
{
    let k = choose|k: int| first_span(bus, start, end, k);
    assert(first_span(bus, start, end, k));
    if k < i {
        assert(!bus[k].spans(start, end));
    }
    if i < k {
        assert(!bus[i].spans(start, end));
    }
}

/// A region that is the first to cover an address is the one the address
/// resolves to.
pub proof fn resolve_finds_first_cover<M>(bus: Seq<Mapping<M>>, address: u16, i: int)
    requires
        first_cover(bus, address, i),
    ensures
        resolve(bus, address) == Some(i),
{
    let k = choose|k: int| first_cover(bus, address, k);
    assert(first_cover(bus, address, k));
    if k < i {
        assert(!bus[k].covers(address));
    }
    if i < k {
        assert(!bus[i].covers(address));
    }
}

/// An address resolves to a region exactly when some region covers it, and
/// then to the first such region.
pub proof fn resolve_is_exact<M>(bus: Seq<Mapping<M>>, address: u16)
    ensures
        match resolve(bus, address) {
            Some(i) => first_cover(bus, address, i),
            None => forall|j: int| 0 <= j < bus.len() ==> !(#[trigger] bus[j]).covers(address),
        },
{
    if resolve(bus, address) is None {
        assert forall|j: int| 0 <= j < bus.len() implies !(#[trigger] bus[j]).covers(address) by {
            if bus[j].covers(address) {
                least_cover(bus, address, j);
            }
        }
    }
}

/// Below any region that covers an address there is a first one that does.
proof fn least_cover<M>(bus: Seq<Mapping<M>>, address: u16, j: int)
    requires
        0 <= j < bus.len(),
        bus[j].covers(address),
    ensures
        exists|i: int| first_cover(bus, address, i),
    decreases j,
{
    if exists|k: int| 0 <= k < j && (#[trigger] bus[k]).covers(address) {
        let k = choose|k: int| 0 <= k < j && (#[trigger] bus[k]).covers(address);
        least_cover(bus, address, k);
    } else {
        assert(first_cover(bus, address, j));
    }
}

/// How a region shows in the bus's description: a space, its bounds as four
/// hexadecimal digits each with a hyphen between, a colon and a space, its
/// device's tag, and a comma.
pub open spec fn described_region(start: u16, end: u16, tag: Seq<char>) -> Seq<char> {
    seq![' '] + hex4(start as int) + seq!['-'] + hex4(end as int) + seq![':', ' '] + tag + seq![',']
}

/// The opening of the bus's description.
pub open spec fn description_head() -> Seq<char> {
    seq!['D', 'e', 'v', 'i', 'c', 'e', 'M', 'a', 'p', 'p', 'e', 'r', ' ', '{']
}

/// The bus's description without its closing brace: the opening, then each
/// region in priority order. `tags` holds the tag of each region's device.
pub open spec fn described<M>(bus: Seq<Mapping<M>>, tags: Seq<Seq<char>>) -> Seq<char>
    decreases bus.len(),
{
    if bus.len() == 0 {
        description_head()
    } else {
        described(bus.drop_last(), tags.drop_last()) + described_region(
            bus.last().start,
            bus.last().end,
            tags.last(),
        )
    }
}

/// The description of the first `i + 1` regions is that of the first `i`
/// followed by region `i`.
proof fn described_grows<M>(bus: Seq<Mapping<M>>, tags: Seq<Seq<char>>, i: int)
    requires
        0 <= i < bus.len(),
        tags.len() == bus.len(),
    ensures
        described(bus.take(i + 1), tags.take(i + 1)) == described(bus.take(i), tags.take(i))
            + described_region(bus[i].start, bus[i].end, tags[i]),
{
    assert(bus.take(i + 1).drop_last() == bus.take(i));
    assert(tags.take(i + 1).drop_last() == tags.take(i));
}

/// Appends a region to the bus's description.
fn push_region(text: &mut String, start: u16, end: u16, tag: &str)
    ensures
        final(text)@ == old(text)@ + described_region(start, end, tag@),
{
    text.push(' ');
    push_hex4(text, start);
    text.push('-');
    push_hex4(text, end);
    text.push(':');
    text.push(' ');
    text.push_str(tag);
    text.push(',');
    assert(text@ =~= old(text)@ + described_region(start, end, tag@));
}

/// One region of the bus: inclusive bounds and the device behind them.
pub struct Region<D> {
    pub start: u16,
    pub end: u16,
    pub device: D,
}

impl<D: Device> View for Region<D> {
    type V = Mapping<D::Model>;

    open spec fn view(&self) -> Mapping<D::Model> {
        Mapping { start: self.start, end: self.end, device: self.device.model() }
    }
}

impl<D: Device> Region<D> {
    /// A region from `start` to `end`, both inclusive, backed by `device`.
    pub fn new(start: u16, end: u16, device: D) -> (region: Region<D>)
        ensures
            region == (Region { start, end, device }),
    {
        Region { start, end, device }
    }

    /// Whether `address` lies within the region's bounds.
    pub fn contains(&self, address: u16) -> (covered: bool)
        ensures
            covered == self@.covers(address),
    {
        address >= self.start && address <= self.end
    }
}

/// The bus. `D` is the kind of device that callers plug in; the RAM that a
/// new bus comes with is the bus's own.
pub struct DeviceMapper<D: Device> {
    regions: Vec<Region<Backing<D>>>,
}

impl<D: Device> View for DeviceMapper<D> {
    type V = Seq<Mapping<BackingModel<D::Model>>>;

    closed spec fn view(&self) -> Seq<Mapping<BackingModel<D::Model>>> {
        Seq::new(self.regions@.len(), |i: int| self.regions@[i]@)
    }
}

/// The bytes of a fresh RAM of 64 KiB.
pub open spec fn blank_ram() -> Seq<u8> {
    Seq::new(0x10000, |i: int| 0u8)
}

impl<D: Device> DeviceMapper<D> {
    /// A bus with a single region that covers every address, 0x0000 to
    /// 0xFFFF, backed by a fresh RAM of 64 KiB.
    pub fn new() -> (bus: DeviceMapper<D>)
        ensures
            bus@ == seq![
                Mapping::<BackingModel<D::Model>> {
                    start: 0x0000,
                    end: 0xFFFF,
                    device: BackingModel::Ram(blank_ram()),
                },
            ],
            bus.tags() == seq!["Ram"@],
    {
        let ram = Ram::new(0x10000);
        let mut regions: Vec<Region<Backing<D>>> = Vec::new();
        regions.push(Region::new(0x0000, 0xFFFF, Backing::Ram(ram)));
        let bus = DeviceMapper { regions };
        assert(bus.tags() =~= seq!["Ram"@]);
        assert(bus@ =~= seq![
            Mapping::<BackingModel<D::Model>> {
                start: 0x0000,
                end: 0xFFFF,
                device: BackingModel::Ram(blank_ram()),
            },
        ]);
        bus
    }

    /// Maps `device` to the addresses from `start` to `end`, both inclusive,
    /// ahead of every region mapped before: where regions overlap, the new
    /// one is the one that answers. A region whose start lies above its end
    /// covers no address.
    pub fn map(&mut self, start: u16, end: u16, device: D)
        ensures
            final(self)@ == mapped(
                old(self)@,
                start,
                end,
                BackingModel::Plugged(device.model()),
            ),
            final(self).tags() == seq![device.tag()] + old(self).tags(),
    {
        let region = Region::new(start, end, Backing::Plugged(device));
        self.regions.insert(0, region);
        assert(self@ =~= mapped(old(self)@, start, end, BackingModel::Plugged(device.model())));
        assert(self.tags() =~= seq![device.tag()] + old(self).tags());
    }

    /// Takes out the first region, in priority order, whose bounds are
    /// exactly `start` and `end`. Fails, and changes nothing, where there is
    /// no such region.
    pub fn unmap(&mut self, start: u16, end: u16) -> (outcome: Result<(), Error>)
        ensures
            match unmapped(old(self)@, start, end) {
                Ok(bus) => outcome is Ok && final(self)@ == bus,
                Err(error) => outcome == Err::<(), Error>(error) && final(self)@ == old(self)@,
            },
            final(self).tags() == match find_span(old(self)@, start, end) {
                Some(i) => old(self).tags().remove(i),
                None => old(self).tags(),
            },
    {
        let mut i: usize = 0;
        while i < self.regions.len()
            invariant
                0 <= i <= self.regions.len(),
                *self == *old(self),
                forall|j: int| 0 <= j < i ==> !(#[trigger] self@[j]).spans(start, end),
            decreases self.regions.len() - i,
        {
            if self.regions[i].start == start && self.regions[i].end == end {
                proof {
                    assert(first_span(self@, start, end, i as int));
                    find_span_finds_first_span(self@, start, end, i as int);
                }
                self.regions.remove(i);
                assert(self@ =~= old(self)@.remove(i as int));
                assert(self.tags() =~= old(self).tags().remove(i as int));
                return Ok(());
            }
            i += 1;
        }
        proof {
            let bus = self@;
            assert forall|k: int| !first_span(bus, start, end, k) by {
                if 0 <= k < bus.len() {
                    assert(!bus[k].spans(start, end));
                }
            }
        }
        Err(Error::NoSuchRegion(start, end))
    }

    /// The tag of each region's device, in priority order.
    pub closed spec fn tags(&self) -> Seq<Seq<char>> {
        Seq::new(self.regions@.len(), |i: int| self.regions@[i].device.tag())
    }

    /// The bus as text, for diagnostics: `DeviceMapper {`, then for each
    /// region in priority order its bounds in hexadecimal and the tag of its
    /// device, then `}`.
    pub fn describe(&self) -> (text: String)
        ensures
            text@ == described(self@, self.tags()) + seq!['}'],
    {
        let mut text = String::new();
        text.push_str("DeviceMapper {");
        proof {
            reveal_strlit("DeviceMapper {");
            assert(text@ =~= description_head());
        }
        let mut i: usize = 0;
        while i < self.regions.len()
            invariant
                0 <= i <= self.regions.len(),
                text@ == described(self@.take(i as int), self.tags().take(i as int)),
            decreases self.regions.len() - i,
        {
            let region = &self.regions[i];
            let name = region.device.get_type();
            push_region(&mut text, region.start, region.end, name.as_str());
            proof {
                described_grows(self@, self.tags(), i as int);
            }
            i += 1;
        }
        proof {
            assert(self@.take(i as int) == self@);
            assert(self.tags().take(i as int) == self.tags());
        }
        text.push('}');
        text
    }

    /// The index of the first region that covers `address`, if any.
    fn find(&self, address: u16) -> (found: Option<usize>)
        ensures
            match found {
                Some(i) => resolve(self@, address) == Some(i as int) && i < self.regions@.len(),
                None => resolve(self@, address) is None,
            },
    {
        let mut i: usize = 0;
        while i < self.regions.len()
            invariant
                0 <= i <= self.regions.len(),
                forall|j: int| 0 <= j < i ==> !(#[trigger] self@[j]).covers(address),
            decreases self.regions.len() - i,
        {
            if self.regions[i].contains(address) {
                proof {
                    resolve_finds_first_cover(self@, address, i as int);
                }
                return Some(i);
            }
            i += 1;
        }
        proof {
            let bus = self@;
            assert forall|k: int| !first_cover(bus, address, k) by {
                if 0 <= k < bus.len() {
                    assert(!bus[k].covers(address));
                }
            }
        }
        None
    }

    /// Reads the byte at `address` from the device of the first region that
    /// covers it. Fails where no region does.
    pub fn read(&self, address: u16) -> (outcome: Result<u8, Error>)
        ensures
            outcome == peek(self@, address),
    {
        match self.find(address) {
            Some(i) => {
                let offset = address - self.regions[i].start;
                Ok(self.regions[i].device.read(offset))
            },
            None => Err(Error::UnmappedAddress(address)),
        }
    }

    /// Writes `data` at `address` to the device of the first region that
    /// covers it. Fails, and changes nothing, where no region does.
    pub fn write(&mut self, address: u16, data: u8) -> (outcome: Result<(), Error>)
        ensures
            match poke(old(self)@, address, data) {
                Ok(bus) => outcome is Ok && final(self)@ == bus,
                Err(error) => outcome == Err::<(), Error>(error) && final(self)@ == old(self)@,
            },
            final(self).tags() == old(self).tags(),
    {
        match self.find(address) {
            Some(i) => {
                let offset = address - self.regions[i].start;
                self.regions[i].device.write(offset, data);
                assert(self@ =~= poke(old(self)@, address, data)->Ok_0);
                assert(self.tags() =~= old(self).tags());
                Ok(())
            },
            None => Err(Error::UnmappedAddress(address)),
        }
    }
}

} // verus!
