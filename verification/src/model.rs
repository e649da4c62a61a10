//! The G213 as a model: what identifies it on the bus, what it offers, and
//! which of the devices that the caller has enumerated are opened keyboards
//! of this model.

use vstd::prelude::*;
use crate::color::RgbColor;
use crate::command::{CommandError, CommandResult, Phase, TransportError, MAX_SECTOR};
use crate::device::G213Device;

verus! {

/// The vendor id of Logitech.
pub const ID_VENDOR: u16 = 0x046d;

/// The product id of the G213.
pub const ID_PRODUCT: u16 = 0xc336;

/// The pair of ids by which a USB device says what it is.
#[derive(Clone, Copy, Debug, PartialEq, Eq, Structural)]
pub struct DeviceIdentity {
    pub vendor_id: u16,
    pub product_id: u16,
}

/// A device of the enumeration: what its descriptor says, or `None` where the
/// descriptor could not be read, and the caller's own value for the device.
#[derive(Debug)]
pub struct Candidate<D> {
    pub descriptor: Option<DeviceIdentity>,
    pub device: D,
}

/// The G213 keyboard as a model.
#[derive(Clone, Copy, Debug, PartialEq, Eq, Structural)]
pub struct G213Model;

/// Whether a descriptor is that of a G213. A device without a readable
/// descriptor is none.
pub open spec fn is_g213(descriptor: Option<DeviceIdentity>) -> bool {
    descriptor == Some(DeviceIdentity { vendor_id: ID_VENDOR, product_id: ID_PRODUCT })
}

/// The device of a candidate that is a G213.
pub open spec fn matched<D>(candidate: Candidate<D>) -> Option<D> {
    if is_g213(candidate.descriptor) {
        Some(candidate.device)
    } else {
        None
    }
}

/// The devices of the candidates that are G213 keyboards, in their order.
pub open spec fn matching<D>(candidates: Seq<Candidate<D>>) -> Seq<D> {
    candidates.filter_map(|candidate: Candidate<D>| matched(candidate))
}

/// What `try_open_device` makes of the outcome of opening a device.
pub open spec fn try_opened<H>(opened: Result<H, TransportError>) -> CommandResult<G213Device<H>> {
    match opened {
        Ok(handle) => Ok(G213Device::idle(handle)),
        Err(e) => Err(CommandError::Usb(Phase::OpenDevice, e)),
    }
}

/// The device that the outcome of opening one gives, if any.
pub open spec fn opened_device<H>(opened: Result<H, TransportError>) -> Option<G213Device<H>> {
    match opened {
        Ok(handle) => Some(G213Device::idle(handle)),
        Err(_) => None,
    }
}

/// The devices that were opened, in their order.
pub open spec fn opened_devices<H>(opened: Seq<Result<H, TransportError>>) -> Seq<G213Device<H>> {
    opened.filter_map(|outcome: Result<H, TransportError>| opened_device(outcome))
}

impl G213Model {
    pub fn new() -> (model: Self)
        ensures
            model == G213Model,
    {
        G213Model
    }

    /// Whether a descriptor is that of a G213.
    pub fn matches(&self, descriptor: &Option<DeviceIdentity>) -> (found: bool)
        ensures
            found == is_g213(*descriptor),
    {
        match descriptor {
            Some(identity) => identity.vendor_id == ID_VENDOR && identity.product_id == ID_PRODUCT,
            None => false,
        }
    }

    /// The first half of discovery: picks the G213 keyboards out of the
    /// enumerated devices, for the caller to open them.
    pub fn find<D>(&self, devices: Vec<Candidate<D>>) -> (found: Vec<D>)
        ensures
            found@ == matching(devices@),
    {
        let ghost all = devices@;
        let mut found: Vec<D> = Vec::new();
        for candidate in it: devices
            invariant
                it.seq() == all,
                found@ == matching(all.take(it.index() as int)),
        {
            proof {
                all.lemma_filter_map_take_succ(
                    |candidate: Candidate<D>| matched(candidate),
                    it.index() as int,
                );
            }
            if self.matches(&candidate.descriptor) {
                found.push(candidate.device);
            }
        }
        assert(all.take(all.len() as int) =~= all);
        found
    }

    /// Makes a device of an opened handle, and of a failure to open the
    /// failure of the command that needed the device.
    pub fn try_open_device<H>(opened: Result<H, TransportError>) -> (device: CommandResult<
        G213Device<H>,
    >)
        ensures
            device == try_opened(opened),
    {
        match opened {
            Ok(handle) => Ok(G213Device::new(handle)),
            Err(e) => Err(CommandError::Usb(Phase::OpenDevice, e)),
        }
    }

    /// Makes a device of an opened handle. A device that could not be opened
    /// is left out: that does not end discovery.
    pub fn open_device<H>(opened: Result<H, TransportError>) -> (device: Option<G213Device<H>>)
        ensures
            device == opened_device(opened),
    {
        match Self::try_open_device(opened) {
            Ok(device) => Some(device),
            Err(_) => None,
        }
    }

    /// The second half of discovery: the devices that were opened, out of the
    /// outcomes of opening each keyboard that `find` has picked.
    pub fn open_devices<H>(opened: Vec<Result<H, TransportError>>) -> (devices: Vec<G213Device<H>>)
        ensures
            devices@ == opened_devices(opened@),
    {
        let ghost all = opened@;
        let mut devices: Vec<G213Device<H>> = Vec::new();
        for outcome in it: opened
            invariant
                it.seq() == all,
                devices@ == opened_devices(all.take(it.index() as int)),
        {
            proof {
                all.lemma_filter_map_take_succ(
                    |outcome: Result<H, TransportError>| opened_device(outcome),
                    it.index() as int,
                );
            }
            match Self::open_device(outcome) {
                Some(device) => {
                    devices.push(device);
                },
                None => {},
            }
        }
        assert(all.take(all.len() as int) =~= all);
        devices
    }

    /// The number of sectors that can be lit separately.
    pub fn get_sectors(&self) -> (sectors: u8)
        ensures
            sectors == 5,
            sectors == MAX_SECTOR + 1,
    {
        5
    }

    /// The colour that comes out white on this keyboard.
    pub fn get_default_color(&self) -> (color: RgbColor)
        ensures
            color == RgbColor(0xff, 0xb4, 0xaa),
    {
        RgbColor(0xff, 0xb4, 0xaa)
    }

    /// The name of the model.
    pub fn get_name(&self) -> (name: &'static str)
        ensures
            name@ == "G213"@,
    {
        "G213"
    }
}

impl Default for G213Model {
    fn default() -> (model: Self)
        ensures
            model == G213Model,
    {
        G213Model
    }
}

/// What a sequence gives is what its parts give, one after the other.
proof fn lemma_filter_map_concat<A, B>(front: Seq<A>, back: Seq<A>, f: spec_fn(A) -> Option<B>)
    ensures
        (front + back).filter_map(f) == front.filter_map(f) + back.filter_map(f),
    decreases back.len(),
{
    if back.len() > 0 {
        assert((front + back).drop_last() =~= front + back.drop_last());
        lemma_filter_map_concat(front, back.drop_last(), f);
    }
}

/// An element that gives nothing can be taken out without a change to what
/// the others give.
proof fn lemma_filter_map_skips<A, B>(items: Seq<A>, k: int, f: spec_fn(A) -> Option<B>)
    requires
        0 <= k < items.len(),
        f(items[k]) is None,
    ensures
        items.filter_map(f) == items.remove(k).filter_map(f),
{
    let front = items.take(k);
    let back = items.skip(k + 1);
    assert(items =~= (front + seq![items[k]]) + back);
    lemma_filter_map_concat(front + seq![items[k]], back, f);
    lemma_filter_map_concat(front, seq![items[k]], f);
    lemma_filter_map_concat(front, back, f);
    Seq::lemma_filter_map_singleton(items[k], f);
}

/// A device whose descriptor cannot be read does not disturb discovery: it is
/// left out, and the keyboards found are those found without it.
pub proof fn lemma_unreadable_descriptor_is_skipped<D>(candidates: Seq<Candidate<D>>, k: int)
    requires
        0 <= k < candidates.len(),
        candidates[k].descriptor is None,
    ensures
        matching(candidates) == matching(candidates.remove(k)),
{
    lemma_filter_map_skips(candidates, k, |candidate: Candidate<D>| matched(candidate));
}

/// A keyboard that cannot be opened does not disturb discovery: it is left
/// out, and the devices returned are those returned without it.
pub proof fn lemma_failed_open_is_skipped<H>(opened: Seq<Result<H, TransportError>>, k: int)
    requires
        0 <= k < opened.len(),
        opened[k] is Err,
    ensures
        opened_devices(opened) == opened_devices(opened.remove(k)),
{
    lemma_filter_map_skips(opened, k, |outcome: Result<H, TransportError>| opened_device(outcome));
}

} // verus!
