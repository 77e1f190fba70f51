//! Driver metadata and INDIGO device interfaces.
use vstd::prelude::*;

verus! {

/// Information about a device driver
#[derive(Debug, Clone)]
pub struct DriverInfo {
    /// Unique name for this driver
    pub name: String,
    /// Human-readable description
    pub description: String,
    /// Driver version string
    pub version: String,
    /// INDIGO device interfaces this driver implements (bitmask)
    pub interfaces: u32,
}

/// What a driver's information holds.
pub struct InfoView {
    pub name: Seq<char>,
    pub description: Seq<char>,
    pub version: Seq<char>,
    pub interfaces: u32,
}

impl View for DriverInfo {
    type V = InfoView;

    open spec fn view(&self) -> InfoView {
        InfoView {
            name: self.name@,
            description: self.description@,
            version: self.version@,
            interfaces: self.interfaces,
        }
    }
}

impl DriverInfo {
    /// A copy of the information.
    pub(crate) fn duplicate(&self) -> (r: DriverInfo)
        ensures
            r@ == self@,
    {
        DriverInfo {
            name: self.name.clone(),
            description: self.description.clone(),
            version: self.version.clone(),
            interfaces: self.interfaces,
        }
    }
}

/// INDIGO device interface types, each a bit of the interface mask of the INDIGO
/// C API (`indigo_driver.h`).
#[derive(Debug, Clone, Copy, PartialEq, Eq)]
pub enum DeviceInterface {
    /// General device
    General,
    /// CCD camera
    Ccd,
    /// Filter wheel
    FilterWheel,
    /// Focuser
    Focuser,
    /// Mount
    Mount,
    /// Guider
    Guider,
    /// Dome
    Dome,
    /// GPS
    Gps,
    /// Weather station
    Weather,
    /// Auxiliary device
    Aux,
    /// Rotator
    Rotator,
    /// Adaptive optics
    Ao,
    /// Flat panel
    FlatPanel,
    /// Power/relay board
    PowerBoard,
}

impl DeviceInterface {
    /// The bit of the interface in the mask (none for a general device).
    pub open spec fn spec_bits(self) -> u32 {
        match self {
            DeviceInterface::General => 0,
            DeviceInterface::Ccd => 1,
            DeviceInterface::FilterWheel => 2,
            DeviceInterface::Focuser => 4,
            DeviceInterface::Mount => 8,
            DeviceInterface::Guider => 16,
            DeviceInterface::Dome => 32,
            DeviceInterface::Gps => 64,
            DeviceInterface::Weather => 128,
            DeviceInterface::Aux => 256,
            DeviceInterface::Rotator => 512,
            DeviceInterface::Ao => 1024,
            DeviceInterface::FlatPanel => 2048,
            DeviceInterface::PowerBoard => 4096,
        }
    }

    /// The bit of the interface in the mask (none for a general device).
    pub fn bits(&self) -> (r: u32)
        ensures
            r == self.spec_bits(),
    {
        match self {
            DeviceInterface::General => 0,
            DeviceInterface::Ccd => 1,
            DeviceInterface::FilterWheel => 2,
            DeviceInterface::Focuser => 4,
            DeviceInterface::Mount => 8,
            DeviceInterface::Guider => 16,
            DeviceInterface::Dome => 32,
            DeviceInterface::Gps => 64,
            DeviceInterface::Weather => 128,
            DeviceInterface::Aux => 256,
            DeviceInterface::Rotator => 512,
            DeviceInterface::Ao => 1024,
            DeviceInterface::FlatPanel => 2048,
            DeviceInterface::PowerBoard => 4096,
        }
    }

    /// Combine multiple interfaces into a bitmask
    pub fn combine(interfaces: &[DeviceInterface]) -> (r: u32)
        ensures
            r == combined_bits(interfaces@),
    {
        let mut acc: u32 = 0;
        let mut i: usize = 0;
        while i < interfaces.len()
            invariant
                i <= interfaces@.len(),
                acc == combined_bits(interfaces@.take(i as int)),
            decreases interfaces.len() - i,
        {
            assert(interfaces@.take(i + 1).drop_last() =~= interfaces@.take(i as int));
            acc = acc | interfaces[i].bits();
            i = i + 1;
        }
        assert(interfaces@.take(i as int) =~= interfaces@);
        acc
    }
}

/// The mask of a sequence of interfaces: the bits of all of them.
pub open spec fn combined_bits(s: Seq<DeviceInterface>) -> u32
    decreases s.len(),
{
    if s.len() == 0 {
        0
    } else {
        combined_bits(s.drop_last()) | s.last().spec_bits()
    }
}

/// The mask of interfaces holds the bit of each of them.
pub proof fn lemma_combined_holds_each(s: Seq<DeviceInterface>, i: int)
    requires
        0 <= i < s.len(),
    ensures
        combined_bits(s) & s[i].spec_bits() == s[i].spec_bits(),
    decreases s.len(),
{
    let a = combined_bits(s.drop_last());
    let b = s.last().spec_bits();
    let c = s[i].spec_bits();
    if i == s.len() - 1 {
        assert((a | b) & b == b) by (bit_vector);
    } else {
        lemma_combined_holds_each(s.drop_last(), i);
        assert(s.drop_last()[i] == s[i]);
        assert(a & c == c ==> (a | b) & c == c) by (bit_vector);
    }
}

/// The mask of two sequences of interfaces one after the other is the union of
/// their masks.
pub proof fn lemma_combined_concat(s: Seq<DeviceInterface>, t: Seq<DeviceInterface>)
    ensures
        combined_bits(s + t) == combined_bits(s) | combined_bits(t),
    decreases t.len(),
{
    let x = combined_bits(s);
    if t.len() == 0 {
        assert(s + t =~= s);
        assert(x | 0u32 == x) by (bit_vector);
    } else {
        assert((s + t).drop_last() =~= s + t.drop_last());
        lemma_combined_concat(s, t.drop_last());
        let y = combined_bits(t.drop_last());
        let b = t.last().spec_bits();
        assert((x | y) | b == x | (y | b)) by (bit_vector);
    }
}

/// The position of an interface's bit in the mask.
pub open spec fn bit_index(i: DeviceInterface) -> u32 {
    match i {
        DeviceInterface::General => 32,
        DeviceInterface::Ccd => 0,
        DeviceInterface::FilterWheel => 1,
        DeviceInterface::Focuser => 2,
        DeviceInterface::Mount => 3,
        DeviceInterface::Guider => 4,
        DeviceInterface::Dome => 5,
        DeviceInterface::Gps => 6,
        DeviceInterface::Weather => 7,
        DeviceInterface::Aux => 8,
        DeviceInterface::Rotator => 9,
        DeviceInterface::Ao => 10,
        DeviceInterface::FlatPanel => 11,
        DeviceInterface::PowerBoard => 12,
    }
}

proof fn lemma_bits_are_shifts(i: DeviceInterface)
    requires
        i != DeviceInterface::General,
    ensures
        bit_index(i) < 13,
        i.spec_bits() == 1u32 << bit_index(i),
{
    match i {
        DeviceInterface::General => {},
        DeviceInterface::Ccd => assert(1u32 == 1u32 << 0u32) by (bit_vector),
        DeviceInterface::FilterWheel => assert(2u32 == 1u32 << 1u32) by (bit_vector),
        DeviceInterface::Focuser => assert(4u32 == 1u32 << 2u32) by (bit_vector),
        DeviceInterface::Mount => assert(8u32 == 1u32 << 3u32) by (bit_vector),
        DeviceInterface::Guider => assert(16u32 == 1u32 << 4u32) by (bit_vector),
        DeviceInterface::Dome => assert(32u32 == 1u32 << 5u32) by (bit_vector),
        DeviceInterface::Gps => assert(64u32 == 1u32 << 6u32) by (bit_vector),
        DeviceInterface::Weather => assert(128u32 == 1u32 << 7u32) by (bit_vector),
        DeviceInterface::Aux => assert(256u32 == 1u32 << 8u32) by (bit_vector),
        DeviceInterface::Rotator => assert(512u32 == 1u32 << 9u32) by (bit_vector),
        DeviceInterface::Ao => assert(1024u32 == 1u32 << 10u32) by (bit_vector),
        DeviceInterface::FlatPanel => assert(2048u32 == 1u32 << 11u32) by (bit_vector),
        DeviceInterface::PowerBoard => assert(4096u32 == 1u32 << 12u32) by (bit_vector),
    }
}

proof fn lemma_shifts_meet(a: u32, b: u32)
    requires
        a < 32,
        b < 32,
    ensures
        ((1u32 << a) & (1u32 << b) != 0) == (a == b),
{
    assert(a < 32 && b < 32 ==> (((1u32 << a) & (1u32 << b) != 0) == (a == b))) by (bit_vector);
}

/// Two interfaces other than the general one share a bit exactly when they are the
/// same.
proof fn lemma_bits_meet(x: DeviceInterface, i: DeviceInterface)
    requires
        i != DeviceInterface::General,
    ensures
        (x.spec_bits() & i.spec_bits() != 0) == (x == i),
{
    lemma_bits_are_shifts(i);
    if x == DeviceInterface::General {
        let b = i.spec_bits();
        assert(0u32 & b == 0) by (bit_vector);
    } else {
        lemma_bits_are_shifts(x);
        lemma_shifts_meet(bit_index(x), bit_index(i));
    }
}

/// The mask of a list of interfaces has the bit of an interface other than the
/// general one exactly when the list holds that interface.
pub proof fn lemma_combined_has_exactly(s: Seq<DeviceInterface>, i: DeviceInterface)
    requires
        i != DeviceInterface::General,
    ensures
        (combined_bits(s) & i.spec_bits() != 0) == s.contains(i),
    decreases s.len(),
{
    let b = i.spec_bits();
    if s.len() == 0 {
        assert(0u32 & b == 0) by (bit_vector);
    } else {
        let q = s.drop_last();
        lemma_combined_has_exactly(q, i);
        lemma_bits_meet(s.last(), i);
        let a = combined_bits(q);
        let c = s.last().spec_bits();
        assert(((a | c) & b != 0) == (a & b != 0 || c & b != 0)) by (bit_vector);
        if s.contains(i) {
            let k = choose|k: int| 0 <= k < s.len() && s[k] == i;
            if k < s.len() - 1 {
                assert(q[k] == i);
            }
        }
        if q.contains(i) {
            let k = choose|k: int| 0 <= k < q.len() && q[k] == i;
            assert(s[k] == i);
        }
    }
}

} // verus!
