//! Physical device candidates and the tiered first-fit selection among them.

use vstd::prelude::*;
use crate::error::{RHIError, RHIErrorEnum};

verus! {

/// The bit of a queue family's flags that stands for graphics operations.
pub const QUEUE_GRAPHICS_BIT: u32 = 0x1;

/// The class of a physical device.
#[derive(Debug, Clone, Copy, PartialEq, Eq, Structural)]
pub enum DeviceClass {
    Discrete,
    Integrated,
    Virtual,
    Cpu,
    Other,
}

impl DeviceClass {
    /// The class that a driver's device type code stands for.
    pub open spec fn of_code(code: i32) -> DeviceClass {
        if code == 2 {
            DeviceClass::Discrete
        } else if code == 1 {
            DeviceClass::Integrated
        } else if code == 3 {
            DeviceClass::Virtual
        } else if code == 4 {
            DeviceClass::Cpu
        } else {
            DeviceClass::Other
        }
    }

    /// The selection tier of a class: 0 for discrete, 1 for integrated, 2 for the rest.
    /// A lower tier is preferred.
    pub open spec fn tier(self) -> nat {
        match self {
            DeviceClass::Discrete => 0,
            DeviceClass::Integrated => 1,
            _ => 2,
        }
    }

    /// Reads a driver's device type code; an unknown code is `Other`.
    pub fn from_raw(code: i32) -> (class: DeviceClass)
        ensures
            class == Self::of_code(code),
    {
        if code == 2 {
            DeviceClass::Discrete
        } else if code == 1 {
            DeviceClass::Integrated
        } else if code == 3 {
            DeviceClass::Virtual
        } else if code == 4 {
            DeviceClass::Cpu
        } else {
            DeviceClass::Other
        }
    }

    /// The selection tier of this class.
    pub fn priority(self) -> (t: u8)
        ensures
            t == self.tier(),
    {
        match self {
            DeviceClass::Discrete => 0,
            DeviceClass::Integrated => 1,
            _ => 2,
        }
    }
}

/// One row of a device's queue family table.
#[derive(Debug, Clone, Copy, PartialEq, Eq)]
pub struct QueueFamily {
    /// The capability flags as the driver reports them.
    pub queue_flags: u32,
    /// How many queues the family offers.
    pub queue_count: u32,
    /// Whether the family can present to the surface in use.
    pub present_support: bool,
}

impl QueueFamily {
    /// The family offers a queue and its flags hold the graphics bit.
    pub open spec fn graphics_capable(self) -> bool {
        self.queue_count > 0 && (self.queue_flags & QUEUE_GRAPHICS_BIT) == QUEUE_GRAPHICS_BIT
    }

    /// The family offers a queue and can present.
    pub open spec fn present_capable(self) -> bool {
        self.queue_count > 0 && self.present_support
    }

    /// Whether the family offers a queue for graphics operations.
    pub fn supports_graphics(&self) -> (r: bool)
        ensures
            r == self.graphics_capable(),
    {
        self.queue_count > 0 && queue_flags_contain_graphics(self.queue_flags)
    }

    /// Whether the family offers a queue that can present.
    pub fn supports_present(&self) -> (r: bool)
        ensures
            r == self.present_capable(),
    {
        self.queue_count > 0 && self.present_support
    }
}

/// `ash::vk::QueueFlags::contains`, asked of `ash::vk::QueueFlags::GRAPHICS`:
/// whether every bit of the graphics flag, which is the lowest bit alone, is set
/// in `flags`.
#[verifier::external_body]
fn queue_flags_contain_graphics(flags: u32) -> (r: bool)
    ensures
        r == ((flags & 0x1u32) == 0x1u32),
{
    ash::vk::QueueFlags::from_raw(flags).contains(ash::vk::QueueFlags::GRAPHICS)
}

/// The queue families resolved for a device.
#[derive(Debug, Clone, Copy, PartialEq, Eq)]
pub struct QueueFamilyIndices {
    pub graphics: Option<u32>,
    pub present: Option<u32>,
}

/// `i` is the first graphics-capable row of `families`.
pub open spec fn is_first_graphics(families: Seq<QueueFamily>, i: int) -> bool {
    &&& 0 <= i < families.len()
    &&& families[i].graphics_capable()
    &&& forall|j: int| 0 <= j < i ==> !(#[trigger] families[j]).graphics_capable()
}

/// `i` is the first present-capable row of `families`.
pub open spec fn is_first_present(families: Seq<QueueFamily>, i: int) -> bool {
    &&& 0 <= i < families.len()
    &&& families[i].present_capable()
    &&& forall|j: int| 0 <= j < i ==> !(#[trigger] families[j]).present_capable()
}

/// Some row of the table is graphics-capable.
pub open spec fn has_graphics(families: Seq<QueueFamily>) -> bool {
    exists|j: int| 0 <= j < families.len() && (#[trigger] families[j]).graphics_capable()
}

/// Some row of the table is present-capable.
pub open spec fn has_present(families: Seq<QueueFamily>) -> bool {
    exists|j: int| 0 <= j < families.len() && (#[trigger] families[j]).present_capable()
}

/// What `find_queue_families` returns for a table: for each role the first
/// capable row, or nothing where no row is capable.
pub open spec fn resolves(families: Seq<QueueFamily>, indices: QueueFamilyIndices) -> bool {
    &&& match indices.graphics {
        Some(g) => is_first_graphics(families, g as int),
        None => !has_graphics(families),
    }
    &&& match indices.present {
        Some(p) => is_first_present(families, p as int),
        None => !has_present(families),
    }
}

/// Resolves the graphics and the present family of a queue family table: for
/// each the first row, in table order, that offers a queue and the capability.
pub fn find_queue_families(families: &Vec<QueueFamily>) -> (indices: QueueFamilyIndices)
    requires
        families.len() <= u32::MAX,
    ensures
        resolves(families@, indices),
{
    let mut graphics: Option<u32> = None;
    let mut present: Option<u32> = None;
    let mut i: u32 = 0;
    while (i as usize) < families.len()
        invariant
            i <= families.len() <= u32::MAX,
            match graphics {
                Some(g) => is_first_graphics(families@, g as int),
                None => forall|j: int| 0 <= j < i ==> !(#[trigger] families@[j]).graphics_capable(),
            },
            match present {
                Some(p) => is_first_present(families@, p as int),
                None => forall|j: int| 0 <= j < i ==> !(#[trigger] families@[j]).present_capable(),
            },
        decreases families.len() - i,
    {
        let family = &families[i as usize];
        if graphics.is_none() && family.supports_graphics() {
            graphics = Some(i);
        }
        if present.is_none() && family.supports_present() {
            present = Some(i);
        }
        i = i + 1;
    }
    QueueFamilyIndices { graphics, present }
}

/// The names that a list of strings holds, in order.
pub open spec fn names(list: Seq<String>) -> Seq<Seq<char>> {
    Seq::new(list.len(), |i: int| list[i]@)
}

/// Every name of `required` occurs in `available`.
pub open spec fn covers(available: Seq<Seq<char>>, required: Seq<Seq<char>>) -> bool {
    forall|i: int| 0 <= i < required.len() ==> available.contains(#[trigger] required[i])
}

/// Whether `name` occurs in `list`.
pub fn contains_name(list: &Vec<String>, name: &String) -> (found: bool)
    ensures
        found == names(list@).contains(name@),
{
    let mut j: usize = 0;
    while j < list.len()
        invariant
            j <= list.len(),
            forall|k: int| 0 <= k < j ==> (#[trigger] names(list@)[k]) != name@,
        decreases list.len() - j,
    {
        if list[j] == *name {
            assert(names(list@)[j as int] == name@);
            return true;
        }
        j = j + 1;
    }
    false
}

/// Whether a device that offers the extensions `available` offers every one
/// of `required`.
pub fn check_device_extension_support(available: &Vec<String>, required: &Vec<String>) -> (ok: bool)
    ensures
        ok == covers(names(available@), names(required@)),
{
    let mut i: usize = 0;
    while i < required.len()
        invariant
            i <= required.len(),
            forall|k: int| 0 <= k < i ==> names(available@).contains(#[trigger] names(required@)[k]),
        decreases required.len() - i,
    {
        if !contains_name(available, &required[i]) {
            assert(!names(available@).contains(names(required@)[i as int]));
            return false;
        }
        i = i + 1;
    }
    true
}

/// A physical device as enumeration reports it.
#[derive(Debug, Clone, PartialEq, Eq)]
pub struct PhysicalDeviceCandidate {
    /// The driver's handle of the device.
    pub handle: u64,
    pub class: DeviceClass,
    pub queue_families: Vec<QueueFamily>,
    /// The names of the device extensions that the device offers.
    pub extensions: Vec<String>,
}

impl PhysicalDeviceCandidate {
    /// A queue family index is a 32-bit number, so the table has no more rows
    /// than such an index can name.
    pub open spec fn wf(self) -> bool {
        self.queue_families@.len() <= u32::MAX
    }

    /// A candidate is suitable when it has a graphics-capable family, a
    /// present-capable family whenever a surface was supplied, and every
    /// required extension.
    pub open spec fn suitable(self, surface_supplied: bool, required: Seq<Seq<char>>) -> bool {
        &&& has_graphics(self.queue_families@)
        &&& surface_supplied ==> has_present(self.queue_families@)
        &&& covers(names(self.extensions@), required)
    }

    /// Whether the candidate is suitable for a backend that needs the
    /// extensions `required` and, where a surface was supplied, presents to it.
    pub fn is_device_suitable(&self, surface_supplied: bool, required: &Vec<String>) -> (ok: bool)
        requires
            self.wf(),
        ensures
            ok == self.suitable(surface_supplied, names(required@)),
    {
        let indices = find_queue_families(&self.queue_families);
        indices.graphics.is_some() && (!surface_supplied || indices.present.is_some())
            && check_device_extension_support(&self.extensions, required)
    }
}

/// `i` is the candidate that selection returns: it is suitable, no suitable
/// candidate has a better tier, and none of its own tier comes before it.
pub open spec fn is_selected(
    candidates: Seq<PhysicalDeviceCandidate>,
    surface_supplied: bool,
    required: Seq<Seq<char>>,
    i: int,
) -> bool {
    &&& 0 <= i < candidates.len()
    &&& candidates[i].suitable(surface_supplied, required)
    &&& forall|j: int|
        0 <= j < candidates.len() && (#[trigger] candidates[j]).suitable(surface_supplied, required)
            ==> candidates[j].class.tier() >= candidates[i].class.tier()
    &&& forall|j: int|
        0 <= j < i && (#[trigger] candidates[j]).suitable(surface_supplied, required)
            ==> candidates[j].class.tier() > candidates[i].class.tier()
}

/// Some candidate is suitable.
pub open spec fn any_suitable(
    candidates: Seq<PhysicalDeviceCandidate>,
    surface_supplied: bool,
    required: Seq<Seq<char>>,
) -> bool {
    exists|j: int|
        0 <= j < candidates.len() && (#[trigger] candidates[j]).suitable(surface_supplied, required)
}

/// Every candidate is well formed.
pub open spec fn all_wf(candidates: Seq<PhysicalDeviceCandidate>) -> bool {
    forall|j: int| 0 <= j < candidates.len() ==> (#[trigger] candidates[j]).wf()
}

/// Chooses a physical device: the first suitable candidate, in enumeration
/// order, of the best tier that holds a suitable one. Returns its index.
///
/// An empty enumeration and an enumeration without a suitable candidate are
/// the two initialization errors, reported under the backend's name.
pub fn pick_physical_device(
    rhi_name: &'static str,
    candidates: &Vec<PhysicalDeviceCandidate>,
    surface_supplied: bool,
    required: &Vec<String>,
) -> (picked: Result<usize, RHIError>)
    requires
        all_wf(candidates@),
    ensures
        candidates@.len() == 0 ==> picked is Err && picked->Err_0.says(
            RHIErrorEnum::InitializationError,
            "no physical devices"@,
        ),
        candidates@.len() > 0 && !any_suitable(candidates@, surface_supplied, names(required@))
            ==> picked is Err && picked->Err_0.says(
            RHIErrorEnum::InitializationError,
            "no suitable physical devices"@,
        ),
        any_suitable(candidates@, surface_supplied, names(required@)) ==> picked is Ok
            && is_selected(candidates@, surface_supplied, names(required@), picked->Ok_0 as int),
        picked is Err ==> picked->Err_0.rhi == rhi_name,
{
    if candidates.len() == 0 {
        return Err(RHIError::new(rhi_name, RHIErrorEnum::InitializationError, "no physical devices"));
    }
    let mut best: Option<usize> = None;
    let mut best_tier: u8 = 3;
    let mut i: usize = 0;
    while i < candidates.len()
        invariant
            i <= candidates.len(),
            all_wf(candidates@),
            match best {
                Some(b) => b < i && best_tier == candidates@[b as int].class.tier() && is_selected(
                    candidates@.take(i as int),
                    surface_supplied,
                    names(required@),
                    b as int,
                ),
                None => best_tier == 3 && !any_suitable(
                    candidates@.take(i as int),
                    surface_supplied,
                    names(required@),
                ),
            },
        decreases candidates.len() - i,
    {
        let candidate = &candidates[i];
        let ghost before = candidates@.take(i as int);
        let ghost after = candidates@.take(i + 1);
        assert(forall|j: int| 0 <= j < i ==> before[j] == after[j]);
        assert(after[i as int] == candidates@[i as int]);
        if candidate.is_device_suitable(surface_supplied, required) {
            let tier = candidate.class.priority();
            if tier < best_tier {
                best = Some(i);
                best_tier = tier;
            }
        }
        i = i + 1;
    }
    assert(candidates@.take(i as int) == candidates@);
    match best {
        Some(b) => Ok(b),
        None => Err(
            RHIError::new(rhi_name, RHIErrorEnum::InitializationError, "no suitable physical devices"),
        ),
    }
}

/// Selection is a function of the enumeration: at most one index is selected.
pub proof fn lemma_selection_unique(
    candidates: Seq<PhysicalDeviceCandidate>,
    surface_supplied: bool,
    required: Seq<Seq<char>>,
    i: int,
    k: int,
)
    requires
        is_selected(candidates, surface_supplied, required, i),
        is_selected(candidates, surface_supplied, required, k),
    ensures
        i == k,
{
}

/// The first suitable discrete candidate is the one selected, whatever else
/// the enumeration holds and in whatever order: no unsuitable candidate and no
/// candidate of another class takes its place.
pub proof fn lemma_first_suitable_discrete_is_selected(
    candidates: Seq<PhysicalDeviceCandidate>,
    surface_supplied: bool,
    required: Seq<Seq<char>>,
    d: int,
)
    requires
        0 <= d < candidates.len(),
        candidates[d].class == DeviceClass::Discrete,
        candidates[d].suitable(surface_supplied, required),
        forall|j: int|
            0 <= j < d && (#[trigger] candidates[j]).class == DeviceClass::Discrete
                ==> !candidates[j].suitable(surface_supplied, required),
    ensures
        is_selected(candidates, surface_supplied, required, d),
        forall|i: int| is_selected(candidates, surface_supplied, required, i) ==> i == d,
{
    assert forall|j: int|
        0 <= j < d && (#[trigger] candidates[j]).suitable(surface_supplied, required)
    implies candidates[j].class.tier() > candidates[d].class.tier() by {
        assert(candidates[j].class != DeviceClass::Discrete);
    }
}

/// A suitable candidate has its queue families resolved: the graphics family
/// always, and the present family whenever a surface was supplied.
pub proof fn lemma_suitable_has_indices(
    candidate: PhysicalDeviceCandidate,
    surface_supplied: bool,
    required: Seq<Seq<char>>,
    indices: QueueFamilyIndices,
)
    requires
        candidate.suitable(surface_supplied, required),
        resolves(candidate.queue_families@, indices),
    ensures
        indices.graphics is Some,
        surface_supplied ==> indices.present is Some,
{
}

} // verus!
