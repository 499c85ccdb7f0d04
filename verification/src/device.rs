//! Choosing the device and the queue family that the viewer runs on.

use vstd::prelude::*;
use vulkano::device::{DeviceExtensions, QueueFlags};
use crate::backend::{
    dynamic_rendering_name, extension_names, extensions_contain, offers_dynamic_rendering,
    queue_capabilities, runs_compute, with_dynamic_rendering, QueueCapability,
};

verus! {

/// What kind of hardware stands behind a device.
#[derive(Clone, Copy, Debug, PartialEq, Eq, Structural)]
pub enum DeviceClass {
    Discrete,
    Integrated,
    Virtual,
    Software,
    Unknown,
}

impl DeviceClass {
    /// The cost of a class: the lower, the more it is preferred.
    pub open spec fn rank_of(self) -> int {
        match self {
            DeviceClass::Discrete => 0,
            DeviceClass::Integrated => 1,
            DeviceClass::Virtual => 2,
            DeviceClass::Software => 3,
            DeviceClass::Unknown => 4,
        }
    }

    /// The cost of the class.
    pub fn rank(self) -> (r: u8)
        ensures
            r == self.rank_of(),
    {
        match self {
            DeviceClass::Discrete => 0,
            DeviceClass::Integrated => 1,
            DeviceClass::Virtual => 2,
            DeviceClass::Software => 3,
            DeviceClass::Unknown => 4,
        }
    }
}

/// A version of the graphics interface, ordered by major, minor, patch.
#[derive(Clone, Copy, Debug, PartialEq, Eq, Structural)]
pub struct ApiVersion {
    pub major: u32,
    pub minor: u32,
    pub patch: u32,
}

impl ApiVersion {
    /// The first version in which dynamic rendering is part of the core.
    pub open spec fn dynamic_rendering_core() -> ApiVersion {
        ApiVersion { major: 1, minor: 3, patch: 0 }
    }

    /// `self` is `other` or a later version.
    pub open spec fn at_least_of(self, other: ApiVersion) -> bool {
        self.major > other.major || (self.major == other.major && (self.minor > other.minor || (
        self.minor == other.minor && self.patch >= other.patch)))
    }

    /// Dynamic rendering needs no extension from this version on.
    pub open spec fn has_core_dynamic_rendering(self) -> bool {
        self.at_least_of(Self::dynamic_rendering_core())
    }

    /// Whether `self` is `other` or a later version.
    pub fn at_least(&self, other: &ApiVersion) -> (b: bool)
        ensures
            b == self.at_least_of(*other),
    {
        if self.major != other.major {
            self.major > other.major
        } else if self.minor != other.minor {
            self.minor > other.minor
        } else {
            self.patch >= other.patch
        }
    }

    /// Whether dynamic rendering is part of this version's core.
    pub fn core_dynamic_rendering(&self) -> (b: bool)
        ensures
            b == self.has_core_dynamic_rendering(),
    {
        let core = ApiVersion { major: 1, minor: 3, patch: 0 };
        self.at_least(&core)
    }
}

/// One queue family of a device: what its queues can do, and whether they
/// can present to the surface in use.
#[derive(Clone, Copy, Debug)]
pub struct QueueFamily {
    pub flags: QueueFlags,
    pub present: bool,
}

impl QueueFamily {
    /// The family runs compute work and presents.
    pub open spec fn fits(self) -> bool {
        queue_capabilities(self.flags).contains(QueueCapability::Compute) && self.present
    }

    /// Whether the family runs compute work and presents.
    pub fn is_fit(&self) -> (b: bool)
        ensures
            b == self.fits(),
    {
        runs_compute(self.flags) && self.present
    }
}

/// `k` is the first family of `families` that computes and presents.
pub open spec fn is_first_fit(families: Seq<QueueFamily>, k: int) -> bool {
    &&& 0 <= k < families.len()
    &&& families[k].fits()
    &&& forall|j: int| 0 <= j < k ==> !(#[trigger] families[j]).fits()
}

/// Some family of `families` computes and presents.
pub open spec fn has_fit(families: Seq<QueueFamily>) -> bool {
    exists|k: int| 0 <= k < families.len() && (#[trigger] families[k]).fits()
}

/// What the filters found of one device: its class, and the queue family to
/// use on it, `None` where a filter turned the device down.
#[derive(Clone, Copy, Debug, PartialEq, Eq)]
pub struct Candidate {
    pub class: DeviceClass,
    pub queue_family: Option<usize>,
}

impl Candidate {
    /// The filters let the device pass.
    pub open spec fn admitted(self) -> bool {
        self.queue_family.is_some()
    }
}

/// The queue family to use on a device, from what was found of it: whether
/// its version has dynamic rendering in the core, whether it offers dynamic
/// rendering as an extension, whether it offers all required extensions, and
/// its first fitting queue family.
pub fn usable_family(
    core_dynamic_rendering: bool,
    dynamic_rendering_extension: bool,
    required_extensions: bool,
    fitting_family: Option<usize>,
) -> (r: Option<usize>)
    ensures
        r == if (core_dynamic_rendering || dynamic_rendering_extension) && required_extensions {
            fitting_family
        } else {
            None
        },
{
    if !(core_dynamic_rendering || dynamic_rendering_extension) {
        return None;
    }
    if !required_extensions {
        return None;
    }
    fitting_family
}

/// What the selector reads of one enumerated device.
#[derive(Debug)]
pub struct DeviceProfile {
    pub api_version: ApiVersion,
    /// The extensions that the device offers.
    pub supported_extensions: DeviceExtensions,
    pub class: DeviceClass,
    /// The queue families, in the device's own order.
    pub queue_families: Vec<QueueFamily>,
}

impl DeviceProfile {
    /// The device offers dynamic rendering, in its core or as an extension.
    pub open spec fn renders_dynamically(self) -> bool {
        self.api_version.has_core_dynamic_rendering() || extension_names(
            self.supported_extensions,
        ).contains(dynamic_rendering_name())
    }

    /// The device passes all three filters.
    pub open spec fn suitable(self, required: DeviceExtensions) -> bool {
        &&& self.renders_dynamically()
        &&& extension_names(required).subset_of(extension_names(self.supported_extensions))
        &&& has_fit(self.queue_families@)
    }

    /// The first queue family that computes and presents, if there is one.
    pub fn queue_family(&self) -> (r: Option<usize>)
        ensures
            match r {
                Some(k) => is_first_fit(self.queue_families@, k as int),
                None => !has_fit(self.queue_families@),
            },
    {
        let mut i: usize = 0;
        while i < self.queue_families.len()
            invariant
                i <= self.queue_families.len(),
                forall|j: int| 0 <= j < i ==> !(#[trigger] self.queue_families@[j]).fits(),
            decreases self.queue_families.len() - i,
        {
            if self.queue_families[i].is_fit() {
                return Some(i);
            }
            i += 1;
        }
        None
    }

    /// Runs the filters on this device.
    pub fn assess(&self, required: &DeviceExtensions) -> (c: Candidate)
        ensures
            c.class == self.class,
            c.admitted() == self.suitable(*required),
            c.queue_family matches Some(k) ==> is_first_fit(self.queue_families@, k as int),
    {
        let queue_family = usable_family(
            self.api_version.core_dynamic_rendering(),
            offers_dynamic_rendering(&self.supported_extensions),
            extensions_contain(&self.supported_extensions, required),
            self.queue_family(),
        );
        Candidate { class: self.class, queue_family }
    }
}

/// Candidate `i` is admitted, no admitted candidate is cheaper, and none as
/// cheap stands before it.
pub open spec fn is_choice(candidates: Seq<Candidate>, i: int) -> bool {
    &&& 0 <= i < candidates.len()
    &&& candidates[i].admitted()
    &&& forall|j: int|
        0 <= j < candidates.len() && (#[trigger] candidates[j]).admitted() ==> {
            &&& candidates[i].class.rank_of() <= candidates[j].class.rank_of()
            &&& j < i ==> candidates[i].class.rank_of() < candidates[j].class.rank_of()
        }
}

/// Some candidate of the list is admitted.
pub open spec fn any_admitted(candidates: Seq<Candidate>) -> bool {
    exists|i: int| 0 <= i < candidates.len() && (#[trigger] candidates[i]).admitted()
}

/// The position of the cheapest admitted candidate, the first of them where
/// several cost the same; `None` where none is admitted.
pub fn select_among(candidates: &Vec<Candidate>) -> (r: Option<usize>)
    ensures
        r.is_some() == any_admitted(candidates@),
        r matches Some(i) ==> is_choice(candidates@, i as int),
{
    let mut best: Option<usize> = None;
    let mut best_rank: u8 = 0;
    let mut i: usize = 0;
    while i < candidates.len()
        invariant
            i <= candidates.len(),
            best.is_none() ==> forall|j: int| 0 <= j < i ==> !(#[trigger] candidates@[j]).admitted(),
            best matches Some(b) ==> {
                &&& b < i
                &&& is_choice(candidates@.subrange(0, i as int), b as int)
                &&& best_rank == candidates@[b as int].class.rank_of()
            },
        decreases candidates.len() - i,
    {
        let ghost before = candidates@.subrange(0, i as int);
        let ghost after = candidates@.subrange(0, i as int + 1);
        proof {
            assert forall|j: int| 0 <= j < i implies before[j] == after[j] by {}
            assert(after[i as int] == candidates@[i as int]);
        }
        if candidates[i].queue_family.is_some() {
            let rank = candidates[i].class.rank();
            if best.is_none() || rank < best_rank {
                best = Some(i);
                best_rank = rank;
            }
        }
        proof {
            if let Some(b) = best {
                assert forall|j: int| 0 <= j < after.len() && (#[trigger] after[j]).admitted() implies {
                    &&& after[b as int].class.rank_of() <= after[j].class.rank_of()
                    &&& j < b ==> after[b as int].class.rank_of() < after[j].class.rank_of()
                } by {
                    if j < i {
                        assert(before[j].admitted());
                    }
                }
            }
        }
        i += 1;
    }
    proof {
        assert(candidates@.subrange(0, candidates@.len() as int) =~= candidates@);
    }
    best
}

/// The device that was chosen, and how to open it.
#[derive(Clone, Copy, Debug, PartialEq, Eq)]
pub struct Selection {
    /// Position of the device in the enumeration.
    pub device: usize,
    /// Position of the queue family on that device.
    pub queue_family: usize,
    /// The extensions to switch on when the device is opened.
    pub enabled_extensions: DeviceExtensions,
}

/// No enumerated device passed the filters.
#[derive(Clone, Copy, Debug, PartialEq, Eq, Structural)]
pub struct NoSuitableDeviceError;

/// Device `i` is suitable, no suitable device is cheaper, and none as cheap
/// stands before it.
pub open spec fn is_chosen_device(devices: Seq<DeviceProfile>, required: DeviceExtensions, i: int) -> bool {
    &&& 0 <= i < devices.len()
    &&& devices[i].suitable(required)
    &&& forall|j: int|
        0 <= j < devices.len() && (#[trigger] devices[j]).suitable(required) ==> {
            &&& devices[i].class.rank_of() <= devices[j].class.rank_of()
            &&& j < i ==> devices[i].class.rank_of() < devices[j].class.rank_of()
        }
}

/// Some device of the list passes the filters.
pub open spec fn any_suitable(devices: Seq<DeviceProfile>, required: DeviceExtensions) -> bool {
    exists|i: int| 0 <= i < devices.len() && (#[trigger] devices[i]).suitable(required)
}

/// The names of the extensions to switch on for `device`: the required
/// ones, and dynamic rendering where the device's version lacks it.
pub open spec fn enabled_names_of(device: DeviceProfile, required: DeviceExtensions) -> Set<Seq<char>> {
    if device.api_version.has_core_dynamic_rendering() {
        extension_names(required)
    } else {
        extension_names(required).insert(dynamic_rendering_name())
    }
}

/// Picks the cheapest suitable device, the first of them where several cost
/// the same, together with its first fitting queue family and the extensions
/// to open it with.
pub fn select_device(devices: &Vec<DeviceProfile>, required: DeviceExtensions) -> (r: Result<
    Selection,
    NoSuitableDeviceError,
>)
    ensures
        r.is_ok() == any_suitable(devices@, required),
        r matches Ok(s) ==> {
            &&& is_chosen_device(devices@, required, s.device as int)
            &&& is_first_fit(devices@[s.device as int].queue_families@, s.queue_family as int)
            &&& extension_names(s.enabled_extensions) == enabled_names_of(
                devices@[s.device as int],
                required,
            )
        },
{
    let mut candidates: Vec<Candidate> = Vec::new();
    let mut i: usize = 0;
    while i < devices.len()
        invariant
            i <= devices.len(),
            candidates@.len() == i,
            forall|j: int|
                0 <= j < i ==> {
                    &&& (#[trigger] candidates@[j]).class == devices@[j].class
                    &&& candidates@[j].admitted() == devices@[j].suitable(required)
                    &&& candidates@[j].queue_family matches Some(k) ==> is_first_fit(
                        devices@[j].queue_families@,
                        k as int,
                    )
                },
        decreases devices.len() - i,
    {
        let candidate = devices[i].assess(&required);
        candidates.push(candidate);
        i += 1;
    }
    match select_among(&candidates) {
        Some(chosen) => {
            let queue_family = match candidates[chosen].queue_family {
                Some(k) => k,
                None => 0,
            };
            let enabled_extensions = if devices[chosen].api_version.core_dynamic_rendering() {
                required
            } else {
                with_dynamic_rendering(required)
            };
            proof {
                assert(candidates@[chosen as int].admitted());
                assert forall|j: int|
                    0 <= j < devices@.len() && (#[trigger] devices@[j]).suitable(required) implies {
                    &&& devices@[chosen as int].class.rank_of() <= devices@[j].class.rank_of()
                    &&& j < chosen ==> devices@[chosen as int].class.rank_of()
                        < devices@[j].class.rank_of()
                } by {
                    assert(candidates@[j].admitted());
                }
            }
            Ok(Selection { device: chosen, queue_family, enabled_extensions })
        },
        None => {
            proof {
                assert forall|j: int| 0 <= j < devices@.len() implies !(#[trigger] devices@[j]).suitable(
                    required,
                ) by {
                    assert(!candidates@[j].admitted());
                }
            }
            Err(NoSuitableDeviceError)
        },
    }
}

/// Where a discrete device passes the filters, the chosen device is discrete,
/// wherever in the enumeration it stands and whatever else is listed.
pub proof fn discrete_is_preferred(
    devices: Seq<DeviceProfile>,
    required: DeviceExtensions,
    discrete: int,
    chosen: int,
)
    requires
        0 <= discrete < devices.len(),
        devices[discrete].suitable(required),
        devices[discrete].class == DeviceClass::Discrete,
        is_chosen_device(devices, required, chosen),
    ensures
        devices[chosen].class == DeviceClass::Discrete,
{
}

/// An enumeration has at most one chosen device.
pub proof fn chosen_device_is_unique(
    devices: Seq<DeviceProfile>,
    required: DeviceExtensions,
    a: int,
    b: int,
)
    requires
        is_chosen_device(devices, required, a),
        is_chosen_device(devices, required, b),
    ensures
        a == b,
{
}

/// Among candidates, an admitted discrete one makes the choice discrete.
pub proof fn discrete_candidate_is_preferred(candidates: Seq<Candidate>, discrete: int, chosen: int)
    requires
        0 <= discrete < candidates.len(),
        candidates[discrete].admitted(),
        candidates[discrete].class == DeviceClass::Discrete,
        is_choice(candidates, chosen),
    ensures
        candidates[chosen].class == DeviceClass::Discrete,
{
}

} // verus!
