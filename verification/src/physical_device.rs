//! Rating of physical devices and selection of the one to render on.

use crate::queue::{queue_flags_contain, QueueFamily, QUEUE_GRAPHICS, QUEUE_TRANSFER};
use ash::vk;
use vstd::prelude::*;

verus! {

/// The class of hardware behind a physical device.
#[derive(Clone, Copy, Debug, PartialEq, Eq, Structural)]
pub enum DeviceKind {
    Other,
    IntegratedGpu,
    DiscreteGpu,
    VirtualGpu,
    Cpu,
}

/// A Vulkan API version, unpacked.
#[derive(Clone, Copy, Debug, PartialEq, Eq, Structural)]
pub struct ApiVersion {
    pub variant: u32,
    pub major: u32,
    pub minor: u32,
    pub patch: u32,
}

/// A driver version in the common 10/10/12-bit packing, unpacked.
#[derive(Clone, Copy, Debug, PartialEq, Eq, Structural)]
pub struct DriverVersion {
    pub major: u32,
    pub minor: u32,
    pub patch: u32,
}

/// What the driver reports of one physical device, as far as the
/// selection reads it.
#[derive(Clone, Debug)]
pub struct DeviceCandidate {
    /// Raw `VkPhysicalDevice` handle.
    pub handle: u64,
    pub kind: DeviceKind,
    /// `maxImageDimension2D` of the device limits.
    pub max_image_dimension_2d: u32,
    /// Packed API version of the device properties.
    pub api_version: u32,
    /// Packed driver version of the device properties.
    pub driver_version: u32,
    pub queue_families: Vec<QueueFamily>,
}

/// Why no device was selected.
#[derive(Clone, Copy, Debug, PartialEq, Eq, Structural)]
pub enum DeviceError {
    /// No candidate has both a graphics and a transfer queue family.
    NoSuitableDevice,
}

/// Namespace of the device selection.
pub struct PhysicalDevice {}

/// `ash::vk::api_version_variant`: the top three bits of a packed
/// version. The contract restates the function's one-line body; Verus
/// does not check it.
#[verifier::external_body]
fn packed_variant(version: u32) -> (r: u32)
    ensures
        r == version >> 29,
{
    vk::api_version_variant(version)
}

/// `ash::vk::api_version_major`: bits 22 to 28 of a packed version. The
/// contract restates the function's one-line body; Verus does not check
/// it.
#[verifier::external_body]
fn packed_major(version: u32) -> (r: u32)
    ensures
        r == (version >> 22) & 0x7f,
{
    vk::api_version_major(version)
}

/// `ash::vk::api_version_minor`: bits 12 to 21 of a packed version. The
/// contract restates the function's one-line body; Verus does not check
/// it.
#[verifier::external_body]
fn packed_minor(version: u32) -> (r: u32)
    ensures
        r == (version >> 12) & 0x3ff,
{
    vk::api_version_minor(version)
}

/// `ash::vk::api_version_patch`: the low twelve bits of a packed
/// version. The contract restates the function's one-line body; Verus
/// does not check it.
#[verifier::external_body]
fn packed_patch(version: u32) -> (r: u32)
    ensures
        r == version & 0xfff,
{
    vk::api_version_patch(version)
}

impl DeviceKind {
    /// Points a device earns for its class alone.
    pub open spec fn bonus(self) -> nat {
        match self {
            DeviceKind::DiscreteGpu => 1000,
            DeviceKind::VirtualGpu => 500,
            DeviceKind::IntegratedGpu => 250,
            DeviceKind::Other => 0,
            DeviceKind::Cpu => 0,
        }
    }
}

impl ApiVersion {
    /// The packed word that unpacks to `self`.
    pub open spec fn packed(self) -> u32 {
        (self.variant << 29) | (self.major << 22) | (self.minor << 12) | self.patch
    }

    /// Every field fits the bits the packing gives it.
    pub open spec fn in_range(self) -> bool {
        self.variant < 8 && self.major < 128 && self.minor < 1024 && self.patch < 4096
    }

    /// Unpacks an API version word.
    pub fn unpack(version: u32) -> (r: ApiVersion)
        ensures
            r.variant == version >> 29,
            r.major == (version >> 22) & 0x7f,
            r.minor == (version >> 12) & 0x3ff,
            r.patch == version & 0xfff,
            r.in_range(),
            r.packed() == version,
    {
        let r = ApiVersion {
            variant: packed_variant(version),
            major: packed_major(version),
            minor: packed_minor(version),
            patch: packed_patch(version),
        };
        proof {
            let v = version;
            assert((v >> 29) < 8 && ((v >> 22) & 0x7f) < 128 && ((v >> 12) & 0x3ff) < 1024 && (v & 0xfff)
                < 4096) by (bit_vector);
            assert((((v >> 29) << 29) | (((v >> 22) & 0x7f) << 22) | (((v >> 12) & 0x3ff) << 12) | (v
                & 0xfff)) == v) by (bit_vector);
        }
        r
    }
}

impl DriverVersion {
    /// Unpacks a driver version word: ten bits of major, ten of minor,
    /// twelve of patch.
    pub fn unpack(version: u32) -> (r: DriverVersion)
        ensures
            r.major == version >> 22,
            r.minor == (version >> 12) & 0x3ff,
            r.patch == version & 0xfff,
            r.major < 1024 && r.minor < 1024 && r.patch < 4096,
            (r.major << 22) | (r.minor << 12) | r.patch == version,
    {
        let r = DriverVersion {
            major: version >> 22,
            minor: (version >> 12) & 0x3ff,
            patch: version & 0xfff,
        };
        proof {
            let v = version;
            assert((v >> 22) < 1024 && ((v >> 12) & 0x3ff) < 1024 && (v & 0xfff) < 4096)
                by (bit_vector);
            assert((((v >> 22) << 22) | (((v >> 12) & 0x3ff) << 12) | (v & 0xfff)) == v)
                by (bit_vector);
        }
        r
    }
}

/// Some family of `families` has a queue and every bit of `capability`.
pub open spec fn some_family_offers(families: Seq<QueueFamily>, capability: u32) -> bool {
    exists|j: int| 0 <= j < families.len() && (#[trigger] families[j]).offers(capability)
}

impl DeviceCandidate {
    /// The device has a graphics family and a transfer family; one family
    /// may be both.
    pub open spec fn suitable(self) -> bool {
        some_family_offers(self.queue_families@, QUEUE_GRAPHICS) && some_family_offers(
            self.queue_families@,
            QUEUE_TRANSFER,
        )
    }

    /// Class bonus plus the largest 2D image dimension.
    pub open spec fn score(self) -> nat {
        self.kind.bonus() + self.max_image_dimension_2d as nat
    }

    /// The score of a suitable device, zero for any other.
    pub open spec fn rating(self) -> nat {
        if self.suitable() {
            self.score()
        } else {
            0
        }
    }

    /// Tells whether some queue family has a queue and `capability`.
    pub fn offers(&self, capability: u32) -> (r: bool)
        ensures
            r == some_family_offers(self.queue_families@, capability),
    {
        let mut i: usize = 0;
        while i < self.queue_families.len()
            invariant
                0 <= i <= self.queue_families.len(),
                forall|j: int| 0 <= j < i ==> !(#[trigger] self.queue_families@[j]).offers(capability),
            decreases self.queue_families.len() - i,
        {
            let family = &self.queue_families[i];
            if family.queue_count > 0 && queue_flags_contain(family.queue_flags, capability) {
                return true;
            }
            i += 1;
        }
        false
    }

    /// Tells whether the device meets the hard requirement on queues.
    pub fn is_suitable(&self) -> (r: bool)
        ensures
            r == self.suitable(),
    {
        self.offers(QUEUE_GRAPHICS) && self.offers(QUEUE_TRANSFER)
    }
}

/// `best` is the candidate the selection returns: suitable, with no
/// suitable candidate scoring higher and none before it scoring as high.
pub open spec fn is_best_candidate(candidates: Seq<DeviceCandidate>, best: int) -> bool {
    &&& 0 <= best < candidates.len()
    &&& candidates[best].suitable()
    &&& forall|j: int|
        0 <= j < candidates.len() && (#[trigger] candidates[j]).suitable() ==> candidates[j].score()
            <= candidates[best].score()
    &&& forall|j: int|
        0 <= j < best && (#[trigger] candidates[j]).suitable() ==> candidates[j].score()
            < candidates[best].score()
}

/// Some candidate is suitable.
pub open spec fn has_suitable_candidate(candidates: Seq<DeviceCandidate>) -> bool {
    exists|j: int| 0 <= j < candidates.len() && (#[trigger] candidates[j]).suitable()
}

impl PhysicalDevice {
    /// Rates a device: its class bonus plus its largest 2D image
    /// dimension, or zero when it lacks a graphics or a transfer family.
    pub fn rate_physical_device(device: &DeviceCandidate) -> (score: u64)
        ensures
            score == device.rating(),
    {
        if !device.is_suitable() {
            return 0;
        }
        let bonus: u64 = match device.kind {
            DeviceKind::DiscreteGpu => 1000,
            DeviceKind::VirtualGpu => 500,
            DeviceKind::IntegratedGpu => 250,
            DeviceKind::Other => 0,
            DeviceKind::Cpu => 0,
        };
        bonus + device.max_image_dimension_2d as u64
    }

    /// Picks the highest-scoring suitable candidate, the earliest one
    /// among equals, and returns its index.
    pub fn pick_physical_device(candidates: &[DeviceCandidate]) -> (r: Result<usize, DeviceError>)
        ensures
            r is Err <==> !has_suitable_candidate(candidates@),
            r matches Ok(best) ==> is_best_candidate(candidates@, best as int),
    {
        let mut best: Option<usize> = None;
        let mut best_score: u64 = 0;
        let mut i: usize = 0;
        while i < candidates.len()
            invariant
                0 <= i <= candidates.len(),
                best is None ==> forall|j: int| 0 <= j < i ==> !(#[trigger] candidates@[j]).suitable(),
                best matches Some(b) ==> {
                    &&& b < i
                    &&& candidates@[b as int].suitable()
                    &&& best_score == candidates@[b as int].score()
                    &&& forall|j: int|
                        0 <= j < i && (#[trigger] candidates@[j]).suitable() ==> candidates@[j].score()
                            <= best_score
                    &&& forall|j: int|
                        0 <= j < b && (#[trigger] candidates@[j]).suitable() ==> candidates@[j].score()
                            < best_score
                },
            decreases candidates.len() - i,
        {
            let device = &candidates[i];
            if device.is_suitable() {
                let score: u64 = PhysicalDevice::rate_physical_device(device);
                if best.is_none() || score > best_score {
                    best = Some(i);
                    best_score = score;
                }
            }
            i += 1;
        }
        match best {
            Some(b) => Ok(b),
            None => Err(DeviceError::NoSuitableDevice),
        }
    }
}

} // verus!
