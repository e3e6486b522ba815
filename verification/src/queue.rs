//! Queue families of a physical device and the choice of the two the
//! renderer uses: one for graphics and presentation, one for transfers.

use ash::vk;
use vstd::prelude::*;

verus! {

/// Bit of `VkQueueFlags` set on families that accept graphics commands.
pub const QUEUE_GRAPHICS: u32 = 0x1;

/// Bit of `VkQueueFlags` set on families that accept transfer commands.
pub const QUEUE_TRANSFER: u32 = 0x4;

/// What the driver reports of one queue family.
#[derive(Clone, Copy, Debug, PartialEq, Eq, Structural)]
pub struct QueueFamily {
    /// Number of queues the family offers.
    pub queue_count: u32,
    /// Raw `VkQueueFlags` of the family.
    pub queue_flags: u32,
}

/// Why no queue topology could be found on a device.
#[derive(Clone, Copy, Debug, PartialEq, Eq, Structural)]
pub enum QueueError {
    /// No family has the graphics bit, a queue, and presentation support.
    NoGraphicsQueue,
    /// No family has the transfer bit and a queue.
    NoTransferQueue,
}

/// Indices of the queue families chosen for a device.
#[derive(Clone, Copy, Debug, PartialEq, Eq, Structural)]
pub struct QueueFamilies {
    pub graphics: Option<u32>,
    pub transfer: Option<u32>,
}

/// Handles of the queues opened from the chosen families.
#[derive(Clone, Copy, Debug, PartialEq, Eq, Structural)]
pub struct Queues {
    pub graphics_queue: u64,
    pub transfer_queue: u64,
}

/// `ash::vk::QueueFlags::contains` on raw flag words: true exactly when
/// every bit of `wanted` is set in `flags`. The contract restates the
/// method's one-line body; Verus does not check it.
#[verifier::external_body]
pub(crate) fn queue_flags_contain(flags: u32, wanted: u32) -> (r: bool)
    ensures
        r == (flags & wanted == wanted),
{
    vk::QueueFlags::from_raw(flags).contains(vk::QueueFlags::from_raw(wanted))
}

impl QueueFamily {
    /// The family has at least one queue and every bit of `capability`.
    pub open spec fn offers(self, capability: u32) -> bool {
        self.queue_count > 0 && self.queue_flags & capability == capability
    }

    /// The family can serve as the graphics family when the surface can
    /// be presented to from it.
    pub open spec fn graphics_capable(self, presentable: bool) -> bool {
        self.offers(QUEUE_GRAPHICS) && presentable
    }

    /// The family can carry transfers and cannot carry graphics.
    pub open spec fn dedicated_transfer(self) -> bool {
        self.offers(QUEUE_TRANSFER) && self.queue_flags & QUEUE_GRAPHICS != QUEUE_GRAPHICS
    }

    pub fn has_capability(&self, capability: u32) -> (r: bool)
        ensures
            r == self.offers(capability),
    {
        self.queue_count > 0 && queue_flags_contain(self.queue_flags, capability)
    }
}

/// `g` is the graphics family of `families`: the last one that offers
/// graphics and can present to the surface.
pub open spec fn is_graphics_choice(families: Seq<QueueFamily>, present: Seq<bool>, g: int) -> bool {
    &&& 0 <= g < families.len()
    &&& families[g].graphics_capable(present[g])
    &&& forall|j: int| g < j < families.len() ==> !(#[trigger] families[j]).graphics_capable(present[j])
}

/// `t` is the transfer family of `families`: the first dedicated transfer
/// family, or without one the first family that offers transfers.
pub open spec fn is_transfer_choice(families: Seq<QueueFamily>, t: int) -> bool {
    &&& 0 <= t < families.len()
    &&& families[t].offers(QUEUE_TRANSFER)
    &&& if families[t].dedicated_transfer() {
        forall|j: int| 0 <= j < t ==> !(#[trigger] families[j]).dedicated_transfer()
    } else {
        &&& forall|j: int| 0 <= j < families.len() ==> !(#[trigger] families[j]).dedicated_transfer()
        &&& forall|j: int| 0 <= j < t ==> !(#[trigger] families[j]).offers(QUEUE_TRANSFER)
    }
}

/// The graphics family can present to the surface, has the graphics bit
/// and has a queue.
pub proof fn lemma_graphics_choice_presents(families: Seq<QueueFamily>, present: Seq<bool>, g: int)
    requires
        is_graphics_choice(families, present, g),
    ensures
        present[g],
        families[g].queue_count > 0,
        families[g].queue_flags & QUEUE_GRAPHICS == QUEUE_GRAPHICS,
{
}

/// Some family can serve as the graphics family.
pub open spec fn has_graphics_family(families: Seq<QueueFamily>, present: Seq<bool>) -> bool {
    exists|j: int| 0 <= j < families.len() && (#[trigger] families[j]).graphics_capable(present[j])
}

/// Some family can carry transfers.
pub open spec fn has_transfer_family(families: Seq<QueueFamily>) -> bool {
    exists|j: int| 0 <= j < families.len() && (#[trigger] families[j]).offers(QUEUE_TRANSFER)
}

impl QueueFamilies {
    /// Both families were found.
    pub open spec fn complete(self) -> bool {
        self.graphics.is_some() && self.transfer.is_some()
    }

    /// Scans the families in index order and picks the graphics and the
    /// transfer family. `present_support[i]` tells whether the surface can
    /// be presented to from family `i`.
    pub fn init(families: &[QueueFamily], present_support: &[bool]) -> (r: Result<QueueFamilies, QueueError>)
        requires
            families.len() == present_support.len(),
            families.len() <= u32::MAX,
        ensures
            r == Err::<QueueFamilies, QueueError>(QueueError::NoGraphicsQueue) <==> !has_graphics_family(
                families@,
                present_support@,
            ),
            r == Err::<QueueFamilies, QueueError>(QueueError::NoTransferQueue) <==> (has_graphics_family(
                families@,
                present_support@,
            ) && !has_transfer_family(families@)),
            r matches Ok(q) ==> {
                &&& q.graphics matches Some(g) && is_graphics_choice(families@, present_support@, g as int)
                &&& q.transfer matches Some(t) && is_transfer_choice(families@, t as int)
            },
    {
        let mut graphics: Option<u32> = None;
        let mut transfer: Option<u32> = None;
        let mut transfer_dedicated: bool = false;
        let mut i: usize = 0;
        while i < families.len()
            invariant
                0 <= i <= families.len(),
                families.len() == present_support.len(),
                families.len() <= u32::MAX,
                graphics is None ==> forall|j: int|
                    0 <= j < i ==> !(#[trigger] families@[j]).graphics_capable(present_support@[j]),
                graphics matches Some(g) ==> {
                    &&& g < i
                    &&& families@[g as int].graphics_capable(present_support@[g as int])
                    &&& forall|j: int|
                        g < j < i ==> !(#[trigger] families@[j]).graphics_capable(present_support@[j])
                },
                transfer is None ==> !transfer_dedicated && forall|j: int|
                    0 <= j < i ==> !(#[trigger] families@[j]).offers(QUEUE_TRANSFER),
                transfer matches Some(t) ==> {
                    &&& t < i
                    &&& families@[t as int].offers(QUEUE_TRANSFER)
                    &&& transfer_dedicated == families@[t as int].dedicated_transfer()
                    &&& transfer_dedicated ==> forall|j: int|
                        0 <= j < t ==> !(#[trigger] families@[j]).dedicated_transfer()
                    &&& !transfer_dedicated ==> {
                        &&& forall|j: int| 0 <= j < i ==> !(#[trigger] families@[j]).dedicated_transfer()
                        &&& forall|j: int| 0 <= j < t ==> !(#[trigger] families@[j]).offers(QUEUE_TRANSFER)
                    }
                },
            decreases families.len() - i,
        {
            let family = &families[i];
            if family.has_capability(QUEUE_GRAPHICS) && present_support[i] {
                graphics = Some(i as u32);
            }
            if family.has_capability(QUEUE_TRANSFER) {
                let dedicated = !queue_flags_contain(family.queue_flags, QUEUE_GRAPHICS);
                if transfer.is_none() || (dedicated && !transfer_dedicated) {
                    transfer = Some(i as u32);
                    transfer_dedicated = dedicated;
                }
            }
            i += 1;
        }
        if graphics.is_none() {
            Err(QueueError::NoGraphicsQueue)
        } else if transfer.is_none() {
            Err(QueueError::NoTransferQueue)
        } else {
            Ok(QueueFamilies { graphics, transfer })
        }
    }
}

} // verus!
