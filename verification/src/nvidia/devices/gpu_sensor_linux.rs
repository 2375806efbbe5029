//! The cards that `nvidia-smi` lists, as sensor devices.

use crate::nvidia::devices::gpu_sensor_common::{uuid_id, NvidiaSensorDevice};
use crate::nvidia::devices::nvidia_smi::SmiGpu;
use crate::text::owned;
use vstd::prelude::*;

verus! {

/// A card found through `nvidia-smi`: its device, and the UUID that readings are asked
/// with.
#[derive(Debug)]
pub struct SmiCard {
    pub device: NvidiaSensorDevice,
    pub uuid: String,
}

/// Whether `c` stands for a listed card.
pub open spec fn stands_for(c: SmiCard, gpu: SmiGpu) -> bool {
    &&& c.uuid@ == gpu.uuid@
    &&& c.device.name@ == gpu.name@
    &&& c.device.stable_id@ == "nvidia_gpu_"@ + gpu.uuid@
    &&& c.device.cached@.len() == 0
}

/// The scan for cards through `nvidia-smi`.
#[derive(Debug, Clone, Copy)]
pub struct NvidiaSmiTransport;

impl NvidiaSmiTransport {
    /// One device per listed card, named by its UUID.
    pub fn discover(gpus: &[SmiGpu]) -> (r: Vec<SmiCard>)
        ensures
            r@.len() == gpus@.len(),
            forall|i: int|
                #![trigger r@[i]]
                0 <= i < r@.len() ==> stands_for(r@[i], gpus@[i]),
    {
        let mut out: Vec<SmiCard> = Vec::new();
        let mut i: usize = 0;
        while i < gpus.len()
            invariant
                i <= gpus@.len(),
                out@.len() == i,
                forall|k: int|
                    #![trigger out@[k]]
                    0 <= k < i ==> stands_for(out@[k], gpus@[k]),
            decreases gpus@.len() - i,
        {
            let uuid: &str = gpus[i].uuid.as_str();
            let name: String = owned(gpus[i].name.as_str());
            let device = NvidiaSensorDevice::new(name, uuid_id(uuid));
            out.push(SmiCard { device, uuid: owned(uuid) });
            i = i + 1;
        }
        out
    }
}

/// Cards with different UUIDs are different devices.
pub proof fn uuids_tell_cards_apart(a: SmiCard, b: SmiCard, ga: SmiGpu, gb: SmiGpu)
    requires
        stands_for(a, ga),
        stands_for(b, gb),
        a.device.stable_id@ == b.device.stable_id@,
    ensures
        ga.uuid@ == gb.uuid@,
{
    let n = "nvidia_gpu_"@.len() as int;
    assert(ga.uuid@ =~= a.device.stable_id@.skip(n));
    assert(gb.uuid@ =~= b.device.stable_id@.skip(n));
}

/// Every listed card becomes a device, in order: with its UUID, its name, the id of its
/// UUID, and no readings yet.
pub proof fn every_card_becomes_a_device(
    gpus: &[SmiGpu],
    r: Vec<SmiCard>,
    i: int,
    uuid: &str,
    id: String,
)
    requires
        call_ensures(NvidiaSmiTransport::discover, (gpus,), r),
        0 <= i < gpus@.len(),
        uuid@ == gpus@[i].uuid@,
        call_ensures(uuid_id, (uuid,), id),
    ensures
        r@.len() == gpus@.len(),
        r@[i].uuid@ == gpus@[i].uuid@,
        r@[i].device.name@ == gpus@[i].name@,
        r@[i].device.stable_id@ == id@,
        r@[i].device.cached@.len() == 0,
{
    assert(stands_for(r@[i], gpus@[i]));
}

} // verus!
