use vstd::prelude::*;

use crate::region::RegionEpoch;

verus! {

/// `epoch` is older than `check_epoch` in at least one of its two clocks.
pub open spec fn epoch_stale(epoch: RegionEpoch, check_epoch: RegionEpoch) -> bool {
    epoch.version < check_epoch.version || epoch.conf_ver < check_epoch.conf_ver
}

/// Whether `epoch` is staler than `check_epoch`: its version or its
/// conf version is behind. This is no total order.
pub fn is_epoch_stale(epoch: &RegionEpoch, check_epoch: &RegionEpoch) -> (r: bool)
    ensures
        r == epoch_stale(*epoch, *check_epoch),
{
    epoch.version < check_epoch.version || epoch.conf_ver < check_epoch.conf_ver
}

/// An epoch is never stale relative to itself.
pub proof fn lemma_epoch_not_stale_to_itself(e: RegionEpoch)
    ensures
        !epoch_stale(e, e),
{
}

/// Falling behind in either clock alone makes an epoch stale, whatever the
/// other clock says.
pub proof fn lemma_epoch_stale_by_either_clock(e1: RegionEpoch, e2: RegionEpoch)
    ensures
        e1.version < e2.version ==> epoch_stale(e1, e2),
        e1.conf_ver < e2.conf_ver ==> epoch_stale(e1, e2),
{
}

} // verus!
