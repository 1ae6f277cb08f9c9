use vstd::prelude::*;

verus! {

/// One replica of a region, hosted on a store.
#[derive(Clone, Copy, Debug, PartialEq, Eq, Structural)]
pub struct Peer {
    pub id: u64,
    pub store_id: u64,
}

/// The two logical clocks of a region: `version` advances on range changes
/// (split, merge), `conf_ver` on membership changes.
#[derive(Clone, Copy, Debug, PartialEq, Eq, Structural)]
pub struct RegionEpoch {
    pub conf_ver: u64,
    pub version: u64,
}

/// A contiguous shard of the keyspace: `[start_key, end_key)`, where an
/// empty `end_key` means the region has no upper bound.
#[derive(Clone, Debug)]
pub struct Region {
    pub id: u64,
    pub start_key: Vec<u8>,
    pub end_key: Vec<u8>,
    pub region_epoch: RegionEpoch,
    pub peers: Vec<Peer>,
}

/// The mathematical value of a region.
pub struct RegionView {
    pub id: u64,
    pub start_key: Seq<u8>,
    pub end_key: Seq<u8>,
    pub region_epoch: RegionEpoch,
    pub peers: Seq<Peer>,
}

impl View for Region {
    type V = RegionView;

    open spec fn view(&self) -> RegionView {
        RegionView {
            id: self.id,
            start_key: self.start_key@,
            end_key: self.end_key@,
            region_epoch: self.region_epoch,
            peers: self.peers@,
        }
    }
}

/// No two peers of the list live on the same store.
pub open spec fn stores_unique(peers: Seq<Peer>) -> bool {
    forall|i: int, j: int|
        0 <= i < peers.len() && 0 <= j < peers.len() && i != j
            ==> #[trigger] peers[i].store_id != #[trigger] peers[j].store_id
}

impl Region {
    /// An empty region: id 0, unbounded range, zero epoch, no peers.
    pub fn new() -> (r: Region)
        ensures
            r@.id == 0,
            r@.start_key.len() == 0,
            r@.end_key.len() == 0,
            r@.region_epoch == (RegionEpoch { conf_ver: 0, version: 0 }),
            r@.peers.len() == 0,
    {
        Region {
            id: 0,
            start_key: Vec::new(),
            end_key: Vec::new(),
            region_epoch: RegionEpoch { conf_ver: 0, version: 0 },
            peers: Vec::new(),
        }
    }

    /// A copy of the region with the same value.
    pub fn snapshot(&self) -> (r: Region)
        ensures
            r@ == self@,
    {
        let mut peers: Vec<Peer> = Vec::new();
        let mut i: usize = 0;
        while i < self.peers.len()
            invariant
                i <= self.peers@.len(),
                peers@ == self.peers@.subrange(0, i as int),
            decreases self.peers@.len() - i,
        {
            peers.push(self.peers[i]);
            i = i + 1;
        }
        assert(peers@ == self.peers@);
        Region {
            id: self.id,
            start_key: vstd::slice::slice_to_vec(self.start_key.as_slice()),
            end_key: vstd::slice::slice_to_vec(self.end_key.as_slice()),
            region_epoch: self.region_epoch,
            peers,
        }
    }
}

/// Errors of the region checks.
#[derive(Debug)]
pub enum Error {
    /// The key lies outside the region's range; carries the key and a copy
    /// of the region.
    KeyNotInRegion(Vec<u8>, Region),
}

} // verus!
