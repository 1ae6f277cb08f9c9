use vstd::prelude::*;

use crate::region::{stores_unique, Peer, Region};

verus! {

/// Some peer of the list lives on `store_id`.
pub open spec fn has_store(peers: Seq<Peer>, store_id: u64) -> bool {
    exists|i: int| 0 <= i < peers.len() && #[trigger] peers[i].store_id == store_id
}

/// `i` is the position of the first peer of the list on `store_id`.
pub open spec fn is_first_match(peers: Seq<Peer>, store_id: u64, i: int) -> bool {
    &&& 0 <= i < peers.len()
    &&& peers[i].store_id == store_id
    &&& forall|j: int| 0 <= j < i ==> peers[j].store_id != store_id
}

/// The position of the first peer on `store_id`, where there is one.
pub open spec fn first_index(peers: Seq<Peer>, store_id: u64) -> int {
    choose|i: int| is_first_match(peers, store_id, i)
}

/// The first peer of the list on `store_id`, if any.
pub open spec fn peer_of_store(peers: Seq<Peer>, store_id: u64) -> Option<Peer> {
    if has_store(peers, store_id) {
        Some(peers[first_index(peers, store_id)])
    } else {
        None
    }
}

/// The list with its first peer on `store_id` taken out, the others kept in
/// order; the list itself where no peer lives on `store_id`.
pub open spec fn peers_without_store(peers: Seq<Peer>, store_id: u64) -> Seq<Peer> {
    if has_store(peers, store_id) {
        peers.remove(first_index(peers, store_id))
    } else {
        peers
    }
}

proof fn lemma_first_match_unique(peers: Seq<Peer>, store_id: u64, i: int, j: int)
    requires
        is_first_match(peers, store_id, i),
        is_first_match(peers, store_id, j),
    ensures
        i == j,
{
    if i < j {
        assert(peers[i].store_id != store_id);
    } else if j < i {
        assert(peers[j].store_id != store_id);
    }
}

proof fn lemma_first_match_exists(peers: Seq<Peer>, store_id: u64, k: int)
    requires
        0 <= k < peers.len(),
        peers[k].store_id == store_id,
    ensures
        is_first_match(peers, store_id, first_index(peers, store_id)),
    decreases k,
{
    if forall|j: int| 0 <= j < k ==> peers[j].store_id != store_id {
        assert(is_first_match(peers, store_id, k));
    } else {
        let j = choose|j: int| 0 <= j < k && peers[j].store_id == store_id;
        lemma_first_match_exists(peers, store_id, j);
    }
}

/// The position of the first peer on `store_id`.
fn position_of_store(peers: &Vec<Peer>, store_id: u64) -> (r: Option<usize>)
    ensures
        r is None <==> !has_store(peers@, store_id),
        r matches Some(i) ==> i == first_index(peers@, store_id)
            && is_first_match(peers@, store_id, i as int),
{
    let mut i: usize = 0;
    while i < peers.len()
        invariant
            i <= peers@.len(),
            forall|j: int| 0 <= j < i ==> peers@[j].store_id != store_id,
        decreases peers@.len() - i,
    {
        if peers[i].store_id == store_id {
            proof {
                assert(is_first_match(peers@, store_id, i as int));
                lemma_first_match_unique(
                    peers@,
                    store_id,
                    i as int,
                    first_index(peers@, store_id),
                );
            }
            return Some(i);
        }
        i = i + 1;
    }
    None
}

/// Finds the first peer of the region, in list order, on `store_id`.
pub fn find_peer(region: &Region, store_id: u64) -> (r: Option<&Peer>)
    ensures
        r is None <==> !has_store(region@.peers, store_id),
        r matches Some(p) ==> peer_of_store(region@.peers, store_id) == Some(*p),
{
    match position_of_store(&region.peers, store_id) {
        Some(i) => Some(&region.peers[i]),
        None => None,
    }
}

/// Removes the first peer of the region on `store_id` and returns it; the
/// other peers keep their order. Where none lives there the region is left
/// as it was.
pub fn remove_peer(region: &mut Region, store_id: u64) -> (r: Option<Peer>)
    ensures
        r == peer_of_store(old(region)@.peers, store_id),
        final(region)@.peers == peers_without_store(old(region)@.peers, store_id),
        final(region)@.id == old(region)@.id,
        final(region)@.start_key == old(region)@.start_key,
        final(region)@.end_key == old(region)@.end_key,
        final(region)@.region_epoch == old(region)@.region_epoch,
{
    match position_of_store(&region.peers, store_id) {
        Some(i) => Some(region.peers.remove(i)),
        None => None,
    }
}

/// Makes a peer with the given store and peer ids.
pub fn new_peer(store_id: u64, peer_id: u64) -> (r: Peer)
    ensures
        r.store_id == store_id,
        r.id == peer_id,
{
    Peer { id: peer_id, store_id }
}

/// Where no peer lives on `store_id`, none is found; where store ids are
/// unique, the one peer on `store_id` is found.
pub proof fn lemma_find_peer_unique(peers: Seq<Peer>, store_id: u64, i: int)
    requires
        stores_unique(peers),
    ensures
        (forall|j: int| 0 <= j < peers.len() ==> peers[j].store_id != store_id) ==>
            peer_of_store(peers, store_id) is None,
        0 <= i < peers.len() && peers[i].store_id == store_id ==>
            peer_of_store(peers, store_id) == Some(peers[i]),
{
    if 0 <= i < peers.len() && peers[i].store_id == store_id {
        lemma_first_match_exists(peers, store_id, i);
        let k = first_index(peers, store_id);
        if k != i {
            assert(peers[k].store_id != peers[i].store_id);
        }
    }
}

/// Where store ids are unique, once the peer on a store is removed no peer
/// is found on that store.
pub proof fn lemma_remove_then_find(peers: Seq<Peer>, store_id: u64)
    requires
        stores_unique(peers),
    ensures
        peer_of_store(peers_without_store(peers, store_id), store_id) is None,
{
    if has_store(peers, store_id) {
        let k0 = choose|k: int| 0 <= k < peers.len() && #[trigger] peers[k].store_id == store_id;
        lemma_first_match_exists(peers, store_id, k0);
        let i = first_index(peers, store_id);
        let rest = peers.remove(i);
        assert forall|k: int| 0 <= k < rest.len() implies #[trigger] rest[k].store_id != store_id by {
            if k < i {
                assert(rest[k] == peers[k]);
                assert(peers[k].store_id != peers[i].store_id);
            } else {
                assert(rest[k] == peers[k + 1]);
                assert(peers[k + 1].store_id != peers[i].store_id);
            }
        }
    }
}

} // verus!
