use store_util::{
    check_key_in_region, conf_change_type_str, decode_req, encode_req, find_peer,
    get_uuid_from_req, is_epoch_stale, new_peer, remove_peer, ConfChangeType, Error, Peer,
    Region, RegionEpoch, UUID_BYTES,
};

fn region_with_range(start: &[u8], end: &[u8]) -> Region {
    let mut region = Region::new();
    region.start_key = start.to_vec();
    region.end_key = end.to_vec();
    region
}

#[test]
fn test_peer() {
    let mut region = Region::new();
    region.id = 1;
    region.peers.push(new_peer(1, 1));

    assert!(find_peer(&region, 1).is_some());
    assert!(find_peer(&region, 10).is_none());

    assert!(remove_peer(&mut region, 1).is_some());
    assert!(remove_peer(&mut region, 1).is_none());
    assert!(find_peer(&region, 1).is_none());
}

#[test]
fn new_peer_sets_both_ids() {
    let p = new_peer(3, 7);
    assert_eq!(p.store_id, 3);
    assert_eq!(p.id, 7);
}

#[test]
fn find_peer_returns_first_in_list_order() {
    let mut region = Region::new();
    region.peers.push(new_peer(1, 10));
    region.peers.push(new_peer(2, 20));
    region.peers.push(new_peer(2, 21));
    assert_eq!(find_peer(&region, 2), Some(&Peer { id: 20, store_id: 2 }));
    assert_eq!(find_peer(&region, 1), Some(&Peer { id: 10, store_id: 1 }));
    assert_eq!(find_peer(&region, 3), None);
}

#[test]
fn remove_peer_twice_on_single_peer() {
    let mut region = Region::new();
    region.peers.push(new_peer(1, 1));
    assert_eq!(remove_peer(&mut region, 1), Some(Peer { id: 1, store_id: 1 }));
    assert_eq!(remove_peer(&mut region, 1), None);
    assert!(region.peers.is_empty());
}

#[test]
fn remove_peer_keeps_order_of_the_rest() {
    let mut region = Region::new();
    region.id = 9;
    region.peers.push(new_peer(1, 11));
    region.peers.push(new_peer(2, 12));
    region.peers.push(new_peer(3, 13));
    assert_eq!(remove_peer(&mut region, 2), Some(Peer { id: 12, store_id: 2 }));
    assert_eq!(region.peers, vec![new_peer(1, 11), new_peer(3, 13)]);
    assert_eq!(region.id, 9);
    assert!(find_peer(&region, 2).is_none());
}

#[test]
fn remove_peer_missing_store_leaves_region() {
    let mut region = Region::new();
    region.peers.push(new_peer(1, 11));
    region.peers.push(new_peer(2, 12));
    assert_eq!(remove_peer(&mut region, 5), None);
    assert_eq!(region.peers, vec![new_peer(1, 11), new_peer(2, 12)]);
}

#[test]
fn key_range_bounds_inclusive_start_exclusive_end() {
    let region = region_with_range(b"a", b"m");
    assert!(check_key_in_region(b"a", &region).is_ok());
    assert!(check_key_in_region(b"m", &region).is_err());
    assert!(check_key_in_region(b"z", &region).is_err());
    assert!(check_key_in_region(b"", &region).is_err());
    assert!(check_key_in_region(b"lzzz", &region).is_ok());
    assert!(check_key_in_region(b"ab", &region).is_ok());
}

#[test]
fn key_range_prefixes() {
    let region = region_with_range(b"ab", b"abc");
    assert!(check_key_in_region(b"a", &region).is_err());
    assert!(check_key_in_region(b"ab", &region).is_ok());
    assert!(check_key_in_region(b"ab\x00", &region).is_ok());
    assert!(check_key_in_region(b"abb\xff", &region).is_ok());
    assert!(check_key_in_region(b"abc", &region).is_err());
    assert!(check_key_in_region(b"abc\x00", &region).is_err());
}

#[test]
fn key_range_unbounded_end() {
    let region = region_with_range(b"k", b"");
    assert!(check_key_in_region(b"k", &region).is_ok());
    assert!(check_key_in_region(b"zzzz", &region).is_ok());
    assert!(check_key_in_region(&[0xff, 0xff, 0xff], &region).is_ok());
    assert!(check_key_in_region(b"j\xff", &region).is_err());

    let whole = region_with_range(b"", b"");
    assert!(check_key_in_region(b"", &whole).is_ok());
    assert!(check_key_in_region(&[0xff], &whole).is_ok());
}

#[test]
fn key_not_in_region_carries_key_and_region() {
    let mut region = region_with_range(b"a", b"m");
    region.id = 4;
    region.region_epoch = RegionEpoch { conf_ver: 2, version: 3 };
    region.peers.push(new_peer(1, 5));
    match check_key_in_region(b"q", &region) {
        Err(Error::KeyNotInRegion(key, reg)) => {
            assert_eq!(key, b"q".to_vec());
            assert_eq!(reg.id, 4);
            assert_eq!(reg.start_key, b"a".to_vec());
            assert_eq!(reg.end_key, b"m".to_vec());
            assert_eq!(reg.region_epoch, RegionEpoch { conf_ver: 2, version: 3 });
            assert_eq!(reg.peers, vec![new_peer(1, 5)]);
        }
        Ok(()) => panic!("key outside the region was accepted"),
    }
}

#[test]
fn end_key_is_never_in_region() {
    let region = region_with_range(b"", b"\x00");
    assert!(check_key_in_region(b"\x00", &region).is_err());
    assert!(check_key_in_region(b"", &region).is_ok());
}

#[test]
fn epoch_not_stale_to_itself() {
    let e = RegionEpoch { conf_ver: 5, version: 8 };
    assert!(!is_epoch_stale(&e, &e));
    let z = RegionEpoch { conf_ver: 0, version: 0 };
    assert!(!is_epoch_stale(&z, &z));
}

#[test]
fn epoch_stale_by_either_clock() {
    let a = RegionEpoch { conf_ver: 9, version: 1 };
    let b = RegionEpoch { conf_ver: 1, version: 2 };
    assert!(is_epoch_stale(&a, &b));
    assert!(is_epoch_stale(&b, &a));
    let c = RegionEpoch { conf_ver: 3, version: 3 };
    let d = RegionEpoch { conf_ver: 4, version: 3 };
    assert!(is_epoch_stale(&c, &d));
    assert!(!is_epoch_stale(&d, &c));
    let newer = RegionEpoch { conf_ver: 4, version: 4 };
    assert!(!is_epoch_stale(&newer, &c));
}

#[test]
fn encode_then_decode_round_trip() {
    let uuid: Vec<u8> = (1u8..=16).collect();
    let payload = vec![0x0a, 0x02, 0x08, 0x01, 0xff];
    let framed = encode_req(&uuid, payload.clone());
    assert_eq!(framed.len(), UUID_BYTES + payload.len());
    assert_eq!(&framed[..UUID_BYTES], &uuid[..]);
    let (id, rest) = decode_req(&framed);
    assert_eq!(id, uuid);
    assert_eq!(rest, &payload[..]);
}

#[test]
fn decode_exactly_identifier() {
    let bytes = [7u8; 16];
    let (id, rest) = decode_req(&bytes);
    assert_eq!(id, vec![7u8; 16]);
    assert!(rest.is_empty());
}

#[test]
fn uuid_from_header_bytes() {
    let bytes: Vec<u8> = (0xa0u8..0xb0).collect();
    let id = get_uuid_from_req(&bytes).unwrap();
    assert_eq!(&id[..], &bytes[..]);
    assert_eq!(uuid::Uuid::from_bytes(id).as_bytes(), &id);
    assert!(get_uuid_from_req(&bytes[..15]).is_none());
    assert!(get_uuid_from_req(&[0u8; 17]).is_none());
    assert!(get_uuid_from_req(&[]).is_none());
}

#[test]
fn conf_change_labels() {
    assert_eq!(conf_change_type_str(&ConfChangeType::AddNode), "AddNode");
    assert_eq!(conf_change_type_str(&ConfChangeType::RemoveNode), "RemoveNode");
}
