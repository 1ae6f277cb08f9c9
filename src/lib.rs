//! Region membership, key-range and epoch utilities for a sharded,
//! Raft-replicated key-value store, and the framing of client requests with
//! their request identifier.

pub mod conf_change;
pub mod envelope;
pub mod epoch;
pub mod key_range;
pub mod membership;
pub mod region;

pub use conf_change::{conf_change_type_str, ConfChangeType};
pub use envelope::{decode_req, encode_req, get_uuid_from_req, UUID_BYTES};
pub use epoch::is_epoch_stale;
pub use key_range::check_key_in_region;
pub use membership::{find_peer, new_peer, remove_peer};
pub use region::{Error, Peer, Region, RegionEpoch};
