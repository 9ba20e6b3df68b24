//! New P2P gossip topics.
//!
//!   /eth2/<fork_digest>/signed_execution_payload_bid/ssz_snappy
//!       Broadcast by builders when submitting a bid.
//!
//!   /eth2/<fork_digest>/payload_attestation_message/ssz_snappy
//!       Broadcast by PTC members attesting to payload timeliness.
//!
//!   /eth2/<fork_digest>/proposer_preferences/ssz_snappy
//!       Broadcast by proposers advertising their builder preferences.
use vstd::prelude::*;
use vstd::string::StringExecFns;

verus! {

pub const TOPIC_SIGNED_EXECUTION_PAYLOAD_BID: &'static str = "signed_execution_payload_bid";

pub const TOPIC_PAYLOAD_ATTESTATION_MESSAGE: &'static str = "payload_attestation_message";

pub const TOPIC_PROPOSER_PREFERENCES: &'static str = "proposer_preferences";

/// The full topic string `/eth2/<fork_digest_hex>/<base>/ssz_snappy`.
pub open spec fn topic_string(base: Seq<char>, fork_digest_hex: Seq<char>) -> Seq<char> {
    "/eth2/"@ + fork_digest_hex + "/"@ + base + "/ssz_snappy"@
}

/// Build the full topic string for a given fork digest (4 bytes, hex-encoded).
pub fn topic_for_fork(base: &str, fork_digest_hex: &str) -> (r: String)
    ensures
        r@ == topic_string(base@, fork_digest_hex@),
{
    let mut topic = String::from_str("/eth2/");
    topic.append(fork_digest_hex);
    topic.append("/");
    topic.append(base);
    topic.append("/ssz_snappy");
    topic
}

} // verus!
