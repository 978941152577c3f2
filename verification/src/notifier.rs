//! The signal that tells the peer cell of a write.
//!
//! After a write that takes part in lag measurement, the origin cell sends
//! the peer one plain request that carries the record's identifier and the
//! time of the write. What is computed of that request is computed here;
//! sending it is left to the caller.

use crate::error::StoreError;
use crate::text::{decimal, push_decimal};
use vstd::prelude::*;
use vstd::string::StringExecFns;

verus! {

/// How many idle connections to the peer are kept.
pub const POOL_MAX_IDLE_PER_HOST: usize = 10;

/// After how many seconds an idle connection to the peer is closed.
pub const POOL_IDLE_TIMEOUT_SECS: u64 = 90;

/// The address of the peer's endpoint for lag signals, for a peer at the
/// host `peer_addr`.
pub open spec fn endpoint_of(peer_addr: Seq<char>) -> Seq<char> {
    "http://"@ + peer_addr + ":8000/record_lag/"@
}

/// The address of the request that tells the peer that the record `pid` was
/// written at `timestamp`.
pub open spec fn signal_url(endpoint: Seq<char>, pid: Seq<char>, timestamp: int) -> Seq<char> {
    endpoint + pid + seq!['/'] + decimal(timestamp)
}

/// The peer cell's endpoint for lag signals.
#[derive(Debug)]
pub struct PeerEndpoint {
    pub addr: String,
}

impl PeerEndpoint {
    /// The endpoint of the peer at the host `peer_addr`.
    pub fn new(peer_addr: &str) -> (e: PeerEndpoint)
        ensures
            e.addr@ == endpoint_of(peer_addr@),
    {
        let mut addr = "http://".to_owned();
        addr.append(peer_addr);
        addr.append(":8000/record_lag/");
        PeerEndpoint { addr }
    }

    /// The address of the request that tells the peer that the record `pid`
    /// was written at `timestamp`, in milliseconds since the Unix epoch.
    pub fn request_url(&self, pid: &str, timestamp: i64) -> (url: String)
        ensures
            url@ == signal_url(self.addr@, pid@, timestamp as int),
    {
        proof {
            reveal_strlit("/");
        }
        let mut url = self.addr.clone();
        url.append(pid);
        url.append("/");
        push_decimal(&mut url, timestamp);
        assert(url@ =~= signal_url(self.addr@, pid@, timestamp as int));
        url
    }
}

/// What the origin's caller is told of the signal: success if it was
/// delivered, `PeerUnreachable` if it was not.
pub fn delivery(delivered: bool) -> (r: Result<(), StoreError>)
    ensures
        r == if delivered {
            Ok::<(), StoreError>(())
        } else {
            Err::<(), StoreError>(StoreError::PeerUnreachable)
        },
{
    if delivered {
        Ok(())
    } else {
        Err(StoreError::PeerUnreachable)
    }
}

} // verus!
