//! Says which URL a change of presence is reported to.
//!
//! A notification is one plain HTTP GET. Its target is made of the configured
//! host and the path for the direction of the change.

use crate::config::{Config, RemoteSpecView};
use vstd::prelude::*;
use vstd::string::StringExecFns;

verus! {

/// The characters `http://`, with which every target begins.
pub open spec fn scheme() -> Seq<char> {
    seq!['h', 't', 't', 'p', ':', '/', '/']
}

/// The URL that is called for a change in the given direction:
/// `http://`, the host, and the path for "on" or for "off".
pub open spec fn target(remote: RemoteSpecView, turn_on: bool) -> Seq<char> {
    scheme() + remote.host + if turn_on {
        remote.on_path
    } else {
        remote.off_path
    }
}

/// Builds the URL to call when the watched program appeared (`turn_on`) or
/// went away.
pub fn get_address(config: &Config, turn_on: bool) -> (address: String)
    ensures
        address@ == target(config@.remote, turn_on),
{
    let mut address: String = "http://".to_owned();
    proof {
        reveal_strlit("http://");
        assert(address@ =~= scheme());
    }
    address.append(config.remote.host.as_str());
    if turn_on {
        address.append(config.remote.on_path.as_str());
    } else {
        address.append(config.remote.off_path.as_str());
    }
    address
}

} // verus!
