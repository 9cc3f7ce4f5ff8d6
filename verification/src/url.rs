//! Builds the connection string that the environment hands to the database
//! client before the session starts.

use vstd::prelude::*;
use vstd::string::StringExecFns;
use crate::digits::{dec_digits, dec_string};

verus! {

/// The connection string for a server location and port: the scheme, the
/// location, a colon, and the port in decimal.
pub open spec fn url_of(port: nat, location: Seq<char>) -> Seq<char> {
    "mongodb://"@ + location + ":"@ + dec_digits(port)
}

/// Assembles the connection string for `location` and `port`.
pub fn make_url(port: u32, location: String) -> (r: String)
    ensures
        r@ == url_of(port as nat, location@),
{
    proof {
        reveal_strlit("mongodb://");
        reveal_strlit(":");
    }
    let rendered_port = dec_string(port as u64);
    let r = String::from_str("mongodb://").concat(location.as_str()).concat(":").concat(
        rendered_port.as_str(),
    );
    proof {
        assert(r@ =~= url_of(port as nat, location@));
    }
    r
}

} // verus!
