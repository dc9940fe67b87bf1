use crate::common::SharedConfig;
use vstd::prelude::*;

verus! {

/// How the instance takes part in the federation.
#[derive(Debug, PartialEq)]
pub struct FederationConfig {
    /// Domain, with the port where it is not the default, under which the
    /// instance is reached.
    pub domain: String,
    /// Whether the instance is reached over `https` rather than `http`.
    pub secure: bool,
}

/// The configuration of an instance.
#[derive(Debug, PartialEq)]
pub struct IbisConfig {
    pub federation: FederationConfig,
    pub options: SharedConfig,
}

/// The scheme of the instance's own URLs.
pub open spec fn protocol(secure: bool) -> Seq<char> {
    if secure {
        "https"@
    } else {
        "http"@
    }
}

/// The scheme of the instance's own URLs.
pub fn http_protocol_str(secure: bool) -> (scheme: &'static str)
    ensures
        scheme@ == protocol(secure),
{
    if secure {
        "https"
    } else {
        "http"
    }
}

} // verus!
