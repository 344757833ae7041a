//! Reading the host field of a configuration section.

use crate::net::{ip_addr_parse, outcome_view, spec_localhost, IpAddr};
use vstd::prelude::*;

verus! {

/// The address a host text names: `localhost` is `127.0.0.1`; any other
/// text is parsed as an IP address, and the parse error's text is the error.
/// A host that reads at all is always present.
pub open spec fn spec_host_of_text(s: Seq<char>) -> Result<Option<IpAddr>, Seq<char>> {
    if s == "localhost"@ {
        Ok(Some(spec_localhost()))
    } else {
        match ip_addr_parse(s) {
            Ok(a) => Ok(Some(a)),
            Err(e) => Err(e),
        }
    }
}

/// Turns the outcome of parsing an IP address into a present host.
pub fn host_from_parsed(parsed: Result<IpAddr, String>) -> (r: Result<Option<IpAddr>, String>)
    ensures
        outcome_view(r) == match outcome_view(parsed) {
            Ok(a) => Ok(Some(a)),
            Err(e) => Err::<Option<IpAddr>, Seq<char>>(e),
        },
{
    match parsed {
        Ok(a) => Ok(Some(a)),
        Err(e) => Err(e),
    }
}

/// Reads a host field from its text: `localhost`, or an IP address.
pub fn deserialize_ipaddr_opt(s: String) -> (r: Result<Option<IpAddr>, String>)
    ensures
        outcome_view(r) == spec_host_of_text(s@),
        r matches Ok(h) ==> h is Some,
{
    let localhost = String::from_str("localhost");
    if s == localhost {
        Ok(Some(IpAddr::localhost()))
    } else {
        host_from_parsed(IpAddr::parse(s.as_str()))
    }
}

/// Reads a required host field from its text: `localhost`, or an IP
/// address.
pub fn deserialize_ipaddr(s: String) -> (r: Result<IpAddr, String>)
    ensures
        outcome_view(r) == match spec_host_of_text(s@) {
            Ok(h) => Ok(h.unwrap()),
            Err(e) => Err::<IpAddr, Seq<char>>(e),
        },
{
    match deserialize_ipaddr_opt(s) {
        Ok(h) => Ok(h.unwrap()),
        Err(e) => Err(e),
    }
}


/// Only the text `localhost` reads as `127.0.0.1`; any other text reads as
/// exactly the address it parses to, and a text that does not parse is an
/// error with the parse error's text.
pub proof fn law_host_text(s: Seq<char>)
    ensures
        s == "localhost"@ ==> spec_host_of_text(s) == Ok::<Option<IpAddr>, Seq<char>>(
            Some(IpAddr::V4(0x7f00_0001)),
        ),
        s != "localhost"@ ==> (ip_addr_parse(s) matches Ok(a) ==> spec_host_of_text(s) == Ok::<
            Option<IpAddr>,
            Seq<char>,
        >(Some(a))),
        s != "localhost"@ ==> (ip_addr_parse(s) matches Err(e) ==> spec_host_of_text(s) == Err::<
            Option<IpAddr>,
            Seq<char>,
        >(e)),
        spec_host_of_text(s) matches Ok(h) ==> h is Some,
{
}

} // verus!
