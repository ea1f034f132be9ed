//! Addresses of the automation service.
//!
//! A base address is either configured or derived from the host that answered
//! a browse of the local network. Every request goes to the base address
//! followed by a path.

use vstd::prelude::*;
use vstd::string::*;

verus! {

/// The base address of an automation service found on `hostname`: plain HTTP
/// on the service's fixed port.
pub open spec fn base_address_of(hostname: Seq<char>) -> Seq<char> {
    "http://"@ + hostname + ":7777"@
}

/// The address that answers with the service's whole rule table.
pub open spec fn rules_url_of(base: Seq<char>) -> Seq<char> {
    base + "/rules"@
}

/// The address that triggers the rule with identifier `rule_id`.
pub open spec fn trigger_url_of(base: Seq<char>, rule_id: Seq<char>) -> Seq<char> {
    base + "/rules/"@ + rule_id
}

/// The kind of service that is browsed for on the local network.
pub fn service_type() -> (kind: &'static str)
    ensures
        kind@ == "_pebble._tcp.local."@,
{
    "_pebble._tcp.local."
}

/// Derives the base address from the host of a resolved advertisement.
pub fn base_address(hostname: &str) -> (base: String)
    ensures
        base@ == base_address_of(hostname@),
{
    let mut base = String::from_str("http://");
    base.append(hostname);
    base.append(":7777");
    base
}

/// Builds the address of the rule table from a base address.
pub fn rules_url(base: &str) -> (url: String)
    ensures
        url@ == rules_url_of(base@),
{
    let mut url = String::from_str(base);
    url.append("/rules");
    url
}

/// Builds the address that triggers one rule.
pub fn trigger_url(base: &str, rule_id: &str) -> (url: String)
    ensures
        url@ == trigger_url_of(base@, rule_id@),
{
    let mut url = String::from_str(base);
    url.append("/rules/");
    url.append(rule_id);
    url
}

} // verus!
