//! Endpoints and locators.

use vstd::prelude::*;
use vstd::string::*;

use crate::config::Config;
use crate::error::{error_with, ErrorKind, TlsError};

verus! {

/// The protocol name of the locators of a link.
pub const TLS_LOCATOR_PREFIX: &'static str = "tls";

/// Where a peer can be reached.
#[derive(Clone, Debug)]
pub struct Locator {
    pub protocol: String,
    pub address: String,
    pub metadata: String,
}

/// The contents of a [`Locator`].
pub struct LocatorView {
    pub protocol: Seq<char>,
    pub address: Seq<char>,
    pub metadata: Seq<char>,
}

impl View for Locator {
    type V = LocatorView;

    open spec fn view(&self) -> LocatorView {
        LocatorView {
            protocol: self.protocol@,
            address: self.address@,
            metadata: self.metadata@,
        }
    }
}

impl Locator {
    /// A locator of three parts.
    pub fn new(protocol: &str, address: String, metadata: &str) -> (r: Locator)
        ensures
            r@ == (LocatorView { protocol: protocol@, address: address@, metadata: metadata@ }),
    {
        Locator { protocol: protocol.to_owned(), address, metadata: metadata.to_owned() }
    }
}

/// What a link or a listener is asked for: a locator and a configuration.
#[derive(Clone, Debug)]
pub struct EndPoint {
    /// The endpoint as it was written.
    pub text: String,
    pub protocol: String,
    pub address: String,
    pub metadata: String,
    pub config: Config,
}

/// The locator of one end of a link.
pub open spec fn link_locator(addr: Seq<char>) -> LocatorView {
    LocatorView { protocol: TLS_LOCATOR_PREFIX@, address: addr, metadata: ""@ }
}

impl EndPoint {
    /// The locator part of an endpoint.
    pub open spec fn locator(self) -> LocatorView {
        LocatorView {
            protocol: self.protocol@,
            address: self.address@,
            metadata: self.metadata@,
        }
    }

    /// The locator part of an endpoint.
    pub fn to_locator(&self) -> (r: Locator)
        ensures
            r@ == self.locator(),
    {
        Locator::new(self.protocol.as_str(), self.address.clone(), self.metadata.as_str())
    }
}

/// The host of an address: what stands before its last colon.
pub open spec fn host_of(address: Seq<char>) -> Option<Seq<char>>
    decreases address.len(),
{
    if address.len() == 0 {
        None
    } else if address.last() == ':' {
        Some(address.drop_last())
    } else {
        host_of(address.drop_last())
    }
}

/// Takes the host from an address, without the port.
pub fn get_tls_host(address: &str) -> (r: Result<String, TlsError>)
    ensures
        match host_of(address@) {
            Some(host) => r matches Ok(text) && text@ == host,
            None => r matches Err(e) && e@ == error_with(
                ErrorKind::Address,
                "Invalid TLS address"@,
            ),
        },
{
    let mut n: usize = address.unicode_len();
    assert(address@.take(n as int) =~= address@);
    while n > 0
        invariant
            n <= address@.len(),
            host_of(address@.take(n as int)) == host_of(address@),
        decreases n,
    {
        let ghost front = address@.take(n as int);
        assert(front.drop_last() =~= address@.take(n - 1));
        if address.get_char(n - 1) == ':' {
            let host: &str = address.substring_char(0, n - 1);
            assert(host@ =~= front.drop_last());
            return Ok(host.to_owned());
        }
        n = n - 1;
    }
    Err(TlsError::with(ErrorKind::Address, "Invalid TLS address".to_owned()))
}

/// The host of an address is what stands before its last colon, whatever stands there, and
/// an address has none exactly where it has no colon.
pub proof fn host_ends_at_the_last_colon(host: Seq<char>, port: Seq<char>)
    requires
        !port.contains(':'),
    ensures
        host_of(host.push(':') + port) == Some(host),
        host_of(port) is None,
    decreases port.len(),
{
    let address = host.push(':') + port;
    if port.len() == 0 {
        assert(address =~= host.push(':'));
        assert(address.drop_last() =~= host);
    } else {
        let front = port.drop_last();
        assert forall|i: int| 0 <= i < front.len() implies front[i] != ':' by {
            assert(port[i] == front[i]);
            assert(port.contains(port[i]));
        }
        assert(!front.contains(':'));
        assert(port[port.len() - 1] == port.last());
        assert(port.contains(port.last()));
        assert(address.last() == port.last());
        assert(address.drop_last() =~= host.push(':') + front);
        host_ends_at_the_last_colon(host, front);
    }
}

/// The locator of one end of a link is its address, under the protocol `tls` and without
/// metadata. That of an endpoint has the three parts of the endpoint.
pub proof fn locators_have_their_parts(addr: Seq<char>, endpoint: EndPoint, locator: Locator)
    ensures
        link_locator(addr).protocol == seq!['t', 'l', 's'],
        link_locator(addr).address == addr,
        link_locator(addr).metadata.len() == 0,
        endpoint.locator().protocol == endpoint.protocol@,
        endpoint.locator().address == endpoint.address@,
        endpoint.locator().metadata == endpoint.metadata@,
        locator@.protocol == locator.protocol@,
        locator@.address == locator.address@,
        locator@.metadata == locator.metadata@,
{
    reveal_strlit("tls");
    reveal_strlit("");
    assert("tls"@ =~= seq!['t', 'l', 's']);
}

} // verus!
