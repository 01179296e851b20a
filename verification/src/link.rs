//! A link: a TLS connection between two addresses.

use vstd::prelude::*;

use crate::endpoint::{link_locator, Locator, LocatorView, TLS_LOCATOR_PREFIX};
use crate::error::{error_with, ErrorKind, TlsError};
use crate::text::join_texts;

verus! {

/// What the socket of a link is set up with. A socket that refuses an option is used all
/// the same.
#[derive(Clone, Copy, Debug, PartialEq, Eq, Structural)]
pub struct SocketOptions {
    /// Whether data is sent without being held back.
    pub nodelay: bool,
    /// How long closing waits for data to be delivered, in seconds.
    pub linger_secs: u64,
}

/// The options of a link's socket, for a linger time in seconds.
pub fn socket_options(linger_timeout: i32) -> (r: SocketOptions)
    requires
        linger_timeout >= 0,
    ensures
        r.nodelay,
        r.linger_secs == linger_timeout,
{
    SocketOptions { nodelay: true, linger_secs: linger_timeout as u64 }
}

/// A link between a local and a remote address.
#[derive(Clone)]
pub struct LinkUnicastTls {
    /// The address on this host.
    pub src_addr: String,
    pub src_locator: Locator,
    /// The address of the peer.
    pub dst_addr: String,
    pub dst_locator: Locator,
    /// The largest message, in bytes.
    pub mtu: u16,
}

/// The contents of a [`LinkUnicastTls`].
pub struct LinkView {
    pub src_addr: Seq<char>,
    pub src_locator: LocatorView,
    pub dst_addr: Seq<char>,
    pub dst_locator: LocatorView,
    pub mtu: u16,
}

impl View for LinkUnicastTls {
    type V = LinkView;

    open spec fn view(&self) -> LinkView {
        LinkView {
            src_addr: self.src_addr@,
            src_locator: self.src_locator@,
            dst_addr: self.dst_addr@,
            dst_locator: self.dst_locator@,
            mtu: self.mtu,
        }
    }
}

/// The link between two addresses.
pub open spec fn link_between(src_addr: Seq<char>, dst_addr: Seq<char>, mtu: u16) -> LinkView {
    LinkView {
        src_addr,
        src_locator: link_locator(src_addr),
        dst_addr,
        dst_locator: link_locator(dst_addr),
        mtu,
    }
}

/// How a link is shown to a reader.
pub open spec fn link_text(link: LinkView) -> Seq<char> {
    link.src_addr + " => "@ + link.dst_addr
}

/// How a link is shown to a developer.
pub open spec fn link_debug_text(link: LinkView) -> Seq<char> {
    "Tls { src: "@ + link.src_addr + ", dst: "@ + link.dst_addr + " }"@
}

impl LinkUnicastTls {
    /// A link between two addresses.
    pub fn new(src_addr: String, dst_addr: String, mtu: u16) -> (r: LinkUnicastTls)
        ensures
            r@ == link_between(src_addr@, dst_addr@, mtu),
    {
        LinkUnicastTls {
            src_locator: Locator::new(TLS_LOCATOR_PREFIX, src_addr.clone(), ""),
            dst_locator: Locator::new(TLS_LOCATOR_PREFIX, dst_addr.clone(), ""),
            src_addr,
            dst_addr,
            mtu,
        }
    }

    /// The locator of this end.
    pub fn get_src(&self) -> (r: &Locator)
        ensures
            r@ == self@.src_locator,
    {
        &self.src_locator
    }

    /// The locator of the other end.
    pub fn get_dst(&self) -> (r: &Locator)
        ensures
            r@ == self@.dst_locator,
    {
        &self.dst_locator
    }

    /// The largest message, in bytes.
    pub fn get_mtu(&self) -> (r: u16)
        ensures
            r == self@.mtu,
    {
        self.mtu
    }

    /// Whether what is sent arrives.
    pub fn is_reliable(&self) -> (r: bool)
        ensures
            r,
    {
        true
    }

    /// Whether the link is a stream of bytes, without message boundaries of its own.
    pub fn is_streamed(&self) -> (r: bool)
        ensures
            r,
    {
        true
    }

    /// The link for a reader: the two addresses.
    pub fn to_text(&self) -> (r: String)
        ensures
            r@ == link_text(self@),
    {
        let text: String = join_texts(
            self.src_addr.as_str(),
            " => ",
            self.dst_addr.as_str(),
            "",
            "",
        );
        proof {
            reveal_strlit("");
            assert(text@ =~= link_text(self@));
        }
        text
    }

    /// The link for a developer: the two addresses, by their fields.
    pub fn to_debug_text(&self) -> (r: String)
        ensures
            r@ == link_debug_text(self@),
    {
        join_texts(
            "Tls { src: ",
            self.src_addr.as_str(),
            ", dst: ",
            self.dst_addr.as_str(),
            " }",
        )
    }
}

/// The outcome of an operation on the socket of a link.
pub fn io_outcome<T>(outcome: Result<T, String>) -> (r: Result<T, TlsError>)
    ensures
        match outcome {
            Ok(value) => r == Ok::<T, TlsError>(value),
            Err(e) => r matches Err(error) && error@ == error_with(ErrorKind::Io, e@),
        },
{
    match outcome {
        Ok(value) => Ok(value),
        Err(e) => Err(TlsError::with(ErrorKind::Io, e)),
    }
}

/// The outcome of closing a link, which flushes it and then shuts the socket down. That
/// the flush failed is no failure of closing.
pub fn close_outcome(flush: Result<(), String>, shutdown: Result<(), String>) -> (r: Result<
    (),
    TlsError,
>)
    ensures
        match shutdown {
            Ok(()) => r is Ok,
            Err(e) => r matches Err(error) && error@ == error_with(ErrorKind::Io, e@),
        },
{
    io_outcome(shutdown)
}

/// A link has the two addresses that it is between, each in its place, a `tls` locator for
/// each of them, and the message size that it was given.
pub proof fn link_is_between_its_addresses(src_addr: Seq<char>, dst_addr: Seq<char>, mtu: u16)
    ensures
        link_between(src_addr, dst_addr, mtu) == (LinkView {
            src_addr,
            src_locator: LocatorView { protocol: "tls"@, address: src_addr, metadata: ""@ },
            dst_addr,
            dst_locator: LocatorView { protocol: "tls"@, address: dst_addr, metadata: ""@ },
            mtu,
        }),
{
}

/// The text of a link is its local address, an arrow and its remote address; that for a
/// developer names the two.
pub proof fn link_texts_show_both_addresses(link: LinkView)
    ensures
        link_text(link) == link.src_addr + " => "@ + link.dst_addr,
        link_debug_text(link) == "Tls { src: "@ + link.src_addr + ", dst: "@ + link.dst_addr
            + " }"@,
{
}

/// A link shows its addresses, its locators and its message size.
pub proof fn link_shows_itself(link: LinkUnicastTls)
    ensures
        link@.src_addr == link.src_addr@,
        link@.src_locator == link.src_locator@,
        link@.dst_addr == link.dst_addr@,
        link@.dst_locator == link.dst_locator@,
        link@.mtu == link.mtu,
{
}

} // verus!
