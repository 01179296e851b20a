//! The steps of setting a link up.

use vstd::prelude::*;

use crate::error::{error_about, error_with, ErrorKind, ErrorView, TlsError};
use crate::link::{link_between, LinkUnicastTls};
use crate::views::result_view;

verus! {

/// The steps of setting a link up, in their order.
#[derive(Clone, Copy, Debug, PartialEq, Eq, Structural)]
pub enum LinkStep {
    /// The server name is taken from the endpoint's address. It yields the name.
    ServerName,
    /// The endpoint's address is resolved. It yields the address.
    Resolve,
    /// The client configuration is put together.
    Configure,
    /// The server at the resolved address is connected to.
    Connect,
    /// The local address of the connection is asked for. It yields the address.
    LocalAddr,
    /// The remote address of the connection is asked for. It yields the address.
    PeerAddr,
    /// The TLS handshake is performed.
    TlsConnect,
    /// The link is there.
    Ready,
}

/// A link that is being set up.
#[derive(Debug)]
pub struct LinkSetup {
    /// The endpoint as it was written.
    pub endpoint: String,
    /// The step that is due.
    pub step: LinkStep,
    pub server_name: String,
    /// The resolved address, which is connected to.
    pub addr: String,
    pub src_addr: String,
    pub dst_addr: String,
}

/// The contents of a [`LinkSetup`].
pub struct LinkSetupView {
    pub endpoint: Seq<char>,
    pub step: LinkStep,
    pub server_name: Seq<char>,
    pub addr: Seq<char>,
    pub src_addr: Seq<char>,
    pub dst_addr: Seq<char>,
}

impl View for LinkSetup {
    type V = LinkSetupView;

    open spec fn view(&self) -> LinkSetupView {
        LinkSetupView {
            endpoint: self.endpoint@,
            step: self.step,
            server_name: self.server_name@,
            addr: self.addr@,
            src_addr: self.src_addr@,
            dst_addr: self.dst_addr@,
        }
    }
}

/// A link to an endpoint, before its first step.
pub open spec fn link_begun(endpoint: Seq<char>) -> LinkSetupView {
    LinkSetupView {
        endpoint,
        step: LinkStep::ServerName,
        server_name: Seq::empty(),
        addr: Seq::empty(),
        src_addr: Seq::empty(),
        dst_addr: Seq::empty(),
    }
}

/// The error of a link whose due step fails.
pub open spec fn link_failure(setup: LinkSetupView, cause: Seq<char>) -> ErrorView {
    match setup.step {
        LinkStep::ServerName => error_with(ErrorKind::Address, cause),
        LinkStep::Resolve => error_with(ErrorKind::Address, cause),
        LinkStep::Configure => error_about(ErrorKind::LinkConfig, setup.endpoint, cause),
        _ => error_about(ErrorKind::Link, setup.server_name, cause),
    }
}

/// A link whose due step went well, with what the step yielded.
pub open spec fn link_advanced(setup: LinkSetupView, yielded: Seq<char>) -> LinkSetupView {
    match setup.step {
        LinkStep::ServerName => LinkSetupView {
            step: LinkStep::Resolve,
            server_name: yielded,
            ..setup
        },
        LinkStep::Resolve => LinkSetupView {
            step: LinkStep::Configure,
            addr: yielded,
            ..setup
        },
        LinkStep::Configure => LinkSetupView { step: LinkStep::Connect, ..setup },
        LinkStep::Connect => LinkSetupView { step: LinkStep::LocalAddr, ..setup },
        LinkStep::LocalAddr => LinkSetupView {
            step: LinkStep::PeerAddr,
            src_addr: yielded,
            ..setup
        },
        LinkStep::PeerAddr => LinkSetupView {
            step: LinkStep::TlsConnect,
            dst_addr: yielded,
            ..setup
        },
        LinkStep::TlsConnect => LinkSetupView { step: LinkStep::Ready, ..setup },
        LinkStep::Ready => setup,
    }
}

/// A link after the outcome of its due step.
pub open spec fn link_next(setup: LinkSetupView, outcome: Result<Seq<char>, Seq<char>>) -> Result<
    LinkSetupView,
    ErrorView,
> {
    match outcome {
        Ok(yielded) => Ok(link_advanced(setup, yielded)),
        Err(cause) => Err(link_failure(setup, cause)),
    }
}

impl LinkSetup {
    /// Goes on with the outcome of the step that is due: what it yielded, or why it failed.
    pub fn next(self, outcome: Result<String, String>) -> (r: Result<LinkSetup, TlsError>)
        requires
            self@.step != LinkStep::Ready,
        ensures
            (match r {
                Ok(setup) => Ok(setup@),
                Err(e) => Err(e@),
            }) == link_next(self@, result_view(outcome)),
    {
        let mut setup: LinkSetup = self;
        match outcome {
            Ok(yielded) => {
                match setup.step {
                    LinkStep::ServerName => {
                        setup.server_name = yielded;
                        setup.step = LinkStep::Resolve;
                    },
                    LinkStep::Resolve => {
                        setup.addr = yielded;
                        setup.step = LinkStep::Configure;
                    },
                    LinkStep::Configure => {
                        setup.step = LinkStep::Connect;
                    },
                    LinkStep::Connect => {
                        setup.step = LinkStep::LocalAddr;
                    },
                    LinkStep::LocalAddr => {
                        setup.src_addr = yielded;
                        setup.step = LinkStep::PeerAddr;
                    },
                    LinkStep::PeerAddr => {
                        setup.dst_addr = yielded;
                        setup.step = LinkStep::TlsConnect;
                    },
                    _ => {
                        setup.step = LinkStep::Ready;
                    },
                }
                Ok(setup)
            },
            Err(cause) => {
                match setup.step {
                    LinkStep::ServerName => Err(TlsError::with(ErrorKind::Address, cause)),
                    LinkStep::Resolve => Err(TlsError::with(ErrorKind::Address, cause)),
                    LinkStep::Configure => Err(
                        TlsError::about(ErrorKind::LinkConfig, setup.endpoint, cause),
                    ),
                    _ => Err(TlsError::about(ErrorKind::Link, setup.server_name, cause)),
                }
            },
        }
    }

    /// The link, once every step has gone well.
    pub fn into_link(self, mtu: u16) -> (r: LinkUnicastTls)
        requires
            self@.step == LinkStep::Ready,
        ensures
            r@ == link_between(self@.src_addr, self@.dst_addr, mtu),
    {
        LinkUnicastTls::new(self.src_addr, self.dst_addr, mtu)
    }
}

/// A link after the outcomes of its steps, up to the first that failed.
pub open spec fn link_run(
    setup: LinkSetupView,
    outcomes: Seq<Result<Seq<char>, Seq<char>>>,
) -> Result<LinkSetupView, ErrorView>
    decreases outcomes.len(),
{
    if outcomes.len() == 0 {
        Ok(setup)
    } else {
        match link_run(setup, outcomes.drop_last()) {
            Ok(before) => link_next(before, outcomes.last()),
            Err(e) => Err(e),
        }
    }
}

/// The step of a link at a place in their order.
pub open spec fn link_step(place: int) -> LinkStep {
    if place <= 0 {
        LinkStep::ServerName
    } else if place == 1 {
        LinkStep::Resolve
    } else if place == 2 {
        LinkStep::Configure
    } else if place == 3 {
        LinkStep::Connect
    } else if place == 4 {
        LinkStep::LocalAddr
    } else if place == 5 {
        LinkStep::PeerAddr
    } else if place == 6 {
        LinkStep::TlsConnect
    } else {
        LinkStep::Ready
    }
}

/// A link whose steps went well so far is at the step that is due, and has kept the server
/// name, the resolved address that is connected to, and the addresses of the two ends, as
/// the steps yielded them.
pub proof fn link_steps_in_order(endpoint: Seq<char>, outcomes: Seq<Result<Seq<char>, Seq<char>>>)
    requires
        outcomes.len() <= 7,
        forall|i: int| 0 <= i < outcomes.len() ==> #[trigger] outcomes[i] is Ok,
    ensures
        link_run(link_begun(endpoint), outcomes) matches Ok(setup) && {
            &&& setup.endpoint == endpoint
            &&& setup.step == link_step(outcomes.len() as int)
            &&& outcomes.len() > 0 ==> setup.server_name == outcomes[0]->Ok_0
            &&& outcomes.len() > 1 ==> setup.addr == outcomes[1]->Ok_0
            &&& outcomes.len() > 4 ==> setup.src_addr == outcomes[4]->Ok_0
            &&& outcomes.len() > 5 ==> setup.dst_addr == outcomes[5]->Ok_0
        },
    decreases outcomes.len(),
{
    if outcomes.len() > 0 {
        let front = outcomes.drop_last();
        assert forall|i: int| 0 <= i < front.len() implies #[trigger] front[i] is Ok by {
            assert(front[i] == outcomes[i]);
        }
        link_steps_in_order(endpoint, front);
        assert(outcomes.last() is Ok);
        if outcomes.len() > 1 {
            assert(front[0] == outcomes[0]);
        }
        if outcomes.len() > 2 {
            assert(front[1] == outcomes[1]);
        }
        if outcomes.len() > 5 {
            assert(front[4] == outcomes[4]);
        }
        if outcomes.len() > 6 {
            assert(front[5] == outcomes[5]);
        }
    }
}

/// The first step of a link that fails decides its error: a failure of the address as it
/// is, one of the configuration with the endpoint, and any later one with the server name.
pub proof fn link_first_failure_decides(
    endpoint: Seq<char>,
    outcomes: Seq<Result<Seq<char>, Seq<char>>>,
    place: int,
)
    requires
        0 <= place < outcomes.len(),
        place < 7,
        outcomes[place] is Err,
        forall|i: int| 0 <= i < place ==> #[trigger] outcomes[i] is Ok,
    ensures
        link_run(link_begun(endpoint), outcomes) == Err::<LinkSetupView, ErrorView>(
            if place < 2 {
                error_with(ErrorKind::Address, outcomes[place]->Err_0)
            } else if place == 2 {
                error_about(ErrorKind::LinkConfig, endpoint, outcomes[place]->Err_0)
            } else {
                error_about(ErrorKind::Link, outcomes[0]->Ok_0, outcomes[place]->Err_0)
            },
        ),
    decreases outcomes.len(),
{
    let front = outcomes.drop_last();
    assert forall|i: int| 0 <= i < place implies #[trigger] front[i] is Ok by {
        assert(front[i] == outcomes[i]);
    }
    if place == outcomes.len() - 1 {
        link_steps_in_order(endpoint, front);
        if place > 0 {
            assert(front[0] == outcomes[0]);
        }
    } else {
        assert(front[place] == outcomes[place]);
        link_first_failure_decides(endpoint, front, place);
        if place > 0 {
            assert(front[0] == outcomes[0]);
        }
    }
}

/// Each step of a link leads to the next one. It keeps what it yields in the place for it,
/// and leaves everything else as it is. A step that fails gives its error.
pub proof fn each_link_step_leads_to_the_next(
    setup: LinkSetupView,
    yielded: Seq<char>,
    cause: Seq<char>,
)
    ensures
        setup.step == LinkStep::ServerName ==> {
            &&& link_next(setup, Ok(yielded)) == Ok::<LinkSetupView, ErrorView>(
                LinkSetupView { step: LinkStep::Resolve, server_name: yielded, ..setup },
            )
            &&& link_next(setup, Err(cause)) == Err::<LinkSetupView, ErrorView>(
                ErrorView { kind: ErrorKind::Address, subject: Seq::empty(), detail: cause },
            )
        },
        setup.step == LinkStep::Resolve ==> {
            &&& link_next(setup, Ok(yielded)) == Ok::<LinkSetupView, ErrorView>(
                LinkSetupView { step: LinkStep::Configure, addr: yielded, ..setup },
            )
            &&& link_next(setup, Err(cause)) == Err::<LinkSetupView, ErrorView>(
                ErrorView { kind: ErrorKind::Address, subject: Seq::empty(), detail: cause },
            )
        },
        setup.step == LinkStep::Configure ==> {
            &&& link_next(setup, Ok(yielded)) == Ok::<LinkSetupView, ErrorView>(
                LinkSetupView { step: LinkStep::Connect, ..setup },
            )
            &&& link_next(setup, Err(cause)) == Err::<LinkSetupView, ErrorView>(
                ErrorView { kind: ErrorKind::LinkConfig, subject: setup.endpoint, detail: cause },
            )
        },
        setup.step == LinkStep::Connect ==> {
            &&& link_next(setup, Ok(yielded)) == Ok::<LinkSetupView, ErrorView>(
                LinkSetupView { step: LinkStep::LocalAddr, ..setup },
            )
            &&& link_next(setup, Err(cause)) == Err::<LinkSetupView, ErrorView>(
                ErrorView { kind: ErrorKind::Link, subject: setup.server_name, detail: cause },
            )
        },
        setup.step == LinkStep::LocalAddr ==> {
            &&& link_next(setup, Ok(yielded)) == Ok::<LinkSetupView, ErrorView>(
                LinkSetupView { step: LinkStep::PeerAddr, src_addr: yielded, ..setup },
            )
            &&& link_next(setup, Err(cause)) == Err::<LinkSetupView, ErrorView>(
                ErrorView { kind: ErrorKind::Link, subject: setup.server_name, detail: cause },
            )
        },
        setup.step == LinkStep::PeerAddr ==> {
            &&& link_next(setup, Ok(yielded)) == Ok::<LinkSetupView, ErrorView>(
                LinkSetupView { step: LinkStep::TlsConnect, dst_addr: yielded, ..setup },
            )
            &&& link_next(setup, Err(cause)) == Err::<LinkSetupView, ErrorView>(
                ErrorView { kind: ErrorKind::Link, subject: setup.server_name, detail: cause },
            )
        },
        setup.step == LinkStep::TlsConnect ==> {
            &&& link_next(setup, Ok(yielded)) == Ok::<LinkSetupView, ErrorView>(
                LinkSetupView { step: LinkStep::Ready, ..setup },
            )
            &&& link_next(setup, Err(cause)) == Err::<LinkSetupView, ErrorView>(
                ErrorView { kind: ErrorKind::Link, subject: setup.server_name, detail: cause },
            )
        },
{
}

/// A link begins with its server name, and with nothing but its endpoint.
pub proof fn link_begins_with_its_endpoint(endpoint: Seq<char>)
    ensures
        link_begun(endpoint).endpoint == endpoint,
        link_begun(endpoint).step == LinkStep::ServerName,
        link_begun(endpoint).server_name.len() == 0,
        link_begun(endpoint).addr.len() == 0,
        link_begun(endpoint).src_addr.len() == 0,
        link_begun(endpoint).dst_addr.len() == 0,
{
}

/// A link that is being set up shows what it has kept.
pub proof fn link_setup_shows_itself(setup: LinkSetup)
    ensures
        setup@.endpoint == setup.endpoint@,
        setup@.step == setup.step,
        setup@.server_name == setup.server_name@,
        setup@.addr == setup.addr@,
        setup@.src_addr == setup.src_addr@,
        setup@.dst_addr == setup.dst_addr@,
{
}

} // verus!
