//! The steps of setting a listener up.

use vstd::prelude::*;

use crate::endpoint::{Locator, LocatorView};
use crate::error::{error_about, error_with, ErrorKind, ErrorView, TlsError};
use crate::text::{decimal, join_texts, port_text};
use crate::views::result_view;

verus! {

/// The steps of setting a listener up, in their order.
#[derive(Clone, Copy, Debug, PartialEq, Eq, Structural)]
pub enum ListenerStep {
    /// The endpoint's address is resolved. It yields the address.
    Resolve,
    /// The host is taken from the endpoint's address. It yields the host.
    Host,
    /// The server configuration is put together.
    Configure,
    /// The socket is bound.
    Bind,
    /// The address of the socket is asked for. It yields the address and its port.
    LocalAddr,
}

/// A listener that is being set up.
#[derive(Debug)]
pub struct ListenerSetup {
    pub protocol: String,
    pub metadata: String,
    /// The step that is due.
    pub step: ListenerStep,
    /// The resolved address.
    pub addr: String,
    pub host: String,
}

/// The contents of a [`ListenerSetup`].
pub struct ListenerSetupView {
    pub protocol: Seq<char>,
    pub metadata: Seq<char>,
    pub step: ListenerStep,
    pub addr: Seq<char>,
    pub host: Seq<char>,
}

impl View for ListenerSetup {
    type V = ListenerSetupView;

    open spec fn view(&self) -> ListenerSetupView {
        ListenerSetupView {
            protocol: self.protocol@,
            metadata: self.metadata@,
            step: self.step,
            addr: self.addr@,
            host: self.host@,
        }
    }
}

/// A listener, before its first step.
pub open spec fn listener_begun(protocol: Seq<char>, metadata: Seq<char>) -> ListenerSetupView {
    ListenerSetupView {
        protocol,
        metadata,
        step: ListenerStep::Resolve,
        addr: Seq::empty(),
        host: Seq::empty(),
    }
}

/// The error of a listener whose due step fails.
pub open spec fn listener_failure(setup: ListenerSetupView, cause: Seq<char>) -> ErrorView {
    match setup.step {
        ListenerStep::Resolve => error_with(ErrorKind::Address, cause),
        ListenerStep::Host => error_with(ErrorKind::Address, cause),
        ListenerStep::Configure => error_about(ErrorKind::ListenerConfig, setup.addr, cause),
        _ => error_about(ErrorKind::Listener, setup.addr, cause),
    }
}

/// A listener whose due step went well, with what the step yielded.
pub open spec fn listener_advanced(
    setup: ListenerSetupView,
    yielded: Seq<char>,
) -> ListenerSetupView {
    match setup.step {
        ListenerStep::Resolve => ListenerSetupView {
            step: ListenerStep::Host,
            addr: yielded,
            ..setup
        },
        ListenerStep::Host => ListenerSetupView {
            step: ListenerStep::Configure,
            host: yielded,
            ..setup
        },
        ListenerStep::Configure => ListenerSetupView { step: ListenerStep::Bind, ..setup },
        ListenerStep::Bind => ListenerSetupView { step: ListenerStep::LocalAddr, ..setup },
        ListenerStep::LocalAddr => setup,
    }
}

/// A listener after the outcome of its due step.
pub open spec fn listener_next(
    setup: ListenerSetupView,
    outcome: Result<Seq<char>, Seq<char>>,
) -> Result<ListenerSetupView, ErrorView> {
    match outcome {
        Ok(yielded) => Ok(listener_advanced(setup, yielded)),
        Err(cause) => Err(listener_failure(setup, cause)),
    }
}

/// A listener whose socket is bound.
#[derive(Debug)]
pub struct BoundListener {
    /// The address of its socket.
    pub addr: String,
    /// Where it is to be reached.
    pub locator: Locator,
}

/// The contents of a [`BoundListener`].
pub struct BoundView {
    pub addr: Seq<char>,
    pub locator: LocatorView,
}

impl View for BoundListener {
    type V = BoundView;

    open spec fn view(&self) -> BoundView {
        BoundView { addr: self.addr@, locator: self.locator@ }
    }
}

/// Where a listener can be reached: under the protocol, the host and the metadata of its
/// endpoint, at the port that its socket has.
pub open spec fn listener_locator(setup: ListenerSetupView, port: u16) -> LocatorView {
    LocatorView {
        protocol: setup.protocol,
        address: setup.host + ":"@ + decimal(port as nat),
        metadata: setup.metadata,
    }
}

/// A listener after its socket was asked for its address and port.
pub open spec fn listener_bound(
    setup: ListenerSetupView,
    local: Result<(Seq<char>, u16), Seq<char>>,
) -> Result<BoundView, ErrorView> {
    match local {
        Ok((addr, port)) => Ok(BoundView { addr, locator: listener_locator(setup, port) }),
        Err(cause) => Err(listener_failure(setup, cause)),
    }
}

/// The contents of the address and the port of a socket, or of the error in their place.
pub open spec fn local_view(local: Result<(String, u16), String>) -> Result<
    (Seq<char>, u16),
    Seq<char>,
> {
    match local {
        Ok((addr, port)) => Ok((addr@, port)),
        Err(cause) => Err(cause@),
    }
}

impl ListenerSetup {
    /// Goes on with the outcome of the step that is due: what it yielded, or why it failed.
    pub fn next(self, outcome: Result<String, String>) -> (r: Result<ListenerSetup, TlsError>)
        requires
            self@.step != ListenerStep::LocalAddr,
        ensures
            (match r {
                Ok(setup) => Ok(setup@),
                Err(e) => Err(e@),
            }) == listener_next(self@, result_view(outcome)),
    {
        let mut setup: ListenerSetup = self;
        match outcome {
            Ok(yielded) => {
                match setup.step {
                    ListenerStep::Resolve => {
                        setup.addr = yielded;
                        setup.step = ListenerStep::Host;
                    },
                    ListenerStep::Host => {
                        setup.host = yielded;
                        setup.step = ListenerStep::Configure;
                    },
                    ListenerStep::Configure => {
                        setup.step = ListenerStep::Bind;
                    },
                    _ => {
                        setup.step = ListenerStep::LocalAddr;
                    },
                }
                Ok(setup)
            },
            Err(cause) => {
                match setup.step {
                    ListenerStep::Resolve => Err(TlsError::with(ErrorKind::Address, cause)),
                    ListenerStep::Host => Err(TlsError::with(ErrorKind::Address, cause)),
                    ListenerStep::Configure => Err(
                        TlsError::about(ErrorKind::ListenerConfig, setup.addr, cause),
                    ),
                    _ => Err(TlsError::about(ErrorKind::Listener, setup.addr, cause)),
                }
            },
        }
    }

    /// The listener with its socket bound, given the address and the port of the socket or
    /// why they could not be had.
    pub fn into_bound(self, local: Result<(String, u16), String>) -> (r: Result<
        BoundListener,
        TlsError,
    >)
        requires
            self@.step == ListenerStep::LocalAddr,
        ensures
            (match r {
                Ok(bound) => Ok(bound@),
                Err(e) => Err(e@),
            }) == listener_bound(self@, local_view(local)),
    {
        match local {
            Ok((addr, port)) => {
                let address: String = join_texts(
                    self.host.as_str(),
                    ":",
                    port_text(port).as_str(),
                    "",
                    "",
                );
                proof {
                    reveal_strlit("");
                    assert(address@ =~= self.host@ + ":"@ + decimal(port as nat));
                }
                let locator: Locator = Locator::new(
                    self.protocol.as_str(),
                    address,
                    self.metadata.as_str(),
                );
                Ok(BoundListener { addr, locator })
            },
            Err(cause) => Err(TlsError::about(ErrorKind::Listener, self.addr, cause)),
        }
    }
}

/// A listener after the outcomes of its steps, up to the first that failed.
pub open spec fn listener_run(
    setup: ListenerSetupView,
    outcomes: Seq<Result<Seq<char>, Seq<char>>>,
) -> Result<ListenerSetupView, ErrorView>
    decreases outcomes.len(),
{
    if outcomes.len() == 0 {
        Ok(setup)
    } else {
        match listener_run(setup, outcomes.drop_last()) {
            Ok(before) => listener_next(before, outcomes.last()),
            Err(e) => Err(e),
        }
    }
}

/// The step of a listener at a place in their order.
pub open spec fn listener_step(place: int) -> ListenerStep {
    if place <= 0 {
        ListenerStep::Resolve
    } else if place == 1 {
        ListenerStep::Host
    } else if place == 2 {
        ListenerStep::Configure
    } else if place == 3 {
        ListenerStep::Bind
    } else {
        ListenerStep::LocalAddr
    }
}

/// A listener whose steps went well so far is at the step that is due, and has kept the
/// protocol, the metadata, and the address and the host that they yielded.
pub proof fn listener_steps_in_order(
    protocol: Seq<char>,
    metadata: Seq<char>,
    outcomes: Seq<Result<Seq<char>, Seq<char>>>,
)
    requires
        outcomes.len() <= 4,
        forall|i: int| 0 <= i < outcomes.len() ==> #[trigger] outcomes[i] is Ok,
    ensures
        listener_run(listener_begun(protocol, metadata), outcomes) matches Ok(setup) && {
            &&& setup.protocol == protocol
            &&& setup.metadata == metadata
            &&& setup.step == listener_step(outcomes.len() as int)
            &&& outcomes.len() > 0 ==> setup.addr == outcomes[0]->Ok_0
            &&& outcomes.len() > 1 ==> setup.host == outcomes[1]->Ok_0
        },
    decreases outcomes.len(),
{
    if outcomes.len() > 0 {
        let front = outcomes.drop_last();
        assert forall|i: int| 0 <= i < front.len() implies #[trigger] front[i] is Ok by {
            assert(front[i] == outcomes[i]);
        }
        listener_steps_in_order(protocol, metadata, front);
        assert(outcomes.last() is Ok);
        if outcomes.len() > 1 {
            assert(front[0] == outcomes[0]);
        }
        if outcomes.len() > 2 {
            assert(front[1] == outcomes[1]);
        }
    }
}

/// The first step of a listener that fails decides its error: a failure of the address as
/// it is, and any later one with the resolved address.
pub proof fn listener_first_failure_decides(
    protocol: Seq<char>,
    metadata: Seq<char>,
    outcomes: Seq<Result<Seq<char>, Seq<char>>>,
    place: int,
)
    requires
        0 <= place < outcomes.len(),
        place < 4,
        outcomes[place] is Err,
        forall|i: int| 0 <= i < place ==> #[trigger] outcomes[i] is Ok,
    ensures
        listener_run(listener_begun(protocol, metadata), outcomes) == Err::<
            ListenerSetupView,
            ErrorView,
        >(
            if place < 2 {
                error_with(ErrorKind::Address, outcomes[place]->Err_0)
            } else if place == 2 {
                error_about(
                    ErrorKind::ListenerConfig,
                    outcomes[0]->Ok_0,
                    outcomes[place]->Err_0,
                )
            } else {
                error_about(ErrorKind::Listener, outcomes[0]->Ok_0, outcomes[place]->Err_0)
            },
        ),
    decreases outcomes.len(),
{
    let front = outcomes.drop_last();
    assert forall|i: int| 0 <= i < place implies #[trigger] front[i] is Ok by {
        assert(front[i] == outcomes[i]);
    }
    if place == outcomes.len() - 1 {
        listener_steps_in_order(protocol, metadata, front);
        if place > 0 {
            assert(front[0] == outcomes[0]);
        }
    } else {
        assert(front[place] == outcomes[place]);
        listener_first_failure_decides(protocol, metadata, front, place);
        if place > 0 {
            assert(front[0] == outcomes[0]);
        }
    }
}

/// A listener that is set up is reachable under the protocol and the metadata that it was
/// asked for with, at the host of its endpoint and the port of its socket, whatever port it
/// was asked for with.
pub proof fn listener_locator_names_the_bound_port(
    protocol: Seq<char>,
    metadata: Seq<char>,
    outcomes: Seq<Result<Seq<char>, Seq<char>>>,
    port: u16,
)
    requires
        outcomes.len() == 4,
        forall|i: int| 0 <= i < outcomes.len() ==> #[trigger] outcomes[i] is Ok,
    ensures
        listener_run(listener_begun(protocol, metadata), outcomes) matches Ok(setup)
            && listener_locator(setup, port) == (LocatorView {
            protocol,
            address: outcomes[1]->Ok_0 + ":"@ + decimal(port as nat),
            metadata,
        }),
{
    listener_steps_in_order(protocol, metadata, outcomes);
}

/// Each step of a listener leads to the next one. It keeps what it yields in the place for
/// it, and leaves everything else as it is. A step that fails gives its error.
pub proof fn each_listener_step_leads_to_the_next(
    setup: ListenerSetupView,
    yielded: Seq<char>,
    cause: Seq<char>,
)
    ensures
        setup.step == ListenerStep::Resolve ==> {
            &&& listener_next(setup, Ok(yielded)) == Ok::<ListenerSetupView, ErrorView>(
                ListenerSetupView { step: ListenerStep::Host, addr: yielded, ..setup },
            )
            &&& listener_next(setup, Err(cause)) == Err::<ListenerSetupView, ErrorView>(
                ErrorView { kind: ErrorKind::Address, subject: Seq::empty(), detail: cause },
            )
        },
        setup.step == ListenerStep::Host ==> {
            &&& listener_next(setup, Ok(yielded)) == Ok::<ListenerSetupView, ErrorView>(
                ListenerSetupView { step: ListenerStep::Configure, host: yielded, ..setup },
            )
            &&& listener_next(setup, Err(cause)) == Err::<ListenerSetupView, ErrorView>(
                ErrorView { kind: ErrorKind::Address, subject: Seq::empty(), detail: cause },
            )
        },
        setup.step == ListenerStep::Configure ==> {
            &&& listener_next(setup, Ok(yielded)) == Ok::<ListenerSetupView, ErrorView>(
                ListenerSetupView { step: ListenerStep::Bind, ..setup },
            )
            &&& listener_next(setup, Err(cause)) == Err::<ListenerSetupView, ErrorView>(
                ErrorView { kind: ErrorKind::ListenerConfig, subject: setup.addr, detail: cause },
            )
        },
        setup.step == ListenerStep::Bind ==> {
            &&& listener_next(setup, Ok(yielded)) == Ok::<ListenerSetupView, ErrorView>(
                ListenerSetupView { step: ListenerStep::LocalAddr, ..setup },
            )
            &&& listener_next(setup, Err(cause)) == Err::<ListenerSetupView, ErrorView>(
                ErrorView { kind: ErrorKind::Listener, subject: setup.addr, detail: cause },
            )
        },
{
}

/// A listener begins with the resolving of its address, and with nothing but the protocol
/// and the metadata of its endpoint.
pub proof fn listener_begins_with_its_endpoint(protocol: Seq<char>, metadata: Seq<char>)
    ensures
        listener_begun(protocol, metadata).protocol == protocol,
        listener_begun(protocol, metadata).metadata == metadata,
        listener_begun(protocol, metadata).step == ListenerStep::Resolve,
        listener_begun(protocol, metadata).addr.len() == 0,
        listener_begun(protocol, metadata).host.len() == 0,
{
}

/// A listener is bound to the address of its socket, and reached under its protocol and
/// metadata at its host, a colon and the port of the socket. Where the socket does not tell,
/// the error names the resolved address.
pub proof fn bound_listener_is_at_its_socket(
    setup: ListenerSetupView,
    addr: Seq<char>,
    port: u16,
    cause: Seq<char>,
)
    ensures
        listener_bound(setup, Ok((addr, port))) == Ok::<BoundView, ErrorView>(
            BoundView {
                addr,
                locator: LocatorView {
                    protocol: setup.protocol,
                    address: setup.host.push(':') + decimal(port as nat),
                    metadata: setup.metadata,
                },
            },
        ),
        setup.step == ListenerStep::LocalAddr ==> listener_bound(setup, Err(cause)) == Err::<
            BoundView,
            ErrorView,
        >(ErrorView { kind: ErrorKind::Listener, subject: setup.addr, detail: cause }),
{
    reveal_strlit(":");
    assert(setup.host + ":"@ =~= setup.host.push(':'));
}

/// A listener that is being set up shows what it has kept, and one that is bound its address
/// and locator.
pub proof fn listener_setup_shows_itself(
    setup: ListenerSetup,
    bound: BoundListener,
    addr: String,
    port: u16,
    cause: String,
)
    ensures
        setup@.protocol == setup.protocol@,
        setup@.metadata == setup.metadata@,
        setup@.step == setup.step,
        setup@.addr == setup.addr@,
        setup@.host == setup.host@,
        bound@.addr == bound.addr@,
        bound@.locator == bound.locator@,
        local_view(Ok((addr, port))) == Ok::<(Seq<char>, u16), Seq<char>>((addr@, port)),
        local_view(Err(cause)) == Err::<(Seq<char>, u16), Seq<char>>(cause@),
{
}

} // verus!
