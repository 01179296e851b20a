//! The listeners that are on, and where links and listeners begin.

use vstd::prelude::*;

use crate::endpoint::{EndPoint, Locator, LocatorView};
use crate::error::{error_about, error_with, ErrorKind, ErrorView, TlsError};
use crate::link_setup::{link_begun, LinkSetup, LinkStep};
use crate::listener_setup::{
    listener_begun, listener_bound, listener_first_failure_decides, listener_run,
    listener_steps_in_order, BoundListener, BoundView, ListenerSetup, ListenerStep,
};
use crate::text::{decimal, text_eq};
use crate::views::{result_view, views};

verus! {

/// A listener that is on.
#[derive(Debug)]
pub struct Listener {
    /// The address of its socket.
    pub addr: String,
    /// What it was asked for with.
    pub endpoint: EndPoint,
}

impl View for Listener {
    type V = (Seq<char>, EndPoint);

    open spec fn view(&self) -> (Seq<char>, EndPoint) {
        (self.addr@, self.endpoint)
    }
}

/// The listeners that are on, one for each address.
#[derive(Debug)]
pub struct LinkManagerUnicastTls {
    pub listeners: Vec<Listener>,
}

impl View for LinkManagerUnicastTls {
    type V = Seq<(Seq<char>, EndPoint)>;

    /// The address and the endpoint of each listener.
    open spec fn view(&self) -> Seq<(Seq<char>, EndPoint)> {
        views(self.listeners@)
    }
}

/// No two listeners of a list are on one address.
pub open spec fn distinct(list: Seq<(Seq<char>, EndPoint)>) -> bool {
    forall|i: int, j: int|
        0 <= i < j < list.len() ==> (#[trigger] list[i]).0 != (#[trigger] list[j]).0
}

/// The place of the listener on an address, and nothing where there is none.
pub open spec fn place_of(list: Seq<(Seq<char>, EndPoint)>, addr: Seq<char>) -> Option<int> {
    if exists|i: int| 0 <= i < list.len() && (#[trigger] list[i]).0 == addr {
        Some(choose|i: int| 0 <= i < list.len() && (#[trigger] list[i]).0 == addr)
    } else {
        None
    }
}

/// The endpoint of the listener on an address, and nothing where there is none.
pub open spec fn endpoint_on(list: Seq<(Seq<char>, EndPoint)>, addr: Seq<char>) -> Option<
    EndPoint,
> {
    match place_of(list, addr) {
        Some(i) => Some(list[i].1),
        None => None,
    }
}

/// A list with a listener noted: in the place of the one on the same address, else behind
/// the others.
pub open spec fn noted(
    list: Seq<(Seq<char>, EndPoint)>,
    addr: Seq<char>,
    endpoint: EndPoint,
) -> Seq<(Seq<char>, EndPoint)> {
    match place_of(list, addr) {
        Some(i) => list.update(i, (addr, endpoint)),
        None => list.push((addr, endpoint)),
    }
}

/// A list without the listener on an address.
pub open spec fn forgotten(list: Seq<(Seq<char>, EndPoint)>, addr: Seq<char>) -> Seq<
    (Seq<char>, EndPoint),
> {
    match place_of(list, addr) {
        Some(i) => list.remove(i),
        None => list,
    }
}

/// What the setting up of a listener ends with, and the list after it: a listener whose
/// locator can be built, and which can be noted, is noted; else the list stays as it is.
pub open spec fn listener_finished(
    list: Seq<(Seq<char>, EndPoint)>,
    bound: BoundView,
    endpoint: EndPoint,
    built: Result<(), Seq<char>>,
    noting: Result<(), Seq<char>>,
) -> (Result<LocatorView, ErrorView>, Seq<(Seq<char>, EndPoint)>) {
    match (built, noting) {
        (Err(cause), _) => (Err(error_with(ErrorKind::Locator, cause)), list),
        (Ok(_), Err(cause)) => (Err(error_with(ErrorKind::Noting, cause)), list),
        (Ok(_), Ok(_)) => (Ok(bound.locator), noted(list, bound.addr, endpoint)),
    }
}

/// What listening on an endpoint comes to, and the list of listeners after it, given what
/// came of each step: of those up to the binding of the socket, of asking the socket for
/// its address and port, of building the locator, and of noting the listener.
pub open spec fn listening(
    list: Seq<(Seq<char>, EndPoint)>,
    endpoint: EndPoint,
    outcomes: Seq<Result<Seq<char>, Seq<char>>>,
    local: Result<(Seq<char>, u16), Seq<char>>,
    built: Result<(), Seq<char>>,
    noting: Result<(), Seq<char>>,
) -> (Result<LocatorView, ErrorView>, Seq<(Seq<char>, EndPoint)>) {
    match listener_run(listener_begun(endpoint.protocol@, endpoint.metadata@), outcomes) {
        Err(e) => (Err(e), list),
        Ok(setup) => match listener_bound(setup, local) {
            Err(e) => (Err(e), list),
            Ok(bound) => listener_finished(list, bound, endpoint, built, noting),
        },
    }
}

impl LinkManagerUnicastTls {
    /// No two listeners are on one address.
    pub open spec fn wf(&self) -> bool {
        distinct(self@)
    }

    /// A manager without a listener.
    pub fn new() -> (r: LinkManagerUnicastTls)
        ensures
            r.wf(),
            r@ == Seq::<(Seq<char>, EndPoint)>::empty(),
    {
        let r = LinkManagerUnicastTls { listeners: Vec::new() };
        assert(r@ =~= Seq::<(Seq<char>, EndPoint)>::empty());
        r
    }

    /// Begins to set a link to an endpoint up.
    pub fn new_link(&self, endpoint: &EndPoint) -> (r: LinkSetup)
        ensures
            r@ == link_begun(endpoint.text@),
    {
        LinkSetup {
            endpoint: endpoint.text.clone(),
            step: LinkStep::ServerName,
            server_name: String::new(),
            addr: String::new(),
            src_addr: String::new(),
            dst_addr: String::new(),
        }
    }

    /// Begins to set a listener on an endpoint up.
    pub fn new_listener(&self, endpoint: &EndPoint) -> (r: ListenerSetup)
        ensures
            r@ == listener_begun(endpoint.protocol@, endpoint.metadata@),
    {
        ListenerSetup {
            protocol: endpoint.protocol.clone(),
            metadata: endpoint.metadata.clone(),
            step: ListenerStep::Resolve,
            addr: String::new(),
            host: String::new(),
        }
    }

    /// The place of the listener on an address.
    fn find(&self, addr: &str) -> (r: Option<usize>)
        requires
            self.wf(),
        ensures
            match r {
                Some(i) => place_of(self@, addr@) == Some(i as int) && i < self.listeners@.len(),
                None => place_of(self@, addr@) is None,
            },
    {
        let mut i: usize = 0;
        while i < self.listeners.len()
            invariant
                self.wf(),
                i <= self.listeners@.len(),
                forall|j: int| 0 <= j < i ==> (#[trigger] self@[j]).0 != addr@,
            decreases self.listeners.len() - i,
        {
            assert(self@[i as int].0 == self.listeners@[i as int].addr@);
            if text_eq(self.listeners[i].addr.as_str(), addr) {
                proof {
                    lemma_place(self@, i as int);
                }
                return Some(i);
            }
            i = i + 1;
        }
        None
    }

    /// Notes a listener. One that was on the same address before is forgotten.
    pub fn add_listener(&mut self, addr: String, endpoint: EndPoint)
        requires
            old(self).wf(),
        ensures
            final(self).wf(),
            final(self)@ == noted(old(self)@, addr@, endpoint),
    {
        proof {
            lemma_noted(self@, addr@, endpoint);
        }
        match self.find(addr.as_str()) {
            Some(i) => {
                self.listeners.set(i, Listener { addr, endpoint });
            },
            None => {
                self.listeners.push(Listener { addr, endpoint });
            },
        }
        assert(self@ =~= noted(old(self)@, addr@, endpoint));
    }

    /// Ends the setting up of a listener: notes it and gives its locator, where the locator
    /// could be built and nothing speaks against the noting.
    pub fn finish_listener(
        &mut self,
        bound: BoundListener,
        endpoint: EndPoint,
        built: Result<(), String>,
        noting: Result<(), String>,
    ) -> (r: Result<Locator, TlsError>)
        requires
            old(self).wf(),
        ensures
            final(self).wf(),
            (
                match r {
                    Ok(locator) => Ok(locator@),
                    Err(e) => Err(e@),
                },
                final(self)@,
            ) == listener_finished(
                old(self)@,
                bound@,
                endpoint,
                result_view(built),
                result_view(noting),
            ),
    {
        if let Err(cause) = built {
            return Err(TlsError::with(ErrorKind::Locator, cause));
        }
        if let Err(cause) = noting {
            return Err(TlsError::with(ErrorKind::Noting, cause));
        }
        self.add_listener(bound.addr, endpoint);
        Ok(bound.locator)
    }

    /// Forgets the listener on an address, and gives its endpoint back.
    pub fn del_listener(&mut self, addr: &str) -> (r: Result<EndPoint, TlsError>)
        requires
            old(self).wf(),
        ensures
            final(self).wf(),
            final(self)@ == forgotten(old(self)@, addr@),
            match endpoint_on(old(self)@, addr@) {
                Some(endpoint) => r == Ok::<EndPoint, TlsError>(endpoint),
                None => r matches Err(e) && e@ == error_with(ErrorKind::UnknownListener, addr@),
            },
    {
        proof {
            lemma_forgotten(self@, addr@);
        }
        match self.find(addr) {
            Some(i) => {
                let listener: Listener = self.listeners.remove(i);
                assert(self@ =~= forgotten(old(self)@, addr@));
                Ok(listener.endpoint)
            },
            None => Err(TlsError::with(ErrorKind::UnknownListener, addr.to_owned())),
        }
    }

    /// The endpoints of the listeners that are on, in the order in which their addresses
    /// were first noted.
    pub fn get_listeners(&self) -> (r: Vec<&EndPoint>)
        ensures
            r@.len() == self@.len(),
            forall|i: int| 0 <= i < r@.len() ==> *(#[trigger] r@[i]) == self@[i].1,
    {
        let mut r: Vec<&EndPoint> = Vec::new();
        let mut i: usize = 0;
        while i < self.listeners.len()
            invariant
                i <= self.listeners@.len(),
                r@.len() == i,
                forall|j: int| 0 <= j < i ==> *(#[trigger] r@[j]) == self@[j].1,
            decreases self.listeners.len() - i,
        {
            r.push(&self.listeners[i].endpoint);
            i = i + 1;
        }
        r
    }

    /// The locators of the listeners that are on, in the order in which their addresses
    /// were first noted.
    pub fn get_locators(&self) -> (r: Vec<Locator>)
        ensures
            r@.len() == self@.len(),
            forall|i: int| 0 <= i < r@.len() ==> (#[trigger] r@[i])@ == self@[i].1.locator(),
    {
        let mut r: Vec<Locator> = Vec::new();
        let mut i: usize = 0;
        while i < self.listeners.len()
            invariant
                i <= self.listeners@.len(),
                r@.len() == i,
                forall|j: int| 0 <= j < i ==> (#[trigger] r@[j])@ == self@[j].1.locator(),
            decreases self.listeners.len() - i,
        {
            r.push(self.listeners[i].endpoint.to_locator());
            i = i + 1;
        }
        r
    }
}

/// In a list without two listeners on one address, a listener is found at its place.
proof fn lemma_place(list: Seq<(Seq<char>, EndPoint)>, i: int)
    requires
        distinct(list),
        0 <= i < list.len(),
    ensures
        place_of(list, list[i].0) == Some(i),
{
    let addr = list[i].0;
    let k = choose|k: int| 0 <= k < list.len() && (#[trigger] list[k]).0 == addr;
    assert(list[i].0 == addr);
    assert(list[k].0 == addr);
}

proof fn lemma_noted(list: Seq<(Seq<char>, EndPoint)>, addr: Seq<char>, endpoint: EndPoint)
    requires
        distinct(list),
    ensures
        distinct(noted(list, addr, endpoint)),
{
    let after = noted(list, addr, endpoint);
    assert forall|i: int, j: int| 0 <= i < j < after.len() implies (#[trigger] after[i]).0 != (
    #[trigger] after[j]).0 by {
        assert(after[i].0 == list[i].0);
        if j < list.len() {
            assert(after[j].0 == list[j].0);
        }
    }
}

proof fn lemma_forgotten(list: Seq<(Seq<char>, EndPoint)>, addr: Seq<char>)
    requires
        distinct(list),
    ensures
        distinct(forgotten(list, addr)),
{
    if let Some(place) = place_of(list, addr) {
        let after = list.remove(place);
        assert forall|i: int, j: int| 0 <= i < j < after.len() implies (#[trigger] after[i]).0 != (
        #[trigger] after[j]).0 by {
            let i2 = if i < place {
                i
            } else {
                i + 1
            };
            let j2 = if j < place {
                j
            } else {
                j + 1
            };
            assert(after[i] == list[i2] && after[j] == list[j2]);
        }
    }
}

/// Noting a listener puts its endpoint on its address and leaves the other addresses as
/// they are.
pub proof fn noted_listener_is_found(
    list: Seq<(Seq<char>, EndPoint)>,
    addr: Seq<char>,
    endpoint: EndPoint,
    other: Seq<char>,
)
    requires
        distinct(list),
        other != addr,
    ensures
        endpoint_on(noted(list, addr, endpoint), addr) == Some(endpoint),
        endpoint_on(noted(list, addr, endpoint), other) == endpoint_on(list, other),
{
    let after = noted(list, addr, endpoint);
    lemma_noted(list, addr, endpoint);
    let at: int = match place_of(list, addr) {
        Some(i) => i,
        None => list.len() as int,
    };
    assert(after[at] == (addr, endpoint));
    lemma_place(after, at);
    if let Some(i) = place_of(list, other) {
        assert(list[i].0 == other);
        assert(after[i] == list[i]);
        lemma_place(after, i);
    } else if let Some(i) = place_of(after, other) {
        assert(after[i].0 == other);
        assert(list[i] == after[i]);
    }
}

/// Forgetting a listener leaves nothing on its address, and the other addresses as they
/// are.
pub proof fn forgotten_listener_is_gone(
    list: Seq<(Seq<char>, EndPoint)>,
    addr: Seq<char>,
    other: Seq<char>,
)
    requires
        distinct(list),
        other != addr,
    ensures
        endpoint_on(forgotten(list, addr), addr) is None,
        endpoint_on(forgotten(list, addr), other) == endpoint_on(list, other),
{
    lemma_forgotten(list, addr);
    if let Some(place) = place_of(list, addr) {
        let after = list.remove(place);
        assert(list[place].0 == addr);
        assert forall|k: int| 0 <= k < after.len() implies (#[trigger] after[k]).0 != addr by {
            let k2 = if k < place {
                k
            } else {
                k + 1
            };
            assert(after[k] == list[k2]);
        }
        if let Some(i) = place_of(list, other) {
            assert(list[i].0 == other);
            let i2 = if i < place {
                i
            } else {
                i - 1
            };
            assert(after[i2] == list[i]);
            lemma_place(after, i2);
        } else if let Some(i) = place_of(after, other) {
            assert(after[i].0 == other);
            let i2 = if i < place {
                i
            } else {
                i + 1
            };
            assert(list[i2] == after[i]);
        }
    }
}

/// A listener that was noted is the one that is forgotten, and forgetting it leaves what
/// forgetting the address would have left before: the list as it was, where the address was
/// free.
pub proof fn forgetting_undoes_noting(
    list: Seq<(Seq<char>, EndPoint)>,
    addr: Seq<char>,
    endpoint: EndPoint,
)
    requires
        distinct(list),
    ensures
        endpoint_on(noted(list, addr, endpoint), addr) == Some(endpoint),
        forgotten(noted(list, addr, endpoint), addr) == forgotten(list, addr),
        place_of(list, addr) is None ==> forgotten(noted(list, addr, endpoint), addr) == list,
{
    let after = noted(list, addr, endpoint);
    lemma_noted(list, addr, endpoint);
    let at: int = match place_of(list, addr) {
        Some(i) => i,
        None => list.len() as int,
    };
    assert(after[at] == (addr, endpoint));
    lemma_place(after, at);
    assert(forgotten(after, addr) =~= forgotten(list, addr));
}

/// Listening on an endpoint goes well exactly where each of its steps does. The listener is
/// then noted on the address of its socket, and is reached at the host of the endpoint and
/// the port of the socket. Where a step fails, the listeners stay as they were.
pub proof fn listening_is_all_or_nothing(
    list: Seq<(Seq<char>, EndPoint)>,
    endpoint: EndPoint,
    outcomes: Seq<Result<Seq<char>, Seq<char>>>,
    local: Result<(Seq<char>, u16), Seq<char>>,
    built: Result<(), Seq<char>>,
    noting: Result<(), Seq<char>>,
)
    requires
        outcomes.len() == 4,
    ensures
        listening(list, endpoint, outcomes, local, built, noting).0 is Ok <==> {
            &&& forall|i: int| 0 <= i < outcomes.len() ==> #[trigger] outcomes[i] is Ok
            &&& local is Ok
            &&& built is Ok
            &&& noting is Ok
        },
        listening(list, endpoint, outcomes, local, built, noting).0 is Err ==> listening(
            list,
            endpoint,
            outcomes,
            local,
            built,
            noting,
        ).1 == list,
        listening(list, endpoint, outcomes, local, built, noting).0 matches Ok(locator) ==> {
            &&& locator == (LocatorView {
                protocol: endpoint.protocol@,
                address: outcomes[1]->Ok_0 + ":"@ + decimal(local->Ok_0.1 as nat),
                metadata: endpoint.metadata@,
            })
            &&& listening(list, endpoint, outcomes, local, built, noting).1 == noted(
                list,
                local->Ok_0.0,
                endpoint,
            )
        },
{
    if forall|i: int| 0 <= i < outcomes.len() ==> #[trigger] outcomes[i] is Ok {
        listener_steps_in_order(endpoint.protocol@, endpoint.metadata@, outcomes);
    } else {
        let place = first_failure(outcomes, 0);
        listener_first_failure_decides(endpoint.protocol@, endpoint.metadata@, outcomes, place);
    }
}

/// Where the steps up to the binding of the socket go well, the first of the later ones
/// that fails decides the error: that of the socket's address with the resolved address,
/// and that of the locator and of the noting as it is.
pub proof fn late_listener_failures_decide(
    list: Seq<(Seq<char>, EndPoint)>,
    endpoint: EndPoint,
    outcomes: Seq<Result<Seq<char>, Seq<char>>>,
    local: Result<(Seq<char>, u16), Seq<char>>,
    built: Result<(), Seq<char>>,
    noting: Result<(), Seq<char>>,
)
    requires
        outcomes.len() == 4,
        forall|i: int| 0 <= i < outcomes.len() ==> #[trigger] outcomes[i] is Ok,
    ensures
        local matches Err(cause) ==> listening(list, endpoint, outcomes, local, built, noting).0
            == Err::<LocatorView, ErrorView>(
            error_about(ErrorKind::Listener, outcomes[0]->Ok_0, cause),
        ),
        local is Ok ==> (built matches Err(cause) ==> listening(
            list,
            endpoint,
            outcomes,
            local,
            built,
            noting,
        ).0 == Err::<LocatorView, ErrorView>(error_with(ErrorKind::Locator, cause))),
        local is Ok && built is Ok ==> (noting matches Err(cause) ==> listening(
            list,
            endpoint,
            outcomes,
            local,
            built,
            noting,
        ).0 == Err::<LocatorView, ErrorView>(error_with(ErrorKind::Noting, cause))),
{
    listener_steps_in_order(endpoint.protocol@, endpoint.metadata@, outcomes);
}

/// Forgetting the listener on an address that listening has just put one on gives its
/// endpoint back, and brings the listeners back that were there before, where none was on
/// that address.
pub proof fn forgetting_undoes_listening(
    list: Seq<(Seq<char>, EndPoint)>,
    endpoint: EndPoint,
    outcomes: Seq<Result<Seq<char>, Seq<char>>>,
    local: Result<(Seq<char>, u16), Seq<char>>,
    built: Result<(), Seq<char>>,
    noting: Result<(), Seq<char>>,
)
    requires
        distinct(list),
        outcomes.len() == 4,
        listening(list, endpoint, outcomes, local, built, noting).0 is Ok,
        place_of(list, local->Ok_0.0) is None,
    ensures
        endpoint_on(
            listening(list, endpoint, outcomes, local, built, noting).1,
            local->Ok_0.0,
        ) == Some(endpoint),
        forgotten(
            listening(list, endpoint, outcomes, local, built, noting).1,
            local->Ok_0.0,
        ) == list,
{
    listening_is_all_or_nothing(list, endpoint, outcomes, local, built, noting);
    forgetting_undoes_noting(list, local->Ok_0.0, endpoint);
}

/// The place of the first failure, from a place on before which there is none.
proof fn first_failure(outcomes: Seq<Result<Seq<char>, Seq<char>>>, from: int) -> (place: int)
    requires
        0 <= from <= outcomes.len(),
        forall|i: int| 0 <= i < from ==> #[trigger] outcomes[i] is Ok,
        !(forall|i: int| 0 <= i < outcomes.len() ==> #[trigger] outcomes[i] is Ok),
    ensures
        0 <= place < outcomes.len(),
        outcomes[place] is Err,
        forall|i: int| 0 <= i < place ==> #[trigger] outcomes[i] is Ok,
    decreases outcomes.len() - from,
{
    if outcomes[from] is Err {
        from
    } else {
        first_failure(outcomes, from + 1)
    }
}

/// A listener is noted in the place of the one on its address, and else behind the others.
/// No other listener moves or changes.
pub proof fn noting_changes_one_place(
    list: Seq<(Seq<char>, EndPoint)>,
    addr: Seq<char>,
    endpoint: EndPoint,
    i: int,
)
    requires
        distinct(list),
    ensures
        0 <= i < list.len() && list[i].0 == addr ==> noted(list, addr, endpoint) == list.update(
            i,
            (addr, endpoint),
        ),
        (forall|j: int| 0 <= j < list.len() ==> (#[trigger] list[j]).0 != addr) ==> noted(
            list,
            addr,
            endpoint,
        ) == list.push((addr, endpoint)),
{
    if 0 <= i < list.len() {
        lemma_place(list, i);
    }
}

/// A listener is forgotten by taking it out of its place. No other listener changes, and
/// where there is none on the address, nothing does.
pub proof fn forgetting_takes_one_out(list: Seq<(Seq<char>, EndPoint)>, addr: Seq<char>, i: int)
    requires
        distinct(list),
    ensures
        0 <= i < list.len() && list[i].0 == addr ==> forgotten(list, addr) == list.remove(i)
            && endpoint_on(list, addr) == Some(list[i].1),
        (forall|j: int| 0 <= j < list.len() ==> (#[trigger] list[j]).0 != addr) ==> forgotten(
            list,
            addr,
        ) == list && endpoint_on(list, addr) is None,
{
    if 0 <= i < list.len() {
        lemma_place(list, i);
    }
}

/// The place of an address is where the listener on it stands.
pub proof fn place_is_that_of_the_address(
    list: Seq<(Seq<char>, EndPoint)>,
    addr: Seq<char>,
    i: int,
)
    requires
        distinct(list),
    ensures
        place_of(list, addr) == Some(i) <==> 0 <= i < list.len() && list[i].0 == addr,
        place_of(list, addr) is None <==> forall|j: int|
            0 <= j < list.len() ==> (#[trigger] list[j]).0 != addr,
{
    if 0 <= i < list.len() {
        lemma_place(list, i);
    }
}

/// A list is distinct exactly where no address stands at two places.
pub proof fn distinct_lists_have_one_listener_for_an_address(list: Seq<(Seq<char>, EndPoint)>)
    ensures
        distinct(list) <==> forall|i: int, j: int|
            0 <= i < list.len() && 0 <= j < list.len() && (#[trigger] list[i]).0 == (
            #[trigger] list[j]).0 ==> i == j,
{
    if distinct(list) {
        assert forall|i: int, j: int|
            0 <= i < list.len() && 0 <= j < list.len() && (#[trigger] list[i]).0 == (
            #[trigger] list[j]).0 implies i == j by {
            if i < j {
                assert(list[i].0 != list[j].0);
            }
            if j < i {
                assert(list[j].0 != list[i].0);
            }
        }
    }
}

/// A listener whose locator is built, and which may be noted, is noted on the address of its
/// socket, and its locator is the result. Else nothing is noted, and the error is that of
/// the locator, or else that of the noting, as it is.
pub proof fn finishing_notes_or_fails(
    list: Seq<(Seq<char>, EndPoint)>,
    bound: BoundView,
    endpoint: EndPoint,
    cause: Seq<char>,
    noting: Result<(), Seq<char>>,
)
    ensures
        listener_finished(list, bound, endpoint, Ok(()), Ok(())) == (
            Ok::<LocatorView, ErrorView>(bound.locator),
            noted(list, bound.addr, endpoint),
        ),
        listener_finished(list, bound, endpoint, Err(cause), noting) == (
            Err::<LocatorView, ErrorView>(
                ErrorView { kind: ErrorKind::Locator, subject: Seq::empty(), detail: cause },
            ),
            list,
        ),
        listener_finished(list, bound, endpoint, Ok(()), Err(cause)) == (
            Err::<LocatorView, ErrorView>(
                ErrorView { kind: ErrorKind::Noting, subject: Seq::empty(), detail: cause },
            ),
            list,
        ),
{
}

/// A manager shows the address and the endpoint of each of its listeners, place by place,
/// and is well-formed exactly where no two are on one address.
pub proof fn manager_shows_its_listeners(manager: LinkManagerUnicastTls)
    ensures
        manager@.len() == manager.listeners@.len(),
        forall|i: int|
            0 <= i < manager@.len() ==> #[trigger] manager@[i] == (
                manager.listeners@[i].addr@,
                manager.listeners@[i].endpoint,
            ),
        manager.wf() <==> forall|i: int, j: int|
            0 <= i < j < manager@.len() ==> (#[trigger] manager@[i]).0 != (#[trigger] manager@[j]).0,
{
}

} // verus!
