use zenoh_link_tls::accept::{AcceptTask, Event, Phase};
use zenoh_link_tls::config::Config;
use zenoh_link_tls::endpoint::{get_tls_host, EndPoint, Locator};
use zenoh_link_tls::error::{ErrorKind, TlsError};
use zenoh_link_tls::link::{close_outcome, io_outcome, socket_options, LinkUnicastTls};
use zenoh_link_tls::link_setup::{LinkSetup, LinkStep};
use zenoh_link_tls::listener_setup::{BoundListener, ListenerSetup, ListenerStep};
use zenoh_link_tls::manager::LinkManagerUnicastTls;
use zenoh_link_tls::text::{join_texts, port_text, text_eq};

fn endpoint(address: &str) -> EndPoint {
    EndPoint {
        text: format!("tls/{address}?m=1"),
        protocol: "tls".to_string(),
        address: address.to_string(),
        metadata: "m=1".to_string(),
        config: Config { entries: vec![] },
    }
}

fn parts(locator: &Locator) -> (&str, &str, &str) {
    (&locator.protocol, &locator.address, &locator.metadata)
}

fn ok(text: &str) -> Result<String, String> {
    Ok(text.to_string())
}

fn fail(text: &str) -> Result<String, String> {
    Err(text.to_string())
}

#[test]
fn ports_are_written_in_decimal() {
    assert_eq!(port_text(0), "0");
    assert_eq!(port_text(7), "7");
    assert_eq!(port_text(10), "10");
    assert_eq!(port_text(7447), "7447");
    assert_eq!(port_text(65535), "65535");
    for port in [1u16, 9, 99, 100, 808, 9999, 10000, 12345, 60789] {
        assert_eq!(port_text(port), port.to_string());
    }
}

#[test]
fn the_host_stands_before_the_port() {
    assert_eq!(get_tls_host("localhost:7447").unwrap(), "localhost");
    assert_eq!(get_tls_host("[::1]:7447").unwrap(), "[::1]");
    assert_eq!(get_tls_host(":7447").unwrap(), "");
    assert_eq!(get_tls_host("host").unwrap_err().message(), "Invalid TLS address");
    assert_eq!(get_tls_host("").unwrap_err().kind, ErrorKind::Address);
}

#[test]
fn texts_are_compared_and_joined() {
    assert!(text_eq("a", "a"));
    assert!(!text_eq("a", "A"));
    assert_eq!(join_texts("a", "", "b", "c", "d"), "abcd");
}

#[test]
fn a_link_knows_its_ends() {
    let link = LinkUnicastTls::new("127.0.0.1:1".to_string(), "10.0.0.2:7447".to_string(), 65535);
    assert_eq!(parts(link.get_src()), ("tls", "127.0.0.1:1", ""));
    assert_eq!(parts(link.get_dst()), ("tls", "10.0.0.2:7447", ""));
    assert_eq!(link.get_mtu(), 65535);
    assert!(link.is_reliable());
    assert!(link.is_streamed());
    assert_eq!(link.to_text(), "127.0.0.1:1 => 10.0.0.2:7447");
}

#[test]
fn a_link_is_shown_by_its_addresses() {
    let link =
        LinkUnicastTls::new("127.0.0.1:1000".to_string(), "127.0.0.1:2000".to_string(), 65535);
    assert_eq!(link.to_text(), "127.0.0.1:1000 => 127.0.0.1:2000");
    assert_eq!(link.to_debug_text(), "Tls { src: 127.0.0.1:1000, dst: 127.0.0.1:2000 }");
}

#[test]
fn sockets_do_not_delay_and_linger() {
    let options = socket_options(10);
    assert!(options.nodelay);
    assert_eq!(options.linger_secs, 10);
    assert_eq!(socket_options(0).linger_secs, 0);
}

#[test]
fn closing_follows_the_shutdown() {
    assert!(close_outcome(Ok(()), Ok(())).is_ok());
    assert!(close_outcome(Err("flush".to_string()), Ok(())).is_ok());
    let e = close_outcome(Ok(()), Err("down".to_string())).unwrap_err();
    assert_eq!(e.kind, ErrorKind::Io);
    assert_eq!(e.message(), "down");
    let e = close_outcome(Err("flush".to_string()), Err("down".to_string())).unwrap_err();
    assert_eq!(e.message(), "down");
}

#[test]
fn socket_errors_are_passed_on() {
    assert_eq!(io_outcome(Ok(3)).unwrap(), 3);
    let e: TlsError = io_outcome::<usize>(Err("broken".to_string())).unwrap_err();
    assert_eq!(e.message(), "broken");
}

fn advance(setup: LinkSetup, outcomes: &[&str]) -> LinkSetup {
    outcomes.iter().fold(setup, |s, o| s.next(ok(o)).unwrap())
}

#[test]
fn a_link_takes_seven_steps() {
    let manager = LinkManagerUnicastTls::new();
    let setup = manager.new_link(&endpoint("host:7447"));
    assert_eq!(setup.step, LinkStep::ServerName);
    let setup = advance(setup, &["DnsName(\"host\")", "10.0.0.2:7447", "", "", "1.1.1.1:5"]);
    assert_eq!(setup.step, LinkStep::PeerAddr);
    assert_eq!(setup.addr, "10.0.0.2:7447");
    let setup = advance(setup, &["10.0.0.2:7447", ""]);
    assert_eq!(setup.step, LinkStep::Ready);
    let link = setup.into_link(1000);
    assert_eq!(link.src_addr, "1.1.1.1:5");
    assert_eq!(link.dst_addr, "10.0.0.2:7447");
    assert_eq!(link.mtu, 1000);
    assert_eq!(parts(link.get_dst()), ("tls", "10.0.0.2:7447", ""));
}

#[test]
fn each_step_of_a_link_has_its_error() {
    let manager = LinkManagerUnicastTls::new();
    let steps = ["name", "addr", "", "", "src", "dst", ""];
    let wanted = [
        "why",
        "why",
        "Cannot create a new TLS listener to tls/host:7447?m=1: why",
        "Can not create a new TLS link bound to name: why",
        "Can not create a new TLS link bound to name: why",
        "Can not create a new TLS link bound to name: why",
        "Can not create a new TLS link bound to name: why",
    ];
    for i in 0..steps.len() {
        let setup = advance(manager.new_link(&endpoint("host:7447")), &steps[..i]);
        let e = setup.next(fail("why")).unwrap_err();
        assert_eq!(e.message(), wanted[i]);
    }
}

fn listen(setup: ListenerSetup, outcomes: &[&str]) -> ListenerSetup {
    outcomes.iter().fold(setup, |s, o| s.next(ok(o)).unwrap())
}

#[test]
fn a_listener_is_reachable_at_its_bound_port() {
    let manager = LinkManagerUnicastTls::new();
    let setup = manager.new_listener(&endpoint("host:0"));
    assert_eq!(setup.step, ListenerStep::Resolve);
    let setup = listen(setup, &["10.0.0.1:0", "host", "", ""]);
    assert_eq!(setup.step, ListenerStep::LocalAddr);
    let bound = setup.into_bound(Ok(("10.0.0.1:40123".to_string(), 40123))).unwrap();
    assert_eq!(bound.addr, "10.0.0.1:40123");
    assert_eq!(parts(&bound.locator), ("tls", "host:40123", "m=1"));
}

#[test]
fn each_step_of_a_listener_has_its_error() {
    let manager = LinkManagerUnicastTls::new();
    let steps = ["10.0.0.1:0", "host", "", ""];
    let wanted = [
        "why",
        "why",
        "Cannot create a new TLS listener on 10.0.0.1:0. why",
        "Can not create a new TLS listener on 10.0.0.1:0: why",
    ];
    for i in 0..steps.len() {
        let setup = listen(manager.new_listener(&endpoint("host:0")), &steps[..i]);
        assert_eq!(setup.next(fail("why")).unwrap_err().message(), wanted[i]);
    }
    let setup = listen(manager.new_listener(&endpoint("host:0")), &steps);
    assert_eq!(
        setup.into_bound(Err("why".to_string())).unwrap_err().message(),
        "Can not create a new TLS listener on 10.0.0.1:0: why"
    );
}

fn bound(manager: &LinkManagerUnicastTls, address: &str, local: &str, port: u16) -> BoundListener {
    let setup = listen(manager.new_listener(&endpoint(address)), &[local, "host", "", ""]);
    setup.into_bound(Ok((local.to_string(), port))).unwrap()
}

fn addresses(manager: &LinkManagerUnicastTls) -> Vec<&str> {
    manager.get_listeners().into_iter().map(|e| e.address.as_str()).collect()
}

#[test]
fn a_listener_is_noted_when_it_is_set_up() {
    let mut manager = LinkManagerUnicastTls::new();
    let b = bound(&manager, "host:0", "10.0.0.1:40123", 40123);
    let locator = manager.finish_listener(b, endpoint("host:0"), Ok(()), Ok(())).unwrap();
    assert_eq!(parts(&locator), ("tls", "host:40123", "m=1"));
    assert_eq!(addresses(&manager), ["host:0"]);
    assert_eq!(manager.listeners[0].addr, "10.0.0.1:40123");
    assert_eq!(manager.del_listener("10.0.0.1:40123").unwrap().address, "host:0");
    assert_eq!(manager.get_listeners().len(), 0);
}

#[test]
fn a_late_failure_leaves_the_listeners_as_they_were() {
    let mut manager = LinkManagerUnicastTls::new();
    manager.add_listener("a:1".to_string(), endpoint("a:1"));
    let b = bound(&manager, "b:2", "b:2", 2);
    let refused = Err("too long".to_string());
    let e = manager.finish_listener(b, endpoint("b:2"), refused, Ok(())).unwrap_err();
    assert_eq!((e.kind, e.message().as_str()), (ErrorKind::Locator, "too long"));
    assert_eq!(addresses(&manager), ["a:1"]);
    let b = bound(&manager, "b:2", "b:2", 2);
    let full = Err("full".to_string());
    let e = manager.finish_listener(b, endpoint("b:2"), Ok(()), full).unwrap_err();
    assert_eq!((e.kind, e.message().as_str()), (ErrorKind::Noting, "full"));
    assert_eq!(addresses(&manager), ["a:1"]);
    let b = bound(&manager, "b:2", "b:2", 2);
    let (refused, full) = (Err("too long".to_string()), Err("full".to_string()));
    let e = manager.finish_listener(b, endpoint("b:2"), refused, full).unwrap_err();
    assert_eq!(e.kind, ErrorKind::Locator);
    assert_eq!(manager.get_locators().len(), 1);
}

#[test]
fn listeners_are_noted_and_forgotten() {
    let mut manager = LinkManagerUnicastTls::new();
    assert_eq!(manager.get_listeners().len(), 0);
    manager.add_listener("a:1".to_string(), endpoint("a:1"));
    manager.add_listener("b:2".to_string(), endpoint("b:2"));
    manager.add_listener("c:3".to_string(), endpoint("c:3"));
    let texts: Vec<&str> = manager.get_listeners().iter().map(|e| e.text.as_str()).collect();
    assert_eq!(texts, ["tls/a:1?m=1", "tls/b:2?m=1", "tls/c:3?m=1"]);
    assert_eq!(manager.del_listener("b:2").unwrap().address, "b:2");
    let locators = manager.get_locators();
    assert_eq!(locators.len(), 2);
    assert_eq!(parts(&locators[0]), ("tls", "a:1", "m=1"));
    assert_eq!(parts(&locators[1]), ("tls", "c:3", "m=1"));
    let e = match manager.del_listener("b:2") {
        Ok(_) => panic!("the listener was forgotten already"),
        Err(e) => e,
    };
    assert_eq!(e.kind, ErrorKind::UnknownListener);
    assert_eq!(
        e.message(),
        "Can not delete the listener because it has not been found: b:2"
    );
    assert_eq!(manager.get_listeners().len(), 2);
}

#[test]
fn forgetting_a_listener_undoes_noting_it() {
    let mut manager = LinkManagerUnicastTls::new();
    manager.add_listener("a:1".to_string(), endpoint("a:1"));
    let before = format!("{:?}", manager.listeners);
    manager.add_listener("b:2".to_string(), endpoint("b:2"));
    assert_eq!(manager.del_listener("b:2").unwrap().text, "tls/b:2?m=1");
    assert_eq!(format!("{:?}", manager.listeners), before);
}

#[test]
fn one_listener_stands_for_an_address() {
    let mut manager = LinkManagerUnicastTls::new();
    manager.add_listener("a:1".to_string(), endpoint("old:1"));
    manager.add_listener("b:2".to_string(), endpoint("b:2"));
    manager.add_listener("a:1".to_string(), endpoint("new:1"));
    assert_eq!(addresses(&manager), ["new:1", "b:2"]);
    assert_eq!(manager.del_listener("a:1").unwrap().address, "new:1");
    assert_eq!(addresses(&manager), ["b:2"]);
}

fn task() -> AcceptTask {
    match AcceptTask::start(ok("0.0.0.0:7447"), 65535, 100_000) {
        Ok(task) => task,
        Err(e) => panic!("{}", e.message()),
    }
}

fn accepted_from(addr: &str) -> Event {
    Event::Accepted { dst_addr: addr.to_string() }
}

fn accepted() -> Event {
    accepted_from("9.9.9.9:9")
}

#[test]
fn an_accepting_task_hands_links_over() {
    let t = task().next(Event::Active(true));
    assert!(matches!(t.phase, Phase::Wait));
    let t = t.next(accepted());
    assert!(matches!(&t.phase, Phase::Handshake { dst_addr } if dst_addr == "9.9.9.9:9"));
    let t = t.next(Event::HandshakeDone);
    match &t.phase {
        Phase::Send(link) => assert_eq!(link.to_text(), "0.0.0.0:7447 => 9.9.9.9:9"),
        _ => panic!("a link was expected"),
    }
    let t = t.next(Event::Sent);
    assert!(matches!(t.phase, Phase::CheckActive));
}

#[test]
fn failures_keep_an_accepting_task_going() {
    let t = task().next(Event::Active(true)).next(Event::AcceptFailed);
    assert!(matches!(t.phase, Phase::Throttle { micros: 100_000 }));
    let t = t.next(Event::Throttled);
    assert!(matches!(t.phase, Phase::CheckActive));
    let t = t.next(Event::Active(true)).next(accepted()).next(Event::HandshakeFailed);
    assert!(matches!(t.phase, Phase::CheckActive));
    let t = t.next(Event::Active(true)).next(accepted());
    let t = t.next(Event::HandshakeDone).next(Event::SendFailed);
    assert!(matches!(t.phase, Phase::CheckActive));
    assert_eq!((t.src_addr.as_str(), t.mtu, t.throttle_time), ("0.0.0.0:7447", 65535, 100_000));
}

#[test]
fn an_accepting_task_ends_when_asked() {
    assert!(matches!(task().next(Event::Active(false)).phase, Phase::Done));
    let t = task().next(Event::Active(true)).next(Event::Stopped);
    assert!(matches!(t.phase, Phase::Done));
    match AcceptTask::start(fail("closed"), 1, 1) {
        Ok(_) => panic!("the task has no socket"),
        Err(e) => assert_eq!(e.message(), "Can not accept TLS connections: closed"),
    }
}

#[test]
fn links_come_in_the_order_of_the_handshakes() {
    let events = [
        Event::Active(true),
        accepted_from("1.1.1.1:1"),
        Event::HandshakeDone,
        Event::SendFailed,
        Event::Active(true),
        accepted_from("2.2.2.2:2"),
        Event::HandshakeFailed,
        Event::Active(true),
        accepted_from("3.3.3.3:3"),
        Event::HandshakeDone,
        Event::Sent,
    ];
    let mut links = vec![];
    let mut t = task();
    for event in events {
        t = t.next(event);
        if let Phase::Send(link) = &t.phase {
            links.push(link.to_text());
        }
    }
    assert_eq!(links, ["0.0.0.0:7447 => 1.1.1.1:1", "0.0.0.0:7447 => 3.3.3.3:3"]);
}

#[test]
fn a_waiting_task_without_an_active_listener_ends_after_four_events() {
    let t = task().next(Event::Active(true));
    let t = t.next(accepted()).next(Event::HandshakeDone).next(Event::Sent);
    assert!(matches!(t.phase, Phase::CheckActive));
    assert!(matches!(t.next(Event::Active(false)).phase, Phase::Done));
}

#[test]
fn errors_have_their_wording() {
    let d = || "x".to_string();
    assert_eq!(TlsError::plain(ErrorKind::MissingKey).message(), "Missing TLS private key.");
    assert_eq!(
        TlsError::with(ErrorKind::UnknownServerNameVerification, d()).message(),
        "Unknown server name verification argument: x"
    );
    assert_eq!(
        TlsError::about(ErrorKind::Link, "s".to_string(), d()).message(),
        "Can not create a new TLS link bound to s: x"
    );
    assert_eq!(
        TlsError::about(ErrorKind::ListenerConfig, "a".to_string(), d()).message(),
        "Cannot create a new TLS listener on a. x"
    );
}
