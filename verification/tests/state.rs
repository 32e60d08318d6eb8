use leaf::addr::{DestinationAddr, HostName, IpAddr, SocketAddr};
use leaf::console::ConsoleWriter;
use leaf::endpoint::{Endpoint, Loopback};
use leaf::inbound::Network;
use leaf::outbound::{
    attempt_delays, copy_connect, failover_step, initial_schedule, mux_connector_limits,
    failover_after, mux_may_reuse, mux_new_connection, mux_step, next_connect_addr, ActorConnect,
    AttemptOutcome, FailoverNext, FailoverStep, MuxStep, OutboundConnect,
};
use leaf::runtime::{
    config_path, is_running, outbound_interface_binds, reload, reload_source, shutdown,
    reload_result, start_step, test_config, watch_outcome, watch_action, watch_target, Config, Error, RunState, RuntimeOption,
    RuntimeRegistry, StartAction, StartEvent, StartPhase, WatchEvent, WatchPlatform,
};
use leaf::services::{ConsoleCallback, GrpcCallback, MyEchoService, ProxieService, RunAtService};
use leaf::stats::{CopyError, CopyProgress, Counter, FillAction, Stats, TrafficSampler};

#[test]
fn counters_start_at_zero_and_wrap() {
    let s = Stats::new();
    assert_eq!(s.uplink_counter.amt, 0);
    assert_eq!(s.downlink_counter.amt, 0);
    let mut c = Counter::new();
    c.add(5);
    assert_eq!(c.amt, 5);
    c.add(u64::MAX);
    assert_eq!(c.amt, 4);
}

#[test]
fn copy_counts_written_bytes() {
    let mut p = CopyProgress::new();
    let mut cnt = Some(Counter::new());
    assert_eq!(p.on_fill(10), FillAction::Write);
    assert_eq!(p.on_written(10, &mut cnt), Ok(()));
    assert_eq!(p.on_written(3, &mut cnt), Ok(()));
    assert_eq!(cnt.as_ref().unwrap().amt, 13);
    assert_eq!(p.on_written(0, &mut cnt), Err(CopyError::WriteZero));
    assert_eq!(p.on_fill(0), FillAction::Finish(13));
    let mut none: Option<Counter> = None;
    assert_eq!(p.on_written(1, &mut none), Ok(()));
    assert_eq!(p.amt, 14);
}

#[test]
fn sampler_reports_deltas_that_add_up() {
    let mut s = TrafficSampler::new();
    let totals = [(100u64, 10u64), (250, 10), (250, 40)];
    let mut up_sum = 0;
    let mut down_sum = 0;
    for (u, d) in totals {
        let (du, dd) = s.sample(u, d);
        up_sum += du;
        down_sum += dd;
    }
    assert_eq!(up_sum, 250);
    assert_eq!(down_sum, 40);
    assert_eq!(s.last_up_total, 250);
}

#[test]
fn endpoint_is_fifo() {
    let mut e = Endpoint::new();
    e.inject_packet(&[1, 2]);
    e.recv_packet(&[3]);
    let (rx, _tx) = e.receive().unwrap();
    assert_eq!(rx.buffer(), &vec![1, 2]);
    let (rx, tx) = e.receive().unwrap();
    assert_eq!(rx.into_buffer(), vec![3]);
    assert!(e.receive().is_none());
    assert_eq!(tx.buffer(3), vec![0, 0, 0]);
    assert!(e.transmit().is_some());
    let mut out = [9u8; 4];
    assert_eq!(e.extract_packet(&mut out), None);
    assert_eq!(out, [9u8; 4]);
}

#[test]
fn loopback_returns_in_order() {
    let mut d = Loopback::new();
    d.transmit(vec![1]);
    d.transmit(vec![2, 2]);
    assert_eq!(d.receive().unwrap().into_buffer(), vec![1]);
    assert_eq!(d.receive().unwrap().into_buffer(), vec![2, 2]);
    assert!(d.receive().is_none());
}

#[test]
fn registry_lifecycle() {
    let mut reg: RuntimeRegistry<&str> = RuntimeRegistry::new();
    assert!(!is_running(&reg, 0));
    assert_eq!(reload(&reg, 0), Err(Error::RuntimeManager));
    assert_eq!(shutdown(&reg, 0), None);
    reg.register(0, "rt0");
    assert!(is_running(&reg, 0));
    assert_eq!(reload(&reg, 0), Ok(&"rt0"));
    assert_eq!(shutdown(&reg, 0), Some(&"rt0"));
    assert!(!is_running(&reg, 1));
    reg.unregister(0);
    assert!(!is_running(&reg, 0));
}

#[test]
fn runtime_settings() {
    assert_eq!(config_path(&Config::File("/etc/leaf.conf".to_string())), Some("/etc/leaf.conf".to_string()));
    assert_eq!(config_path(&Config::Str("[General]".to_string())), None);
    assert_eq!(config_path(&Config::Internal(vec![1])), None);
    assert_eq!(RuntimeOption::MultiThread(2, 1024), RuntimeOption::MultiThread(2, 1024));
    assert_eq!(test_config::<u8>(Ok(1)), Ok(()));
    assert_eq!(test_config::<u8>(Err("bad".to_string())), Err(Error::Config("bad".to_string())));
    let p = Some("c.conf".to_string());
    assert_eq!(reload_source(&p), Ok(&"c.conf".to_string()));
    assert_eq!(reload_source(&None), Err(Error::NoConfigFile));
    assert_eq!(watch_target(&p, true), Ok(Some(&"c.conf".to_string())));
    assert_eq!(watch_target(&p, false), Ok(None));
    assert_eq!(watch_target(&None, true), Err(Error::NoConfigFile));
}

#[test]
fn watch_events() {
    let a = watch_action(WatchPlatform::Linux, WatchEvent::RemoveFile);
    assert!(a.reload && a.rewatch);
    let a = watch_action(WatchPlatform::Apple, WatchEvent::RemoveFile);
    assert!(!a.reload && a.rewatch);
    assert!(watch_action(WatchPlatform::Apple, WatchEvent::ModifyDataContent).reload);
    assert!(watch_action(WatchPlatform::Windows, WatchEvent::ModifyDataAny).reload);
    assert!(!watch_action(WatchPlatform::Windows, WatchEvent::CloseWrite).reload);
    assert!(!watch_action(WatchPlatform::Other, WatchEvent::CloseWrite).reload);
}

#[test]
fn interface_binds() {
    assert_eq!(outbound_interface_binds(Some("eth1".to_string()), &"en0".to_string()), "eth1,en0");
    assert_eq!(outbound_interface_binds(None, &"en0".to_string()), "en0");
}

fn proxy_at(addr: &str, port: u16) -> OutboundConnect {
    OutboundConnect::Proxy(Network::Tcp, addr.to_string(), port)
}

#[test]
fn chain_connects_where_the_first_actor_does() {
    let actors = vec![
        ActorConnect { tcp: Some(OutboundConnect::Next), udp: None },
        ActorConnect { tcp: None, udp: None },
        ActorConnect { tcp: None, udp: Some(proxy_at("s.net", 443)) },
        ActorConnect { tcp: Some(OutboundConnect::Direct), udp: None },
    ];
    assert!(matches!(next_connect_addr(&actors, 0), OutboundConnect::Proxy(_, a, 443) if a == "s.net"));
    assert!(matches!(next_connect_addr(&actors, 3), OutboundConnect::Direct));
    assert!(matches!(next_connect_addr(&actors, 4), OutboundConnect::Unknown));
    assert!(matches!(copy_connect(&proxy_at("x", 1)), OutboundConnect::Proxy(Network::Tcp, a, 1) if a == "x"));
}

#[test]
fn failover_order() {
    let sched = initial_schedule(3);
    assert_eq!(sched, vec![0, 1, 2]);
    assert_eq!(failover_step(&sched, 0, 3, true), FailoverStep::Try(0));
    assert_eq!(failover_step(&sched, 2, 3, false), FailoverStep::Try(2));
    assert_eq!(failover_step(&sched, 3, 3, false), FailoverStep::AllFailed);
    assert_eq!(failover_step(&vec![], 0, 3, true), FailoverStep::LastResort);
    assert_eq!(failover_step(&vec![], 0, 3, false), FailoverStep::AllFailed);
    assert_eq!(failover_step(&vec![5], 0, 3, false), FailoverStep::InvalidActor);
}

#[test]
fn try_all_delays() {
    assert_eq!(attempt_delays(100, 3), vec![0, 100, 200]);
    assert_eq!(attempt_delays(0, 2), vec![0, 0]);
    assert!(attempt_delays(7, 0).is_empty());
}

#[test]
fn mux_choices() {
    assert!(mux_may_reuse(false));
    assert!(!mux_may_reuse(true));
    assert_eq!(mux_connector_limits(true, 8, 2), (1, 1));
    assert_eq!(mux_connector_limits(false, 8, 2), (8, 2));
}

#[test]
fn services() {
    let e = MyEchoService::default();
    assert_eq!(e.echo_message("world"), "Hello world!");
    let _ = ConsoleCallback::new();
    let _ = GrpcCallback::new();
    let _ = ProxieService::default();
    let _ = RunAtService::default();
}

#[test]
fn console_hands_out_one_line_per_write() {
    let mut w = ConsoleWriter::default();
    assert_eq!(w.write(b"abc"), (3, None));
    assert_eq!(w.write(b"d\nef\ng"), (6, Some(b"abcd".to_vec())));
    assert_eq!(w.write(b""), (0, Some(b"ef".to_vec())));
    assert_eq!(w.write(b"\n"), (1, Some(b"g".to_vec())));
    assert_eq!(w.write(b"x"), (1, None));
}

#[test]
fn host_names() {
    let h = HostName::from_domain_name("WWW.Example.COM".to_string()).unwrap();
    assert!(matches!(h, HostName::DomainName(ref d) if d == "www.example.com"));
    let mut h2 = HostName::Ip(IpAddr::V4([1, 1, 1, 1]));
    h2.set_domain_name("ÄB.c".to_string()).unwrap();
    assert!(matches!(h2, HostName::DomainName(ref d) if d == "Äb.c"));
    let d = DestinationAddr::from_socket_addr(SocketAddr { ip: IpAddr::V4([9, 9, 9, 9]), port: 53 });
    assert_eq!(d.port, 53);
    assert!(matches!(d.host, HostName::Ip(IpAddr::V4([9, 9, 9, 9]))));
}

fn reported(actions: &[StartAction]) -> Vec<RunState> {
    actions
        .iter()
        .filter_map(|a| match a {
            StartAction::Report(s) => Some(*s),
            _ => None,
        })
        .collect()
}

#[test]
fn start_runs_through_its_states() {
    let mut all = Vec::new();
    let (p, a) = start_step(StartPhase::Begin, StartEvent::Go);
    assert_eq!(p, StartPhase::Loading);
    all.extend(a);
    let (p, a) = start_step(p, StartEvent::ConfigLoaded { has_log: true });
    assert_eq!(p, StartPhase::Building);
    all.extend(a);
    let (p, a) = start_step(p, StartEvent::Built);
    assert_eq!(p, StartPhase::Running);
    assert!(matches!(a[0], StartAction::Register));
    all.extend(a);
    let (p, a) = start_step(p, StartEvent::TasksEnded);
    assert_eq!(p, StartPhase::Done);
    assert!(matches!(a[1], StartAction::Unregister));
    assert!(matches!(a[3], StartAction::Finish(Ok(()))));
    all.extend(a);
    assert_eq!(
        reported(&all),
        vec![RunState::Starting, RunState::Started, RunState::Stopping, RunState::Stopped]
    );
    assert_eq!(all.len(), 10);
}

#[test]
fn start_fails_without_log_setting() {
    let (p, a) = start_step(StartPhase::Loading, StartEvent::ConfigLoaded { has_log: false });
    assert_eq!(p, StartPhase::Failed);
    assert_eq!(a.len(), 1);
    match &a[0] {
        StartAction::Finish(Err(Error::Config(m))) => assert_eq!(m, "empty log setting"),
        other => panic!("unexpected {:?}", other),
    }
}

#[test]
fn start_errors_carry_their_messages() {
    let (p, a) = start_step(StartPhase::Loading, StartEvent::ConfigFailed("bad".to_string()));
    assert_eq!(p, StartPhase::Failed);
    assert!(matches!(&a[0], StartAction::Finish(Err(Error::Config(m))) if m == "bad"));
    let (p, a) = start_step(StartPhase::Building, StartEvent::RuntimeFailed("io".to_string()));
    assert_eq!(p, StartPhase::Failed);
    assert!(matches!(&a[0], StartAction::Finish(Err(Error::Io(m))) if m == "io"));
    let (p, a) = start_step(StartPhase::Building, StartEvent::SetupFailed("dns".to_string()));
    assert_eq!(p, StartPhase::Failed);
    assert!(matches!(&a[0], StartAction::Finish(Err(Error::Config(m))) if m == "dns"));
    assert_eq!(reported(&a), vec![]);
}

#[test]
fn start_ignores_events_out_of_turn() {
    let (p, a) = start_step(StartPhase::Begin, StartEvent::Built);
    assert_eq!(p, StartPhase::Begin);
    assert!(a.is_empty());
    let (p, a) = start_step(StartPhase::Done, StartEvent::TasksEnded);
    assert_eq!(p, StartPhase::Done);
    assert!(a.is_empty());
}

#[test]
fn console_writes_keep_every_byte() {
    let mut w = ConsoleWriter::default();
    let inputs: [&[u8]; 5] = [b"one\ntw", b"o\n", b"", b"three\nfour\nfi", b"ve"];
    let mut out: Vec<u8> = Vec::new();
    let mut all: Vec<u8> = Vec::new();
    for buf in inputs.iter() {
        all.extend_from_slice(buf);
        let (n, line) = w.write(buf);
        assert_eq!(n, buf.len());
        if let Some(l) = line {
            assert!(!l.contains(&b'\n'));
            out.extend_from_slice(&l);
            out.push(b'\n');
        }
    }
    out.extend_from_slice(&w.0[..]);
    assert_eq!(out, all);
}

#[test]
fn counter_totals_ignore_how_writes_are_split() {
    let mut split = Counter::new();
    split.add(u64::MAX - 1);
    split.add(5);
    let mut whole = Counter::new();
    whole.add((u64::MAX - 1).wrapping_add(5));
    assert_eq!(split.amt, whole.amt);
    assert_eq!(split.amt, 3);
}

#[test]
fn failover_error_messages() {
    assert_eq!(FailoverStep::InvalidActor.error_message(), Some("invalid actor index".to_string()));
    assert_eq!(
        FailoverStep::AllFailed.error_message(),
        Some("all outbound attempts failed".to_string())
    );
    assert_eq!(FailoverStep::LastResort.error_message(), None);
    assert_eq!(FailoverStep::Try(2).error_message(), None);
}

#[test]
fn mux_asks_connections_in_order() {
    assert_eq!(mux_step(false, 2, 0, false), MuxStep::Try(0));
    assert_eq!(mux_step(false, 2, 1, false), MuxStep::Try(1));
    assert_eq!(mux_step(false, 2, 2, false), MuxStep::Connect);
    assert_eq!(mux_step(false, 2, 1, true), MuxStep::UseStream);
    assert_eq!(mux_step(true, 2, 0, false), MuxStep::Connect);
    assert_eq!(mux_step(false, 0, 0, false), MuxStep::Connect);
}

#[test]
fn loopback_fifo_over_many_packets() {
    let mut l = Loopback::new();
    let sent: Vec<Vec<u8>> = (0..20u8).map(|i| vec![i; (i as usize) + 1]).collect();
    for p in &sent {
        l.transmit(p.clone());
    }
    for p in &sent {
        assert_eq!(&l.receive().unwrap().into_buffer(), p);
    }
    assert!(l.receive().is_none());
}

#[test]
fn reload_answers() {
    let p = "leaf.conf".to_string();
    assert_eq!(reload_result(Ok(&p), Ok(())), Ok(()));
    assert_eq!(reload_result(Ok(&p), Err("bad line".to_string())), Err(Error::Config("bad line".to_string())));
    assert_eq!(reload_result(Err(Error::NoConfigFile), Err("x".to_string())), Err(Error::NoConfigFile));
}

#[test]
fn watcher_outcomes() {
    assert_eq!(watch_outcome(Ok(())), Ok(()));
    assert_eq!(watch_outcome(Err("no such file".to_string())), Err(Error::Watcher("no such file".to_string())));
}

#[test]
fn failover_after_attempts() {
    let schedule = vec![2, 0, 1];
    assert_eq!(failover_after(AttemptOutcome::Succeeded, &schedule, 0, 3, false), FailoverNext::Done);
    let e = failover_after(AttemptOutcome::SetupFailed("dns".to_string()), &schedule, 0, 3, false);
    assert_eq!(e, FailoverNext::SetupError("dns".to_string()));
    assert_eq!(e.error_message(), Some("dns".to_string()));
    assert_eq!(
        failover_after(AttemptOutcome::Failed, &schedule, 0, 3, false),
        FailoverNext::Step(FailoverStep::Try(0))
    );
    let end = failover_after(AttemptOutcome::Failed, &schedule, 2, 3, true);
    assert_eq!(end, FailoverNext::Step(FailoverStep::AllFailed));
    assert_eq!(end.error_message(), Some("all outbound attempts failed".to_string()));
    assert_eq!(FailoverNext::Done.error_message(), None);
}

#[test]
fn new_mux_connection_kept_only_with_a_stream() {
    assert_eq!(mux_new_connection(Some(7u8)), (true, Ok(7u8)));
    assert_eq!(mux_new_connection::<u8>(None), (false, Err("new stream failed".to_string())));
}
