use sentinel::fleet::{Fleet, FleetSlot};
use sentinel::http::{HttpCodesRaw, HttpSentinel, HttpSentinelConfig, HttpSentinelError};
use sentinel::sentinel::{Sentinel, SentinelEvent, SentinelPhase, SentinelStep};

fn http_sentinel(notifiers: Vec<String>) -> Sentinel<HttpSentinel> {
    let config = HttpSentinelConfig {
        url: String::from("http://localhost/"),
        codes: HttpCodesRaw::Success(vec![200]),
    };
    HttpSentinel::create_sentinel(config, 1000, notifiers, String::from("frontend")).unwrap()
}

fn code_err(code: u16) -> HttpSentinelError {
    HttpSentinelError::NonSuccessfulHttpCode { code }
}

fn tick(
    s: &mut Sentinel<HttpSentinel>,
    outcome: Result<u16, HttpSentinelError>,
) -> Vec<sentinel::sentinel::Delivery> {
    let step = s.poll_event(SentinelEvent::ProbeReady(outcome));
    let deliveries = match step {
        SentinelStep::Emitted(d) => d,
        _ => panic!("probe completion must emit"),
    };
    match s.poll_event(SentinelEvent::TimerElapsed) {
        SentinelStep::StartProbe => {}
        _ => panic!("elapsed timer must start a probe"),
    }
    deliveries
}

#[test]
fn fresh_sentinel_probes_immediately() {
    let s = http_sentinel(vec![String::from("n1")]);
    assert!(matches!(s.phase, SentinelPhase::Checking));
    assert!(s.active_error.is_none());
    assert_eq!(s.interval, 1000);
    assert_eq!(s.resource_name, "frontend");
}

#[test]
fn scenario_ok_then_error_then_recovery() {
    // Outcomes Ok, Ok, Err(404), Err(404), Ok give alerts
    // none, none, new, none, resolved.
    let mut s = http_sentinel(vec![String::from("n1")]);

    assert!(tick(&mut s, Ok(200)).is_empty());
    assert!(tick(&mut s, Ok(200)).is_empty());

    let new_alert = tick(&mut s, Err(code_err(404)));
    assert_eq!(new_alert.len(), 1);
    assert_eq!(new_alert[0].notifier, "n1");
    assert_eq!(new_alert[0].message.title, "Error (new) frontend");
    assert_eq!(
        new_alert[0].message.body,
        "Resource frontend report new error:\nNon-successful HTTP code: 404"
    );

    assert!(tick(&mut s, Err(code_err(404))).is_empty());

    let resolved = tick(&mut s, Ok(200));
    assert_eq!(resolved.len(), 1);
    assert_eq!(resolved[0].message.title, "Error (resolved) frontend");
    assert_eq!(
        resolved[0].message.body,
        "Resource frontend resolved error:\nNon-successful HTTP code: 404"
    );
    assert!(s.active_error.is_none());
}

#[test]
fn scenario_error_then_different_error() {
    // Err(500) then Err(503) give a new alert then a changed alert.
    let mut s = http_sentinel(vec![String::from("n1")]);

    let first = tick(&mut s, Err(code_err(500)));
    assert_eq!(first.len(), 1);
    assert_eq!(first[0].message.title, "Error (new) frontend");

    let second = tick(&mut s, Err(code_err(503)));
    assert_eq!(second.len(), 1);
    assert_eq!(second[0].message.title, "Error (changed) frontend");
    assert_eq!(
        second[0].message.body,
        "Resource frontend report changed error:\n\
         Old error: Non-successful HTTP code: 500\n\
         New error: Non-successful HTTP code: 503"
    );
    assert_eq!(s.active_error, Some(code_err(503)));
}

#[test]
fn repeated_equivalent_error_alerts_once() {
    let mut s = http_sentinel(vec![String::from("n1")]);
    assert_eq!(tick(&mut s, Err(code_err(500))).len(), 1);
    for _ in 0..5 {
        assert!(tick(&mut s, Err(code_err(500))).is_empty());
    }
    // Two transport errors also count as the same error.
    let transport = |text: &str| HttpSentinelError::ReqwestHttpError { err: String::from(text) };
    assert_eq!(tick(&mut s, Err(transport("connection refused"))).len(), 1);
    assert!(tick(&mut s, Err(transport("dns failure"))).is_empty());
}

#[test]
fn alert_fans_out_to_every_notifier() {
    let names = vec![String::from("a"), String::from("b"), String::from("c")];
    let mut s = http_sentinel(names.clone());
    let deliveries = tick(&mut s, Err(code_err(404)));
    assert_eq!(deliveries.len(), 3);
    for (i, d) in deliveries.iter().enumerate() {
        assert_eq!(d.notifier, names[i]);
        assert_eq!(d.message.title, "Error (new) frontend");
    }
}

#[test]
fn probe_fault_stops_only_its_own_slot() {
    // One resource's checker always infra-faults; its sibling keeps ticking
    // and alerting correctly.
    let faulty = http_sentinel(vec![String::from("n1")]);
    let healthy = http_sentinel(vec![String::from("n1")]);
    let mut fleet = Fleet {
        slots: vec![
            FleetSlot { sentinel: faulty, stopped: false },
            FleetSlot { sentinel: healthy, stopped: false },
        ],
    };

    let step = fleet.dispatch(0, SentinelEvent::ProbeFault(String::from("transport torn down")));
    match step {
        SentinelStep::Stopped(reason) => assert_eq!(reason, "transport torn down"),
        _ => panic!("a probe fault must stop the sentinel"),
    }
    assert!(fleet.slots[0].stopped);
    assert!(!fleet.slots[1].stopped);

    for _ in 0..10 {
        match fleet.dispatch(1, SentinelEvent::ProbeReady(Ok(200))) {
            SentinelStep::Emitted(d) => assert!(d.is_empty()),
            _ => panic!("probe completion must emit"),
        }
        match fleet.dispatch(1, SentinelEvent::TimerElapsed) {
            SentinelStep::StartProbe => {}
            _ => panic!("elapsed timer must start a probe"),
        }
    }
    assert!(!fleet.slots[1].stopped);
    assert!(fleet.slots[1].sentinel.active_error.is_none());
    assert!(fleet.slots[0].stopped);
}

#[test]
fn pending_events_change_nothing() {
    let mut s = http_sentinel(vec![String::from("n1")]);
    assert!(matches!(s.poll_event(SentinelEvent::ProbePending), SentinelStep::Pending));
    assert!(matches!(s.phase, SentinelPhase::Checking));
    assert!(matches!(
        s.poll_event(SentinelEvent::ProbeReady(Ok(200))),
        SentinelStep::Emitted(_)
    ));
    assert!(matches!(s.phase, SentinelPhase::Waiting));
    assert!(matches!(s.poll_event(SentinelEvent::TimerPending), SentinelStep::Pending));
    assert!(matches!(s.phase, SentinelPhase::Waiting));
}

#[test]
fn timer_fault_stops_the_sentinel() {
    let mut s = http_sentinel(vec![String::from("n1")]);
    assert!(matches!(
        s.poll_event(SentinelEvent::ProbeReady(Ok(200))),
        SentinelStep::Emitted(_)
    ));
    match s.poll_event(SentinelEvent::TimerFault(String::from("timer broken"))) {
        SentinelStep::Stopped(reason) => assert_eq!(reason, "timer broken"),
        _ => panic!("a timer fault must stop the sentinel"),
    }
}
