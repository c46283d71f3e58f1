use perf_events::modifier;
use perf_events::modifiers;
use perf_events::parse_event;
use perf_events::parse_raw_event;
use perf_events::parse_symbolic_event;
use perf_events::parse_tracepoint_event;
use perf_events::PmuEvent;
use perf_events::PmuEventModifier;
use perf_events::RawEvent;
use perf_events::SymbolicEvent;
use perf_events::TracepointEvent;

#[test]
fn test_modifier() {
    assert_eq!(modifier("u").unwrap(), PmuEventModifier::UserSpaceCounting);
    assert_eq!(modifier("k").unwrap(), PmuEventModifier::KernelCounting);
    assert_eq!(modifier("h").unwrap(), PmuEventModifier::HypervisorCounting);
    assert_eq!(modifier("I").unwrap(), PmuEventModifier::NonIdleCounting);
    assert_eq!(modifier("G").unwrap(), PmuEventModifier::GuestCounting);
    assert_eq!(modifier("H").unwrap(), PmuEventModifier::HostCounting);
    assert_eq!(modifier("p").unwrap(), PmuEventModifier::PreciseLevel);
    assert_eq!(modifier("P").unwrap(), PmuEventModifier::UseMaxPreciseLevel);
    assert_eq!(modifier("S").unwrap(), PmuEventModifier::ReadSampleValue);
    assert_eq!(modifier("D").unwrap(), PmuEventModifier::Pin);
    assert_eq!(modifier("W").unwrap(), PmuEventModifier::GroupWeak);
    assert_eq!(modifier("e").unwrap(), PmuEventModifier::GroupExclusive);
    assert_eq!(modifier("b").unwrap(), PmuEventModifier::BpfAggregation);
    assert_eq!(modifier("x").is_err(), true);
}

#[test]
fn test_modifiers() {
    assert_eq!(
        modifiers(":uppp").unwrap(),
        vec![
            PmuEventModifier::UserSpaceCounting,
            PmuEventModifier::PreciseLevel,
            PmuEventModifier::PreciseLevel,
            PmuEventModifier::PreciseLevel
        ]
    );
    let result = modifiers(":uvh");
    let formatted_err = result.unwrap_err().message();
    assert_eq!(
        "Parse error at 2
Unexpected `v`
Expected end of input
",
        &formatted_err
    );
}

#[test]
fn test_parse_symbolic_event() {
    assert_eq!(
        parse_symbolic_event("cpu-cycles:P").unwrap(),
        PmuEvent::SymbolicEvent(SymbolicEvent {
            name: "cpu-cycles".to_string(),
            modifier: vec![PmuEventModifier::UseMaxPreciseLevel]
        })
    );
}

#[test]
fn test_parse_tracepoint_event() {
    assert_eq!(
        parse_tracepoint_event("sched:sched_switch:P").unwrap(),
        PmuEvent::TracepointEvent(TracepointEvent {
            category: "sched".to_string(),
            name: "sched_switch".to_string(),
            modifier: vec![PmuEventModifier::UseMaxPreciseLevel]
        })
    );
}

#[test]
fn test_raw_event() {
    assert_eq!(
        parse_raw_event("r0xdeadbeefcafe:u").unwrap(),
        PmuEvent::RawEvent(RawEvent {
            value: 0xdeadbeefcafe,
            modifier: vec![PmuEventModifier::UserSpaceCounting]
        })
    );

    assert_eq!(
        parse_raw_event("r0500").unwrap(),
        PmuEvent::RawEvent(RawEvent {
            value: 0x0500,
            modifier: vec![]
        })
    );
}

#[test]
fn test_event() {
    assert_eq!(
        parse_event("cpu-cycles:P").unwrap(),
        PmuEvent::SymbolicEvent(SymbolicEvent {
            name: "cpu-cycles".to_string(),
            modifier: vec![PmuEventModifier::UseMaxPreciseLevel]
        })
    );

    assert_eq!(
        parse_event("sched:sched_switch:P").unwrap(),
        PmuEvent::TracepointEvent(TracepointEvent {
            category: "sched".to_string(),
            name: "sched_switch".to_string(),
            modifier: vec![PmuEventModifier::UseMaxPreciseLevel]
        })
    );

    assert_eq!(
        parse_event("r0xdeadbeefcafe:u").unwrap(),
        PmuEvent::RawEvent(RawEvent {
            value: 0xdeadbeefcafe,
            modifier: vec![PmuEventModifier::UserSpaceCounting]
        })
    );
}
