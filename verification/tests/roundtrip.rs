use perf_events::modifiers;
use perf_events::parse_event;
use perf_events::to_specifier;
use perf_events::PmuEvent;
use perf_events::PmuEventModifier;
use perf_events::RawEvent;
use perf_events::SymbolicEvent;
use perf_events::TracepointEvent;

#[test]
fn round_trip_symbolic() {
    let e = parse_event("cpu-cycles:P").unwrap();
    let s = to_specifier(&e).unwrap();
    assert_eq!(s, "cpu-cycles:P");
    assert_eq!(parse_event(&s).unwrap(), e);
}

#[test]
fn round_trip_tracepoint() {
    let e = parse_event("sched:sched_switch:P").unwrap();
    let s = to_specifier(&e).unwrap();
    assert_eq!(s, "sched:sched_switch:P");
    assert_eq!(parse_event(&s).unwrap(), e);
}

#[test]
fn round_trip_raw() {
    // The `0x` prefix and leading zeros are not part of the value, so the
    // writing is canonical, but it reads back as the same event.
    let e = parse_event("r0xdeadbeefcafe:u").unwrap();
    let s = to_specifier(&e).unwrap();
    assert_eq!(s, "rdeadbeefcafe:u");
    assert_eq!(parse_event(&s).unwrap(), e);

    let e = parse_event("r0500").unwrap();
    let s = to_specifier(&e).unwrap();
    assert_eq!(s, "r500");
    assert_eq!(parse_event(&s).unwrap(), e);

    let e = parse_event("r0x0").unwrap();
    let s = to_specifier(&e).unwrap();
    assert_eq!(s, "r0");
    assert_eq!(parse_event(&s).unwrap(), e);
}

#[test]
fn grouped_event_has_no_specifier() {
    let group = PmuEvent::GroupedEvent(vec![
        PmuEvent::RawEvent(RawEvent {
            value: 1,
            modifier: vec![],
        }),
        PmuEvent::SymbolicEvent(SymbolicEvent {
            name: "cpu-cycles".to_string(),
            modifier: vec![],
        }),
    ]);
    assert_eq!(to_specifier(&group), None);
}

#[test]
fn parsing_is_deterministic() {
    let inputs = [
        "cpu-cycles:P",
        "sched:sched_switch:P",
        "r0xdeadbeefcafe:u",
        "r0500",
        ":uvh",
        "not a specifier",
    ];
    for input in inputs {
        assert_eq!(parse_event(input), parse_event(input));
    }
}

#[test]
fn modifier_suffix_boundary() {
    // Exactly sixteen modifier characters parse.
    let sixteen = ":ukhIGHpPSDWebuuu";
    assert_eq!(modifiers(sixteen).unwrap().len(), 16);
    let e = parse_event("r05:ukhIGHpPSDWebuuu").unwrap();
    match e {
        PmuEvent::RawEvent(re) => assert_eq!(re.modifier.len(), 16),
        _ => panic!("expected a raw event"),
    }
    // Seventeen or more are refused as a suffix.  (The same characters may
    // still read as something else entirely: seventeen modifier letters
    // after `r05:` form a valid tracepoint name, which then wins.)
    let seventeen = ":ukhIGHpPSDWebuuuu";
    assert!(modifiers(seventeen).is_err());
    let e = parse_event("r05:ukhIGHpPSDWebuuuu").unwrap();
    assert!(matches!(e, PmuEvent::TracepointEvent(_)));
}

#[test]
fn unicode_letters_open_names() {
    // Name characters go by the Unicode letter and number categories, not
    // by ASCII alone.
    let e = parse_event("zähler:u").unwrap();
    assert_eq!(
        e,
        PmuEvent::SymbolicEvent(SymbolicEvent {
            name: "zähler".to_string(),
            modifier: vec![PmuEventModifier::UserSpaceCounting]
        })
    );
}

#[test]
fn full_input_backtracking_across_alternatives() {
    // The raw alternative reads `r05` but does not reach the end, so the
    // whole input falls through to the symbolic alternative.
    let e = parse_event("r05xx").unwrap();
    assert_eq!(
        e,
        PmuEvent::SymbolicEvent(SymbolicEvent {
            name: "r05xx".to_string(),
            modifier: vec![]
        })
    );
    // With a valid suffix the raw alternative consumes everything and wins
    // over the symbolic reading of the same characters.
    let e = parse_event("r05:u").unwrap();
    assert_eq!(
        e,
        PmuEvent::RawEvent(RawEvent {
            value: 5,
            modifier: vec![PmuEventModifier::UserSpaceCounting]
        })
    );
    // Ordered choice: a tracepoint reading beats the symbolic one.
    let e = parse_event("aa:bb").unwrap();
    assert_eq!(
        e,
        PmuEvent::TracepointEvent(TracepointEvent {
            category: "aa".to_string(),
            name: "bb".to_string(),
            modifier: vec![]
        })
    );
}

#[test]
fn modifier_order_and_duplicates_are_kept() {
    let ms = modifiers(":uku").unwrap();
    assert_eq!(
        ms,
        vec![
            PmuEventModifier::UserSpaceCounting,
            PmuEventModifier::KernelCounting,
            PmuEventModifier::UserSpaceCounting
        ]
    );
}
