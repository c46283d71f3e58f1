use perf_events::modifier;
use perf_events::modifiers;
use perf_events::parse_event;
use perf_events::parse_name;
use perf_events::parse_raw_event;
use perf_events::Expected;
use perf_events::PmuEvent;
use perf_events::RawEvent;

#[test]
fn invalid_modifier_offset_and_found() {
    let e = modifiers(":uvh").unwrap_err();
    assert_eq!(e.offset, 2);
    assert_eq!(e.found, Some('v'));
    assert_eq!(e.expected, Expected::EndOfInput);
}

#[test]
fn missing_colon_before_modifiers() {
    let e = modifiers("uppp").unwrap_err();
    assert_eq!(e.offset, 0);
    assert_eq!(e.found, Some('u'));
    assert_eq!(e.expected, Expected::Colon);
    let e = modifiers("").unwrap_err();
    assert_eq!(e.offset, 0);
    assert_eq!(e.found, None);
    assert_eq!(e.expected, Expected::Colon);
}

#[test]
fn empty_suffix_after_colon() {
    let e = modifiers(":").unwrap_err();
    assert_eq!(e.offset, 1);
    assert_eq!(e.found, None);
    assert_eq!(e.expected, Expected::ModifierChar);
    let e = modifiers(":x").unwrap_err();
    assert_eq!(e.offset, 1);
    assert_eq!(e.found, Some('x'));
    assert_eq!(e.expected, Expected::ModifierChar);
}

#[test]
fn single_modifier_with_trailing_input() {
    let e = modifier("uk").unwrap_err();
    assert_eq!(e.offset, 1);
    assert_eq!(e.found, Some('k'));
    assert_eq!(e.expected, Expected::EndOfInput);
    let e = modifier("").unwrap_err();
    assert_eq!(e.offset, 0);
    assert_eq!(e.found, None);
    assert_eq!(e.expected, Expected::ModifierChar);
}

#[test]
fn raw_event_without_digits() {
    let e = parse_raw_event("r").unwrap_err();
    assert_eq!(e.offset, 1);
    assert_eq!(e.found, None);
    assert_eq!(e.expected, Expected::HexDigit);
    let e = parse_raw_event("r0xzz").unwrap_err();
    assert_eq!(e.offset, 3);
    assert_eq!(e.found, Some('z'));
    assert_eq!(e.expected, Expected::HexDigit);
}

#[test]
fn raw_value_over_64_bits() {
    // Seventeen significant digits: one too many for 64 bits.
    let e = parse_event("r1ffffffffffffffff").unwrap_err();
    assert_eq!(e.expected, Expected::RawValueIn64Bits);
    assert_eq!(e.offset, 1);
    // Sixteen digits still fit.
    assert_eq!(
        parse_event("rffffffffffffffff").unwrap(),
        PmuEvent::RawEvent(RawEvent {
            value: u64::MAX,
            modifier: vec![]
        })
    );
    // Leading zeros do not overflow: only the value counts.
    assert_eq!(
        parse_event("r00000000000000000001").unwrap(),
        PmuEvent::RawEvent(RawEvent {
            value: 1,
            modifier: vec![]
        })
    );
}

#[test]
fn name_token_violations() {
    // `!` may continue a name but not start one.
    let e = parse_name("!ab").unwrap_err();
    assert_eq!(e.offset, 0);
    assert_eq!(e.found, Some('!'));
    assert_eq!(e.expected, Expected::NameStartChar);
    // A single-character name never matches: a continuation is required.
    let e = parse_name("a").unwrap_err();
    assert_eq!(e.offset, 1);
    assert_eq!(e.found, None);
    assert_eq!(e.expected, Expected::NameContinuationChar);
}

#[test]
fn parse_name_consumes_the_token() {
    let (name, used) = parse_name("cpu-cycles:P").unwrap();
    assert_eq!(name, "cpu-cycles");
    assert_eq!(used, 10);
}

#[test]
fn dispatch_error_on_empty_input() {
    let e = parse_event("").unwrap_err();
    assert_eq!(e.offset, 0);
    assert_eq!(e.found, None);
    assert_eq!(e.expected, Expected::RawMarker);
}

#[test]
fn dispatch_error_prefers_farthest_alternative() {
    // The tracepoint alternative gets past `ab:` before failing, so its
    // error speaks, not the raw alternative's failure at offset zero.
    let e = parse_event("ab:").unwrap_err();
    assert_eq!(e.offset, 3);
    assert_eq!(e.expected, Expected::NameStartChar);
}

#[test]
fn two_digit_offset_in_message() {
    // Sixteen modifiers parse; the seventeenth character is reported.
    let e = modifiers(":uuuuuuuuuuuuuuuuu").unwrap_err();
    assert_eq!(e.offset, 17);
    assert_eq!(
        e.message(),
        "Parse error at 17\nUnexpected `u`\nExpected end of input\n"
    );
}
