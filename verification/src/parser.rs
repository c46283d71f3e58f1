//! The executable parser, verified against the grammar of `crate::grammar`.

use vstd::prelude::*;

use vstd::string::StrSliceExecFns;

use crate::chars::exec_is_hex_digit_char;
use crate::chars::exec_is_name_cont_char;
use crate::chars::exec_is_name_start_char;
use crate::chars::exec_hex_digit_value;
use crate::chars::is_hex_digit_char;
use crate::error::Expected;
use crate::error::ParseError;
use crate::error::ParseErrorV;
use crate::events::exec_is_modifier_char;
use crate::events::exec_modifier_of_char;
use crate::events::is_modifier_char;
use crate::events::modifier_of_char;
use crate::events::PmuEvent;
use crate::events::PmuEventModifier;
use crate::events::PmuEventV;
use crate::events::RawEvent;
use crate::events::SymbolicEvent;
use crate::events::TracepointEvent;
use crate::grammar::hex_val;
use crate::grammar::lemma_hex_run_facts;
use crate::grammar::lemma_hex_val_monotone;
use crate::grammar::lemma_mod_run_facts;
use crate::grammar::mod_run;
use crate::grammar::modifiers_match;
use crate::grammar::name_end;
use crate::grammar::name_fail;
use crate::grammar::name_matches;
use crate::grammar::raw_body_start;
use crate::grammar::raw_event_of;
use crate::grammar::raw_fail;
use crate::grammar::raw_matches;
use crate::grammar::raw_overflow_fail;
use crate::grammar::raw_value;
use crate::grammar::spec_parse_event;
use crate::grammar::spec_parse_modifier;
use crate::grammar::spec_parse_modifiers;
use crate::grammar::suffix_fail;
use crate::grammar::suffix_matches;
use crate::grammar::suffix_mods;
use crate::grammar::symbolic_event_of;
use crate::grammar::symbolic_fail;
use crate::grammar::symbolic_matches;
use crate::grammar::tracepoint_event_of;
use crate::grammar::tracepoint_fail;
use crate::grammar::tracepoint_matches;
use crate::strutil::build_string;

verus! {

/// The characters of a string slice, one vector entry per character.
fn to_char_vec(s: &str) -> (v: Vec<char>)
    ensures
        v@ == s@,
{
    let n = s.unicode_len();
    let mut v: Vec<char> = Vec::new();
    let mut i: usize = 0;
    while i < n
        invariant
            i <= n,
            n as nat == s@.len(),
            v@ == s@.subrange(0, i as int),
        decreases n - i,
    {
        let c = s.get_char(i);
        v.push(c);
        i = i + 1;
        proof {
            assert(v@ =~= s@.subrange(0, i as int));
        }
    }
    proof {
        assert(v@ =~= s@);
    }
    v
}

/// First position at or after `start` whose character is outside the
/// modifier alphabet.
fn scan_mod_run(v: &Vec<char>, start: usize) -> (end: usize)
    requires
        start <= v@.len(),
    ensures
        start <= end <= v@.len(),
        end - start == mod_run(v@, start as int),
{
    let mut i = start;
    while i < v.len() && exec_is_modifier_char(v[i])
        invariant
            start <= i <= v@.len(),
            mod_run(v@, start as int) == i - start + mod_run(v@, i as int),
        decreases v@.len() - i,
    {
        i = i + 1;
    }
    i
}

/// First position at or after `start` whose character is outside the
/// name-continuation set.
fn scan_name_cont_run(v: &Vec<char>, start: usize) -> (end: usize)
    requires
        start <= v@.len(),
    ensures
        start <= end <= v@.len(),
        end - start == crate::grammar::name_cont_run(v@, start as int),
{
    let mut i = start;
    while i < v.len() && exec_is_name_cont_char(v[i])
        invariant
            start <= i <= v@.len(),
            crate::grammar::name_cont_run(v@, start as int) == i - start
                + crate::grammar::name_cont_run(v@, i as int),
        decreases v@.len() - i,
    {
        i = i + 1;
    }
    i
}

/// First position at or after `start` whose character is not a hexadecimal
/// digit.
fn scan_hex_run(v: &Vec<char>, start: usize) -> (end: usize)
    requires
        start <= v@.len(),
    ensures
        start <= end <= v@.len(),
        end - start == crate::grammar::hex_run(v@, start as int),
{
    let mut i = start;
    while i < v.len() && exec_is_hex_digit_char(v[i])
        invariant
            start <= i <= v@.len(),
            crate::grammar::hex_run(v@, start as int) == i - start + crate::grammar::hex_run(
                v@,
                i as int,
            ),
        decreases v@.len() - i,
    {
        i = i + 1;
    }
    i
}

/// Scan the name token expected at `i`; on success the result is the first
/// position after the token.
fn scan_name(v: &Vec<char>, i: usize) -> (r: Result<usize, ParseError>)
    requires
        i <= v@.len(),
    ensures
        name_matches(v@, i as int) ==> (r matches Ok(e) && e as int == name_end(v@, i as int)
            && i < e <= v@.len()),
        !name_matches(v@, i as int) ==> (r matches Err(e) && e@ == name_fail(v@, i as int)),
{
    if i == v.len() {
        return Err(ParseError { offset: i, found: None, expected: Expected::NameStartChar });
    }
    if !exec_is_name_start_char(v[i]) {
        return Err(
            ParseError { offset: i, found: Some(v[i]), expected: Expected::NameStartChar },
        );
    }
    let e = scan_name_cont_run(v, i + 1);
    if e == i + 1 {
        let found = if i + 1 < v.len() {
            Some(v[i + 1])
        } else {
            None
        };
        return Err(
            ParseError { offset: i + 1, found, expected: Expected::NameContinuationChar },
        );
    }
    Ok(e)
}

/// Parse the optional modifier suffix expected to fill the input from `i` to
/// its end.
fn parse_suffix(v: &Vec<char>, i: usize) -> (r: Result<Vec<PmuEventModifier>, ParseError>)
    requires
        i <= v@.len(),
    ensures
        suffix_matches(v@, i as int) ==> (r matches Ok(ms) && ms@ == suffix_mods(v@, i as int)),
        !suffix_matches(v@, i as int) ==> (r matches Err(e) && e@ == suffix_fail(v@, i as int)),
{
    if i == v.len() {
        let ms: Vec<PmuEventModifier> = Vec::new();
        proof {
            assert(ms@ =~= suffix_mods(v@, i as int));
        }
        return Ok(ms);
    }
    if v[i] != ':' {
        return Err(ParseError { offset: i, found: Some(v[i]), expected: Expected::EndOfInput });
    }
    let end = scan_mod_run(v, i + 1);
    let m = end - (i + 1);
    if m == 0 {
        let found = if i + 1 < v.len() {
            Some(v[i + 1])
        } else {
            None
        };
        return Err(ParseError { offset: i + 1, found, expected: Expected::ModifierChar });
    }
    if m > 16 || end != v.len() {
        let cap = if m <= 16 {
            m
        } else {
            16
        };
        let p = i + 1 + cap;
        let found = if p < v.len() {
            Some(v[p])
        } else {
            None
        };
        return Err(ParseError { offset: p, found, expected: Expected::EndOfInput });
    }
    proof {
        lemma_mod_run_facts(v@, i as int + 1);
    }
    let mut ms: Vec<PmuEventModifier> = Vec::new();
    let mut j = i + 1;
    while j < end
        invariant
            i + 1 <= j <= end <= v@.len(),
            end - (i + 1) == mod_run(v@, i as int + 1),
            forall|k: int| i + 1 <= k < end ==> is_modifier_char(#[trigger] v@[k]),
            ms@ == Seq::new((j - i - 1) as nat, |k: int| modifier_of_char(v@[i as int + 1 + k])),
        decreases end - j,
    {
        let mc = exec_modifier_of_char(v[j]);
        ms.push(mc);
        j = j + 1;
        proof {
            assert(ms@ =~= Seq::new(
                (j - i - 1) as nat,
                |k: int| modifier_of_char(v@[i as int + 1 + k]),
            ));
        }
    }
    proof {
        assert(ms@ =~= suffix_mods(v@, i as int));
    }
    Ok(ms)
}

/// Numeric value of the hexadecimal digits `v[start..end]`, or `None` when
/// it does not fit in 64 bits.
fn parse_hex_value(v: &Vec<char>, start: usize, end: usize) -> (r: Option<u64>)
    requires
        start <= end <= v@.len(),
        forall|j: int| start <= j < end ==> is_hex_digit_char(#[trigger] v@[j]),
    ensures
        r matches Some(x) ==> x as nat == hex_val(v@, start as int, (end - start) as int),
        r is None ==> hex_val(v@, start as int, (end - start) as int) > u64::MAX,
{
    let mut acc: u64 = 0;
    let mut j = start;
    while j < end
        invariant
            start <= j <= end <= v@.len(),
            forall|k: int| start <= k < end ==> is_hex_digit_char(#[trigger] v@[k]),
            acc as nat == hex_val(v@, start as int, (j - start) as int),
        decreases end - j,
    {
        let d = exec_hex_digit_value(v[j]);
        if acc >= 0x1000_0000_0000_0000u64 {
            proof {
                assert(hex_val(v@, start as int, (j + 1 - start) as int) == 16 * hex_val(
                    v@,
                    start as int,
                    (j - start) as int,
                ) + crate::chars::hex_digit_value(v@[j as int]));
                lemma_hex_val_monotone(
                    v@,
                    start as int,
                    (j + 1 - start) as int,
                    (end - start) as int,
                );
            }
            return None;
        }
        acc = acc * 16 + d as u64;
        j = j + 1;
    }
    Some(acc)
}

/// The raw-event alternative, tried against the whole input.
fn raw_alt(v: &Vec<char>) -> (r: Result<PmuEvent, ParseError>)
    ensures
        raw_matches(v@) && raw_value(v@) <= u64::MAX ==> (r matches Ok(e) && e@ == raw_event_of(
            v@,
        )),
        raw_matches(v@) && raw_value(v@) > u64::MAX ==> (r matches Err(e) && e@
            == raw_overflow_fail(v@) && e.expected == Expected::RawValueIn64Bits),
        !raw_matches(v@) ==> (r matches Err(e) && e@ == raw_fail(v@) && e.expected
            != Expected::RawValueIn64Bits),
{
    if v.len() == 0 {
        return Err(ParseError { offset: 0, found: None, expected: Expected::RawMarker });
    }
    if v[0] != 'r' {
        return Err(ParseError { offset: 0, found: Some(v[0]), expected: Expected::RawMarker });
    }
    let b: usize = if v.len() >= 3 && v[1] == '0' && v[2] == 'x' {
        3
    } else {
        1
    };
    proof {
        assert(b as int == raw_body_start(v@));
    }
    let hend = scan_hex_run(v, b);
    if hend == b {
        let found = if b < v.len() {
            Some(v[b])
        } else {
            None
        };
        return Err(ParseError { offset: b, found, expected: Expected::HexDigit });
    }
    let ms = match parse_suffix(v, hend) {
        Err(e) => {
            return Err(e);
        },
        Ok(ms) => ms,
    };
    proof {
        lemma_hex_run_facts(v@, b as int);
    }
    match parse_hex_value(v, b, hend) {
        None => Err(ParseError { offset: b, found: None, expected: Expected::RawValueIn64Bits }),
        Some(value) => Ok(PmuEvent::RawEvent(RawEvent { value, modifier: ms })),
    }
}

/// The tracepoint alternative, tried against the whole input.
fn tracepoint_alt(v: &Vec<char>) -> (r: Result<PmuEvent, ParseError>)
    ensures
        tracepoint_matches(v@) ==> (r matches Ok(e) && e@ == tracepoint_event_of(v@)),
        !tracepoint_matches(v@) ==> (r matches Err(e) && e@ == tracepoint_fail(v@)),
{
    let e1 = match scan_name(v, 0) {
        Err(e) => {
            return Err(e);
        },
        Ok(x) => x,
    };
    if e1 == v.len() || v[e1] != ':' {
        let found = if e1 < v.len() {
            Some(v[e1])
        } else {
            None
        };
        return Err(ParseError { offset: e1, found, expected: Expected::Colon });
    }
    let e2 = match scan_name(v, e1 + 1) {
        Err(e) => {
            return Err(e);
        },
        Ok(x) => x,
    };
    let ms = match parse_suffix(v, e2) {
        Err(e) => {
            return Err(e);
        },
        Ok(ms) => ms,
    };
    let category = build_string(v, 0, e1);
    let name = build_string(v, e1 + 1, e2);
    Ok(PmuEvent::TracepointEvent(TracepointEvent { category, name, modifier: ms }))
}

/// The symbolic alternative, tried against the whole input.
fn symbolic_alt(v: &Vec<char>) -> (r: Result<PmuEvent, ParseError>)
    ensures
        symbolic_matches(v@) ==> (r matches Ok(e) && e@ == symbolic_event_of(v@)),
        !symbolic_matches(v@) ==> (r matches Err(e) && e@ == symbolic_fail(v@)),
{
    let e1 = match scan_name(v, 0) {
        Err(e) => {
            return Err(e);
        },
        Ok(x) => x,
    };
    let ms = match parse_suffix(v, e1) {
        Err(e) => {
            return Err(e);
        },
        Ok(ms) => ms,
    };
    let name = build_string(v, 0, e1);
    Ok(PmuEvent::SymbolicEvent(SymbolicEvent { name, modifier: ms }))
}

/// Parse one whole specifier string: the raw, tracepoint and symbolic
/// alternatives are tried in that order, and the first that consumes the
/// entire input wins.  A raw event whose value is over 64 bits is reported
/// as its own error, never silently truncated.  The result is a function of
/// the input alone: parsing the same string twice gives equal results.
pub fn parse_event(s: &str) -> (r: Result<PmuEvent, ParseError>)
    ensures
        r matches Ok(e) ==> (spec_parse_event(s@) matches Ok(ev) && ev == e@),
        r matches Err(e) ==> (spec_parse_event(s@) matches Err(ev) && ev == e@),
        r is Ok <==> spec_parse_event(s@) is Ok,
{
    let v = to_char_vec(s);
    let er = match raw_alt(&v) {
        Ok(e) => {
            return Ok(e);
        },
        Err(e) => {
            if e.expected == Expected::RawValueIn64Bits {
                return Err(e);
            }
            e
        },
    };
    let et = match tracepoint_alt(&v) {
        Ok(e) => {
            return Ok(e);
        },
        Err(e) => e,
    };
    let es = match symbolic_alt(&v) {
        Ok(e) => {
            return Ok(e);
        },
        Err(e) => e,
    };
    if er.offset >= et.offset && er.offset >= es.offset {
        Err(er)
    } else if et.offset >= es.offset {
        Err(et)
    } else {
        Err(es)
    }
}

/// Parse one whole string as a single modifier character.
pub fn modifier(s: &str) -> (r: Result<PmuEventModifier, ParseError>)
    ensures
        r matches Ok(m) ==> (spec_parse_modifier(s@) matches Ok(mv) && mv == m),
        r matches Err(e) ==> (spec_parse_modifier(s@) matches Err(ev) && ev == e@),
        r is Ok <==> (s@.len() == 1 && is_modifier_char(s@[0])),
{
    let v = to_char_vec(s);
    if v.len() == 0 {
        return Err(ParseError { offset: 0, found: None, expected: Expected::ModifierChar });
    }
    if !exec_is_modifier_char(v[0]) {
        return Err(
            ParseError { offset: 0, found: Some(v[0]), expected: Expected::ModifierChar },
        );
    }
    if v.len() > 1 {
        return Err(ParseError { offset: 1, found: Some(v[1]), expected: Expected::EndOfInput });
    }
    Ok(exec_modifier_of_char(v[0]))
}

/// Parse one whole string as a mandatory modifier suffix: a colon, then one
/// to sixteen modifier characters.
pub fn modifiers(s: &str) -> (r: Result<Vec<PmuEventModifier>, ParseError>)
    ensures
        r matches Ok(ms) ==> (spec_parse_modifiers(s@) matches Ok(mv) && mv == ms@),
        r matches Err(e) ==> (spec_parse_modifiers(s@) matches Err(ev) && ev == e@),
        r is Ok <==> modifiers_match(s@),
{
    let v = to_char_vec(s);
    if v.len() == 0 {
        return Err(ParseError { offset: 0, found: None, expected: Expected::Colon });
    }
    if v[0] != ':' {
        return Err(ParseError { offset: 0, found: Some(v[0]), expected: Expected::Colon });
    }
    match parse_suffix(&v, 0) {
        Ok(ms) => Ok(ms),
        Err(e) => Err(e),
    }
}

/// Parse the name token that opens the input; on success the result carries
/// the token's characters and the number of characters consumed.
pub fn parse_name(s: &str) -> (r: Result<(String, usize), ParseError>)
    ensures
        name_matches(s@, 0) ==> (r matches Ok(p) && p.0@ == s@.subrange(0, name_end(s@, 0))
            && p.1 as int == name_end(s@, 0)),
        !name_matches(s@, 0) ==> (r matches Err(e) && e@ == name_fail(s@, 0)),
{
    let v = to_char_vec(s);
    match scan_name(&v, 0) {
        Err(e) => Err(e),
        Ok(e1) => {
            let name = build_string(&v, 0, e1);
            Ok((name, e1))
        },
    }
}

/// Try only the raw-event alternative against the whole input.
pub fn parse_raw_event(s: &str) -> (r: Result<PmuEvent, ParseError>)
    ensures
        raw_matches(s@) && raw_value(s@) <= u64::MAX ==> (r matches Ok(e) && e@ == raw_event_of(
            s@,
        )),
        raw_matches(s@) && raw_value(s@) > u64::MAX ==> (r matches Err(e) && e@
            == raw_overflow_fail(s@)),
        !raw_matches(s@) ==> (r matches Err(e) && e@ == raw_fail(s@)),
{
    let v = to_char_vec(s);
    raw_alt(&v)
}

/// Try only the tracepoint alternative against the whole input.
pub fn parse_tracepoint_event(s: &str) -> (r: Result<PmuEvent, ParseError>)
    ensures
        tracepoint_matches(s@) ==> (r matches Ok(e) && e@ == tracepoint_event_of(s@)),
        !tracepoint_matches(s@) ==> (r matches Err(e) && e@ == tracepoint_fail(s@)),
{
    let v = to_char_vec(s);
    tracepoint_alt(&v)
}

/// Try only the symbolic alternative against the whole input.
pub fn parse_symbolic_event(s: &str) -> (r: Result<PmuEvent, ParseError>)
    ensures
        symbolic_matches(s@) ==> (r matches Ok(e) && e@ == symbolic_event_of(s@)),
        !symbolic_matches(s@) ==> (r matches Err(e) && e@ == symbolic_fail(s@)),
{
    let v = to_char_vec(s);
    symbolic_alt(&v)
}

} // verus!
