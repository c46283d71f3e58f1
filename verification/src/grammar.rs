//! The specifier grammar, stated mathematically.
//!
//! Three alternatives are tried in a fixed order against the whole input:
//! raw event, tracepoint event, symbolic event.  An alternative matches only
//! if it consumes the entire input.  Each scanning step is greedy: a token
//! takes every character its class admits, and the character after the run
//! (if any) is therefore outside the class.

use vstd::prelude::*;

use crate::chars::hex_digit_value;
use crate::chars::is_hex_digit_char;
use crate::chars::is_name_cont_char;
use crate::chars::is_name_start_char;
use crate::error::Expected;
use crate::error::ParseErrorV;
use crate::events::char_of_modifier;
use crate::events::is_modifier_char;
use crate::events::modifier_of_char;
use crate::events::PmuEventModifier;
use crate::events::PmuEventV;

verus! {

/// The smaller of two numbers.
pub open spec fn spec_min(a: int, b: int) -> int {
    if a <= b {
        a
    } else {
        b
    }
}

/// Length of the run of modifier characters starting at `i`.
pub open spec fn mod_run(s: Seq<char>, i: int) -> int
    decreases s.len() - i,
{
    if 0 <= i < s.len() && is_modifier_char(s[i]) {
        1 + mod_run(s, i + 1)
    } else {
        0
    }
}

/// Length of the run of name-continuation characters starting at `i`.
pub open spec fn name_cont_run(s: Seq<char>, i: int) -> int
    decreases s.len() - i,
{
    if 0 <= i < s.len() && is_name_cont_char(s[i]) {
        1 + name_cont_run(s, i + 1)
    } else {
        0
    }
}

/// Length of the run of hexadecimal digits starting at `i`.
pub open spec fn hex_run(s: Seq<char>, i: int) -> int
    decreases s.len() - i,
{
    if 0 <= i < s.len() && is_hex_digit_char(s[i]) {
        1 + hex_run(s, i + 1)
    } else {
        0
    }
}

/// Value of the `n` hexadecimal digits of `s` starting at `i`, most
/// significant digit first.
pub open spec fn hex_val(s: Seq<char>, i: int, n: int) -> nat
    decreases n,
{
    if n <= 0 {
        0
    } else {
        (16 * hex_val(s, i, n - 1) + hex_digit_value(s[i + n - 1])) as nat
    }
}

/// A name token stands at `i`: a name-start character followed by at least
/// one name-continuation character (a name is at least two characters long).
pub open spec fn name_matches(s: Seq<char>, i: int) -> bool {
    &&& 0 <= i < s.len()
    &&& is_name_start_char(s[i])
    &&& name_cont_run(s, i + 1) >= 1
}

/// First position after the name token starting at `i`.
pub open spec fn name_end(s: Seq<char>, i: int) -> int {
    i + 1 + name_cont_run(s, i + 1)
}

/// From `i` the input carries an optional modifier suffix and then ends:
/// either `i` is already the end, or a `:` stands there followed by one to
/// sixteen modifier characters that reach the end.
pub open spec fn suffix_matches(s: Seq<char>, i: int) -> bool {
    ||| i == s.len()
    ||| {
        &&& 0 <= i < s.len()
        &&& s[i] == ':'
        &&& 1 <= mod_run(s, i + 1) <= 16
        &&& i + 1 + mod_run(s, i + 1) == s.len()
    }
}

/// The modifiers the suffix at `i` carries, in parse order.
pub open spec fn suffix_mods(s: Seq<char>, i: int) -> Seq<PmuEventModifier> {
    if i == s.len() {
        Seq::empty()
    } else {
        Seq::new(mod_run(s, i + 1) as nat, |k: int| modifier_of_char(s[i + 1 + k]))
    }
}

/// Where the hexadecimal digits of a raw event begin: after `r0x` when the
/// optional `0x` stands there, else right after the `r`.
pub open spec fn raw_body_start(s: Seq<char>) -> int {
    if s.len() >= 3 && s[1] == '0' && s[2] == 'x' {
        3
    } else {
        1
    }
}

/// The raw-event alternative matches the whole input: `r`, an optional `0x`,
/// at least one hexadecimal digit, then the modifier suffix up to the end.
pub open spec fn raw_matches(s: Seq<char>) -> bool {
    &&& s.len() >= 1
    &&& s[0] == 'r'
    &&& hex_run(s, raw_body_start(s)) >= 1
    &&& suffix_matches(s, raw_body_start(s) + hex_run(s, raw_body_start(s)))
}

/// The numeric value the raw event's digits denote (unbounded; whether it
/// fits in 64 bits is checked separately).
pub open spec fn raw_value(s: Seq<char>) -> nat {
    hex_val(s, raw_body_start(s), hex_run(s, raw_body_start(s)))
}

/// The modifiers of a raw event: those of the suffix after its digits.
pub open spec fn raw_mods(s: Seq<char>) -> Seq<PmuEventModifier> {
    suffix_mods(s, raw_body_start(s) + hex_run(s, raw_body_start(s)))
}

/// The event a matching raw alternative denotes.
pub open spec fn raw_event_of(s: Seq<char>) -> PmuEventV
    recommends
        raw_matches(s),
        raw_value(s) <= u64::MAX,
{
    PmuEventV::Raw { value: raw_value(s) as u64, modifier: raw_mods(s) }
}

/// The tracepoint alternative matches the whole input:
/// name, `:`, name, then the modifier suffix up to the end.
pub open spec fn tracepoint_matches(s: Seq<char>) -> bool {
    &&& name_matches(s, 0)
    &&& name_end(s, 0) < s.len()
    &&& s[name_end(s, 0)] == ':'
    &&& name_matches(s, name_end(s, 0) + 1)
    &&& suffix_matches(s, name_end(s, name_end(s, 0) + 1))
}

/// The event a matching tracepoint alternative denotes.
pub open spec fn tracepoint_event_of(s: Seq<char>) -> PmuEventV
    recommends
        tracepoint_matches(s),
{
    let e1 = name_end(s, 0);
    let e2 = name_end(s, e1 + 1);
    PmuEventV::Tracepoint {
        category: s.subrange(0, e1),
        name: s.subrange(e1 + 1, e2),
        modifier: suffix_mods(s, e2),
    }
}

/// The symbolic alternative matches the whole input: a name, then the
/// modifier suffix up to the end.
pub open spec fn symbolic_matches(s: Seq<char>) -> bool {
    &&& name_matches(s, 0)
    &&& suffix_matches(s, name_end(s, 0))
}

/// The event a matching symbolic alternative denotes.
pub open spec fn symbolic_event_of(s: Seq<char>) -> PmuEventV
    recommends
        symbolic_matches(s),
{
    PmuEventV::Symbolic {
        name: s.subrange(0, name_end(s, 0)),
        modifier: suffix_mods(s, name_end(s, 0)),
    }
}

/// Failure data of a name token expected at `i`.
pub open spec fn name_fail(s: Seq<char>, i: int) -> ParseErrorV
    recommends
        0 <= i <= s.len(),
        !name_matches(s, i),
{
    if i == s.len() {
        ParseErrorV { offset: i, found: None, expected: Expected::NameStartChar }
    } else if !is_name_start_char(s[i]) {
        ParseErrorV { offset: i, found: Some(s[i]), expected: Expected::NameStartChar }
    } else {
        ParseErrorV {
            offset: i + 1,
            found: if i + 1 < s.len() {
                Some(s[i + 1])
            } else {
                None
            },
            expected: Expected::NameContinuationChar,
        }
    }
}

/// Failure data of the modifier suffix expected at `i`: a stray character
/// where the input should have ended, a colon with no modifier after it, or
/// a character after the sixteenth modifier.
pub open spec fn suffix_fail(s: Seq<char>, i: int) -> ParseErrorV
    recommends
        0 <= i < s.len(),
        !suffix_matches(s, i),
{
    if s[i] != ':' {
        ParseErrorV { offset: i, found: Some(s[i]), expected: Expected::EndOfInput }
    } else if mod_run(s, i + 1) == 0 {
        ParseErrorV {
            offset: i + 1,
            found: if i + 1 < s.len() {
                Some(s[i + 1])
            } else {
                None
            },
            expected: Expected::ModifierChar,
        }
    } else {
        let p = i + 1 + spec_min(mod_run(s, i + 1), 16);
        ParseErrorV {
            offset: p,
            found: if p < s.len() {
                Some(s[p])
            } else {
                None
            },
            expected: Expected::EndOfInput,
        }
    }
}

/// Failure data of the raw-event alternative.
pub open spec fn raw_fail(s: Seq<char>) -> ParseErrorV
    recommends
        !raw_matches(s),
{
    if s.len() == 0 {
        ParseErrorV { offset: 0, found: None, expected: Expected::RawMarker }
    } else if s[0] != 'r' {
        ParseErrorV { offset: 0, found: Some(s[0]), expected: Expected::RawMarker }
    } else if hex_run(s, raw_body_start(s)) == 0 {
        let b = raw_body_start(s);
        ParseErrorV {
            offset: b,
            found: if b < s.len() {
                Some(s[b])
            } else {
                None
            },
            expected: Expected::HexDigit,
        }
    } else {
        suffix_fail(s, raw_body_start(s) + hex_run(s, raw_body_start(s)))
    }
}

/// Failure data of a raw event whose digits denote a value over 64 bits.
pub open spec fn raw_overflow_fail(s: Seq<char>) -> ParseErrorV {
    ParseErrorV { offset: raw_body_start(s), found: None, expected: Expected::RawValueIn64Bits }
}

/// Failure data of the tracepoint alternative.
pub open spec fn tracepoint_fail(s: Seq<char>) -> ParseErrorV
    recommends
        !tracepoint_matches(s),
{
    if !name_matches(s, 0) {
        name_fail(s, 0)
    } else {
        let e1 = name_end(s, 0);
        if e1 == s.len() || s[e1] != ':' {
            ParseErrorV {
                offset: e1,
                found: if e1 < s.len() {
                    Some(s[e1])
                } else {
                    None
                },
                expected: Expected::Colon,
            }
        } else if !name_matches(s, e1 + 1) {
            name_fail(s, e1 + 1)
        } else {
            suffix_fail(s, name_end(s, e1 + 1))
        }
    }
}

/// Failure data of the symbolic alternative.
pub open spec fn symbolic_fail(s: Seq<char>) -> ParseErrorV
    recommends
        !symbolic_matches(s),
{
    if !name_matches(s, 0) {
        name_fail(s, 0)
    } else {
        suffix_fail(s, name_end(s, 0))
    }
}

/// When no alternative matches, the reported error is the one of the
/// alternative that progressed furthest; on a tie the earlier alternative
/// (raw before tracepoint before symbolic) speaks.
pub open spec fn event_fail(s: Seq<char>) -> ParseErrorV {
    let er = raw_fail(s);
    let et = tracepoint_fail(s);
    let es = symbolic_fail(s);
    if er.offset >= et.offset && er.offset >= es.offset {
        er
    } else if et.offset >= es.offset {
        et
    } else {
        es
    }
}

/// The whole parse, as ordered choice over the three alternatives.  A raw
/// event whose value is over 64 bits is a hard failure of the parse, not a
/// fall-through to the other alternatives.
pub open spec fn spec_parse_event(s: Seq<char>) -> Result<PmuEventV, ParseErrorV> {
    if raw_matches(s) {
        if raw_value(s) <= u64::MAX {
            Ok(raw_event_of(s))
        } else {
            Err(raw_overflow_fail(s))
        }
    } else if tracepoint_matches(s) {
        Ok(tracepoint_event_of(s))
    } else if symbolic_matches(s) {
        Ok(symbolic_event_of(s))
    } else {
        Err(event_fail(s))
    }
}

/// The whole input is one mandatory modifier suffix: `:` then one to
/// sixteen modifier characters reaching the end.
pub open spec fn modifiers_match(s: Seq<char>) -> bool {
    s.len() != 0 && suffix_matches(s, 0)
}

/// The standalone modifier-suffix parse.
pub open spec fn spec_parse_modifiers(s: Seq<char>) -> Result<
    Seq<PmuEventModifier>,
    ParseErrorV,
> {
    if modifiers_match(s) {
        Ok(suffix_mods(s, 0))
    } else if s.len() == 0 {
        Err(ParseErrorV { offset: 0, found: None, expected: Expected::Colon })
    } else if s[0] != ':' {
        Err(ParseErrorV { offset: 0, found: Some(s[0]), expected: Expected::Colon })
    } else {
        Err(suffix_fail(s, 0))
    }
}

/// The standalone single-modifier parse: the whole input is one character of
/// the modifier alphabet.
pub open spec fn spec_parse_modifier(s: Seq<char>) -> Result<PmuEventModifier, ParseErrorV> {
    if s.len() == 0 {
        Err(ParseErrorV { offset: 0, found: None, expected: Expected::ModifierChar })
    } else if !is_modifier_char(s[0]) {
        Err(ParseErrorV { offset: 0, found: Some(s[0]), expected: Expected::ModifierChar })
    } else if s.len() > 1 {
        Err(ParseErrorV { offset: 1, found: Some(s[1]), expected: Expected::EndOfInput })
    } else {
        Ok(modifier_of_char(s[0]))
    }
}

/// A modifier run is well bounded, every character in it is in the modifier
/// alphabet, and the character after it (if any) is not.
pub proof fn lemma_mod_run_facts(s: Seq<char>, i: int)
    requires
        0 <= i <= s.len(),
    ensures
        0 <= mod_run(s, i),
        i + mod_run(s, i) <= s.len(),
        forall|j: int| i <= j < i + mod_run(s, i) ==> is_modifier_char(#[trigger] s[j]),
        i + mod_run(s, i) < s.len() ==> !is_modifier_char(s[i + mod_run(s, i)]),
    decreases s.len() - i,
{
    if i < s.len() && is_modifier_char(s[i]) {
        lemma_mod_run_facts(s, i + 1);
    }
}

/// A run of `n` modifier characters from `i` that is ended by the input or
/// by a character outside the alphabet has exactly length `n`.
pub proof fn lemma_mod_run_exact(s: Seq<char>, i: int, n: int)
    requires
        0 <= i,
        0 <= n,
        i + n <= s.len(),
        forall|j: int| i <= j < i + n ==> is_modifier_char(#[trigger] s[j]),
        i + n == s.len() || !is_modifier_char(s[i + n]),
    ensures
        mod_run(s, i) == n,
    decreases n,
{
    if n == 0 {
    } else {
        assert(is_modifier_char(s[i]));
        lemma_mod_run_exact(s, i + 1, n - 1);
    }
}

/// As `lemma_mod_run_facts`, for hexadecimal-digit runs.
pub proof fn lemma_hex_run_facts(s: Seq<char>, i: int)
    requires
        0 <= i <= s.len(),
    ensures
        0 <= hex_run(s, i),
        i + hex_run(s, i) <= s.len(),
        forall|j: int| i <= j < i + hex_run(s, i) ==> is_hex_digit_char(#[trigger] s[j]),
        i + hex_run(s, i) < s.len() ==> !is_hex_digit_char(s[i + hex_run(s, i)]),
    decreases s.len() - i,
{
    if i < s.len() && is_hex_digit_char(s[i]) {
        lemma_hex_run_facts(s, i + 1);
    }
}

/// As `lemma_mod_run_exact`, for hexadecimal-digit runs.
pub proof fn lemma_hex_run_exact(s: Seq<char>, i: int, n: int)
    requires
        0 <= i,
        0 <= n,
        i + n <= s.len(),
        forall|j: int| i <= j < i + n ==> is_hex_digit_char(#[trigger] s[j]),
        i + n == s.len() || !is_hex_digit_char(s[i + n]),
    ensures
        hex_run(s, i) == n,
    decreases n,
{
    if n == 0 {
    } else {
        assert(is_hex_digit_char(s[i]));
        lemma_hex_run_exact(s, i + 1, n - 1);
    }
}

/// Digit values are below sixteen, so a longer run of digits never denotes a
/// smaller value.
pub proof fn lemma_hex_val_monotone(s: Seq<char>, i: int, m: int, n: int)
    requires
        0 <= m <= n,
    ensures
        hex_val(s, i, m) <= hex_val(s, i, n),
    decreases n,
{
    if m < n {
        lemma_hex_val_monotone(s, i, m, n - 1);
        assert(hex_val(s, i, n) >= hex_val(s, i, n - 1));
    }
}

/// The value of a digit run depends only on the digits themselves.
pub proof fn lemma_hex_val_congruence(s1: Seq<char>, i1: int, s2: Seq<char>, i2: int, n: int)
    requires
        forall|k: int| 0 <= k < n ==> s1[i1 + k] == #[trigger] s2[i2 + k],
    ensures
        hex_val(s1, i1, n) == hex_val(s2, i2, n),
    decreases n,
{
    if n > 0 {
        lemma_hex_val_congruence(s1, i1, s2, i2, n - 1);
        assert(s1[i1 + (n - 1)] == s2[i2 + (n - 1)]);
    }
}

/// The characters that write a modifier sequence.
pub open spec fn mod_chars(ms: Seq<PmuEventModifier>) -> Seq<char> {
    Seq::new(ms.len(), |k: int| char_of_modifier(ms[k]))
}

/// The suffix that writes a modifier sequence: empty when there are no
/// modifiers, else a colon and one character per modifier.
pub open spec fn suffix_chars(ms: Seq<PmuEventModifier>) -> Seq<char> {
    if ms.len() == 0 {
        Seq::empty()
    } else {
        seq![':'] + mod_chars(ms)
    }
}

/// Lower-case hexadecimal digit of a value below sixteen.
pub open spec fn hex_char(d: int) -> char
    recommends
        0 <= d < 16,
{
    if d == 0 {
        '0'
    } else if d == 1 {
        '1'
    } else if d == 2 {
        '2'
    } else if d == 3 {
        '3'
    } else if d == 4 {
        '4'
    } else if d == 5 {
        '5'
    } else if d == 6 {
        '6'
    } else if d == 7 {
        '7'
    } else if d == 8 {
        '8'
    } else if d == 9 {
        '9'
    } else if d == 10 {
        'a'
    } else if d == 11 {
        'b'
    } else if d == 12 {
        'c'
    } else if d == 13 {
        'd'
    } else if d == 14 {
        'e'
    } else {
        'f'
    }
}

/// Shortest lower-case hexadecimal writing of a number.
pub open spec fn hex_chars_of(n: nat) -> Seq<char>
    decreases n,
{
    if n < 16 {
        seq![hex_char(n as int)]
    } else {
        hex_chars_of(n / 16) + seq![hex_char((n % 16) as int)]
    }
}

/// The canonical specifier string of an event: the name (or `category:name`,
/// or `r` and the value in hexadecimal) followed by the modifier suffix.
/// Groups have no specifier syntax here.
pub open spec fn spec_specifier(e: PmuEventV) -> Seq<char>
    recommends
        !(e is Grouped),
{
    match e {
        PmuEventV::Symbolic { name, modifier } => name + suffix_chars(modifier),
        PmuEventV::Tracepoint { category, name, modifier } => category + seq![':'] + name
            + suffix_chars(modifier),
        PmuEventV::Raw { value, modifier } => seq!['r'] + hex_chars_of(value as nat)
            + suffix_chars(modifier),
        PmuEventV::Grouped { .. } => Seq::empty(),
    }
}

} // verus!
