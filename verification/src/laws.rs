//! Laws of the parser, proved once and for all inputs.

use vstd::prelude::*;

use crate::chars::hex_digit_value;
use crate::chars::is_hex_digit_char;
use crate::error::ParseErrorV;
use crate::events::char_of_modifier;
use crate::events::is_modifier_char;
use crate::events::lemma_modifier_char_bijection;
use crate::events::modifier_of_char;
use crate::events::PmuEventModifier;
use crate::events::PmuEventV;
use crate::grammar::hex_char;
use crate::grammar::hex_chars_of;
use crate::grammar::hex_val;
use crate::grammar::lemma_hex_run_exact;
use crate::grammar::lemma_hex_val_congruence;
use crate::grammar::lemma_mod_run_exact;
use crate::grammar::lemma_mod_run_facts;
use crate::grammar::mod_chars;
use crate::grammar::mod_run;
use crate::grammar::name_end;
use crate::grammar::raw_body_start;
use crate::grammar::raw_event_of;
use crate::grammar::raw_matches;
use crate::grammar::raw_mods;
use crate::grammar::raw_value;
use crate::grammar::spec_parse_event;
use crate::grammar::spec_parse_modifiers;
use crate::grammar::spec_specifier;
use crate::grammar::suffix_chars;
use crate::grammar::suffix_matches;
use crate::grammar::suffix_mods;
use crate::grammar::symbolic_event_of;
use crate::grammar::symbolic_matches;
use crate::grammar::tracepoint_event_of;
use crate::grammar::tracepoint_matches;

verus! {

/// Every digit below sixteen is written as a hexadecimal-digit character
/// that reads back as itself.
proof fn lemma_hex_char_value(d: int)
    requires
        0 <= d < 16,
    ensures
        is_hex_digit_char(hex_char(d)),
        hex_digit_value(hex_char(d)) == d,
        d >= 1 ==> hex_char(d) != '0',
{
}

/// The hexadecimal writing of a number is nonempty, made of digits, free of
/// a leading zero (except for zero itself), and reads back as the number.
proof fn lemma_hex_chars_facts(n: nat)
    ensures
        hex_chars_of(n).len() >= 1,
        forall|k: int|
            0 <= k < hex_chars_of(n).len() ==> is_hex_digit_char(#[trigger] hex_chars_of(n)[k]),
        n >= 16 ==> hex_chars_of(n)[0] != '0',
        n < 16 ==> hex_chars_of(n).len() == 1,
        n == 0 <==> hex_chars_of(n)[0] == '0',
        hex_val(hex_chars_of(n), 0, hex_chars_of(n).len() as int) == n,
    decreases n,
{
    if n < 16 {
        lemma_hex_char_value(n as int);
        assert(hex_val(hex_chars_of(n), 0, 1) == 16 * hex_val(hex_chars_of(n), 0, 0)
            + hex_digit_value(hex_chars_of(n)[0]));
    } else {
        let q = n / 16;
        let r = (n % 16) as int;
        let a = hex_chars_of(q);
        let h = hex_chars_of(n);
        lemma_hex_chars_facts(q);
        lemma_hex_char_value(r);
        assert(h == a + seq![hex_char(r)]);
        assert(h[0] == a[0]);
        assert(q >= 1);
        assert(h[0] != '0');
        assert(forall|k: int| 0 <= k < a.len() ==> h[k] == a[k]);
        lemma_hex_val_congruence(h, 0, a, 0, a.len() as int);
        assert(hex_val(h, 0, h.len() as int) == 16 * hex_val(h, 0, a.len() as int)
            + hex_digit_value(h[a.len() as int]));
        assert(hex_val(h, 0, h.len() as int) == 16 * q + r);
        assert(16 * q + r == n);
    }
}

/// The characters that write a modifier sequence are all in the modifier
/// alphabet and read back as the same sequence.
proof fn lemma_mod_chars_facts(ms: Seq<PmuEventModifier>)
    ensures
        mod_chars(ms).len() == ms.len(),
        forall|k: int| 0 <= k < ms.len() ==> is_modifier_char(#[trigger] mod_chars(ms)[k]),
        forall|k: int|
            0 <= k < ms.len() ==> modifier_of_char(#[trigger] mod_chars(ms)[k]) == ms[k],
{
    lemma_modifier_char_bijection();
}

/// A specifier ending in the suffix that writes `ms` parses that suffix
/// back as `ms`: at position `i` the remainder of `w` is exactly
/// `suffix_chars(ms)`, and the suffix grammar accepts it with value `ms`.
proof fn lemma_suffix_chars_round_trip(w: Seq<char>, i: int, ms: Seq<PmuEventModifier>)
    requires
        ms.len() <= 16,
        0 <= i <= w.len(),
        w.len() - i == suffix_chars(ms).len(),
        forall|k: int| 0 <= k < suffix_chars(ms).len() ==> w[i + k] == #[trigger] suffix_chars(
            ms,
        )[k],
    ensures
        suffix_matches(w, i),
        suffix_mods(w, i) == ms,
{
    lemma_mod_chars_facts(ms);
    if ms.len() == 0 {
        assert(i == w.len());
        assert(suffix_mods(w, i) =~= ms);
    } else {
        assert(suffix_chars(ms) == seq![':'] + mod_chars(ms));
        assert(w[i] == suffix_chars(ms)[0]);
        assert(w[i] == ':');
        assert forall|j: int| i + 1 <= j < w.len() implies w[j] == suffix_chars(ms)[j - i]
            && is_modifier_char(#[trigger] w[j]) by {
            let k = j - i;
            assert(0 <= k < suffix_chars(ms).len());
            assert(w[i + k] == suffix_chars(ms)[k]);
            assert(suffix_chars(ms)[k] == mod_chars(ms)[k - 1]);
            assert(is_modifier_char(mod_chars(ms)[k - 1]));
        }
        lemma_mod_run_exact(w, i + 1, ms.len() as int);
        assert(mod_run(w, i + 1) == ms.len());
        assert(suffix_matches(w, i));
        assert(suffix_mods(w, i) =~= ms);
    }
}

/// Parsing a specifier and writing the event back gives a string the parser
/// reads to the very same event.  (A parsed event is never a group, so it
/// always has a specifier writing.)
pub proof fn lemma_specifier_round_trip(s: Seq<char>, e: PmuEventV)
    requires
        spec_parse_event(s) == Result::<PmuEventV, ParseErrorV>::Ok(e),
    ensures
        !(e is Grouped),
        spec_parse_event(spec_specifier(e)) == Result::<PmuEventV, ParseErrorV>::Ok(e),
{
    if raw_matches(s) {
        lemma_raw_round_trip(s);
    } else if tracepoint_matches(s) {
        lemma_tracepoint_specifier_identity(s);
    } else {
        lemma_symbolic_specifier_identity(s);
    }
}

/// A raw event that parsed writes back as `r`, its value in shortest
/// hexadecimal, and its suffix; the raw alternative reads that string back
/// to the same event.
proof fn lemma_raw_round_trip(s: Seq<char>)
    requires
        raw_matches(s),
        raw_value(s) <= u64::MAX,
    ensures
        raw_matches(spec_specifier(raw_event_of(s))),
        raw_value(spec_specifier(raw_event_of(s))) == raw_value(s),
        raw_mods(spec_specifier(raw_event_of(s))) == raw_mods(s),
        spec_parse_event(spec_specifier(raw_event_of(s))) == Result::<
            PmuEventV,
            ParseErrorV,
        >::Ok(raw_event_of(s)),
{
    let n = raw_value(s);
    let ms = raw_mods(s);
    let b = raw_body_start(s);
    let hr = crate::grammar::hex_run(s, b);
    assert(suffix_matches(s, b + hr));
    assert(ms.len() <= 16) by {
        if b + hr != s.len() {
            assert(ms == suffix_mods(s, b + hr));
        } else {
            assert(ms =~= Seq::<PmuEventModifier>::empty());
        }
    }
    let h = hex_chars_of(n);
    let w = spec_specifier(raw_event_of(s));
    lemma_hex_chars_facts(n);
    assert(w == seq!['r'] + h + suffix_chars(ms));
    assert(w[0] == 'r');
    // The digits stand at positions 1 ..= h.len().
    assert(forall|k: int| 0 <= k < h.len() ==> w[1 + k] == #[trigger] h[k]);
    // The optional `0x` is never seen: either the value is small and writes
    // one digit followed by `:` or the end, or its first digit is not `0`.
    assert(raw_body_start(w) == 1) by {
        if w.len() >= 3 && w[1] == '0' && w[2] == 'x' {
            assert(h[0] == '0');
            assert(n == 0);
            assert(h.len() == 1);
            assert(w[2] == suffix_chars(ms)[0]);
            lemma_mod_chars_facts(ms);
            assert(w[2] == ':');
        }
    }
    assert(forall|k: int| 1 <= k < 1 + h.len() ==> is_hex_digit_char(#[trigger] w[k]));
    assert(1 + h.len() == w.len() || !is_hex_digit_char(w[1 + h.len() as int])) by {
        if 1 + h.len() < w.len() {
            lemma_mod_chars_facts(ms);
            assert(ms.len() > 0);
            assert(w[1 + h.len() as int] == suffix_chars(ms)[0]);
            assert(w[1 + h.len() as int] == ':');
        }
    }
    lemma_hex_run_exact(w, 1, h.len() as int);
    assert(forall|k: int| 0 <= k < suffix_chars(ms).len() ==> w[1 + h.len() + k]
        == #[trigger] suffix_chars(ms)[k]);
    lemma_suffix_chars_round_trip(w, 1 + h.len() as int, ms);
    assert(raw_matches(w));
    lemma_hex_val_congruence(w, 1, h, 0, h.len() as int);
    assert(raw_value(w) == n);
    assert(raw_event_of(w) == raw_event_of(s));
}

/// A tracepoint event that parsed writes back as the very characters it was
/// parsed from.
proof fn lemma_tracepoint_specifier_identity(s: Seq<char>)
    requires
        tracepoint_matches(s),
    ensures
        spec_specifier(tracepoint_event_of(s)) == s,
{
    let e1 = name_end(s, 0);
    let e2 = name_end(s, e1 + 1);
    let ms = suffix_mods(s, e2);
    let w = spec_specifier(tracepoint_event_of(s));
    assert(w == s.subrange(0, e1) + seq![':'] + s.subrange(e1 + 1, e2) + suffix_chars(ms));
    lemma_suffix_identity(s, e2);
    assert(w =~= s);
}

/// A symbolic event that parsed writes back as the very characters it was
/// parsed from.
proof fn lemma_symbolic_specifier_identity(s: Seq<char>)
    requires
        symbolic_matches(s),
    ensures
        spec_specifier(symbolic_event_of(s)) == s,
{
    let e1 = name_end(s, 0);
    let ms = suffix_mods(s, e1);
    let w = spec_specifier(symbolic_event_of(s));
    assert(w == s.subrange(0, e1) + suffix_chars(ms));
    lemma_suffix_identity(s, e1);
    assert(w =~= s);
}

/// Writing back the modifiers a matching suffix carries reproduces the
/// suffix characters themselves.
proof fn lemma_suffix_identity(s: Seq<char>, i: int)
    requires
        0 <= i <= s.len(),
        suffix_matches(s, i),
    ensures
        suffix_chars(suffix_mods(s, i)).len() == s.len() - i,
        forall|k: int|
            0 <= k < s.len() - i ==> #[trigger] suffix_chars(suffix_mods(s, i))[k] == s[i + k],
{
    let ms = suffix_mods(s, i);
    lemma_mod_chars_facts(ms);
    lemma_modifier_char_bijection();
    if i == s.len() {
        assert(ms.len() == 0);
    } else {
        let m = mod_run(s, i + 1);
        lemma_mod_run_facts(s, i + 1);
        assert(ms.len() == m);
        assert(suffix_chars(ms) == seq![':'] + mod_chars(ms));
        assert(forall|k: int| 1 <= k < s.len() - i ==> #[trigger] suffix_chars(ms)[k]
            == char_of_modifier(modifier_of_char(s[i + k])));
        assert(forall|k: int| 1 <= k < s.len() - i ==> is_modifier_char(#[trigger] s[i + k]));
        assert(forall|k: int| 1 <= k < s.len() - i ==> #[trigger] suffix_chars(ms)[k] == s[i
            + k]);
    }
}

/// Every event the parser produces keeps the shape invariants of the data
/// model: a name or category token is at least two characters long, a
/// modifier sequence carries at most sixteen entries, and a single
/// specifier never parses to a group.
pub proof fn lemma_parsed_event_invariants(s: Seq<char>, e: PmuEventV)
    requires
        spec_parse_event(s) == Result::<PmuEventV, ParseErrorV>::Ok(e),
    ensures
        e matches PmuEventV::Symbolic { name, modifier } ==> name.len() >= 2 && modifier.len()
            <= 16,
        e matches PmuEventV::Tracepoint { category, name, modifier } ==> category.len() >= 2
            && name.len() >= 2 && modifier.len() <= 16,
        e matches PmuEventV::Raw { modifier, .. } ==> modifier.len() <= 16,
        !(e is Grouped),
{
    if raw_matches(s) {
        let b = raw_body_start(s);
        let hr = crate::grammar::hex_run(s, b);
        lemma_suffix_mods_bound(s, b + hr);
    } else if tracepoint_matches(s) {
        let e1 = name_end(s, 0);
        let e2 = name_end(s, e1 + 1);
        lemma_suffix_mods_bound(s, e2);
    } else {
        lemma_suffix_mods_bound(s, name_end(s, 0));
    }
}

/// A matching suffix carries at most sixteen modifiers.
proof fn lemma_suffix_mods_bound(s: Seq<char>, i: int)
    requires
        suffix_matches(s, i),
    ensures
        suffix_mods(s, i).len() <= 16,
{
    if i != s.len() {
        assert(suffix_mods(s, i).len() == mod_run(s, i + 1));
    }
}

/// A mandatory modifier suffix made of a colon and then only modifier
/// characters parses exactly when it carries at most sixteen of them: with
/// seventeen or more it is refused.
pub proof fn lemma_modifier_suffix_bound(s: Seq<char>)
    requires
        s.len() >= 2,
        s[0] == ':',
        forall|j: int| 1 <= j < s.len() ==> is_modifier_char(#[trigger] s[j]),
    ensures
        spec_parse_modifiers(s) is Ok <==> s.len() <= 17,
{
    lemma_mod_run_exact(s, 1, s.len() - 1);
}

} // verus!
