//! Writing an event back as a specifier string.

use vstd::prelude::*;

use vstd::string::StringExecFns;

use crate::events::char_of_modifier;
use crate::events::exec_char_of_modifier;
use crate::events::PmuEvent;
use crate::events::PmuEventModifier;
use crate::events::PmuEventV;
use crate::grammar::hex_char;
use crate::grammar::hex_chars_of;
use crate::grammar::mod_chars;
use crate::grammar::spec_specifier;
use crate::grammar::suffix_chars;

verus! {

/// Lower-case hexadecimal digit character of a value below sixteen.
fn exec_hex_char(d: u8) -> (c: char)
    requires
        d < 16,
    ensures
        c == hex_char(d as int),
{
    if d == 0 {
        '0'
    } else if d == 1 {
        '1'
    } else if d == 2 {
        '2'
    } else if d == 3 {
        '3'
    } else if d == 4 {
        '4'
    } else if d == 5 {
        '5'
    } else if d == 6 {
        '6'
    } else if d == 7 {
        '7'
    } else if d == 8 {
        '8'
    } else if d == 9 {
        '9'
    } else if d == 10 {
        'a'
    } else if d == 11 {
        'b'
    } else if d == 12 {
        'c'
    } else if d == 13 {
        'd'
    } else if d == 14 {
        'e'
    } else {
        'f'
    }
}

/// Append the shortest lower-case hexadecimal writing of `n`.
fn push_hex(out: &mut String, n: u64)
    ensures
        final(out)@ == old(out)@ + hex_chars_of(n as nat),
    decreases n,
{
    if n < 16 {
        out.push(exec_hex_char(n as u8));
        proof {
            assert(final(out)@ =~= old(out)@ + hex_chars_of(n as nat));
        }
    } else {
        push_hex(out, n / 16);
        out.push(exec_hex_char((n % 16) as u8));
        proof {
            assert(final(out)@ =~= old(out)@ + hex_chars_of(n as nat));
        }
    }
}

/// Append the suffix that writes a modifier sequence: nothing when it is
/// empty, else a colon and one character per modifier.
fn push_suffix(out: &mut String, ms: &Vec<PmuEventModifier>)
    ensures
        final(out)@ == old(out)@ + suffix_chars(ms@),
{
    if ms.len() == 0 {
        proof {
            assert(final(out)@ =~= old(out)@ + suffix_chars(ms@));
        }
        return ;
    }
    out.push(':');
    let mut k: usize = 0;
    while k < ms.len()
        invariant
            k <= ms@.len(),
            out@ == old(out)@ + seq![':'] + mod_chars(ms@).subrange(0, k as int),
        decreases ms@.len() - k,
    {
        let c = exec_char_of_modifier(ms[k]);
        out.push(c);
        k = k + 1;
        proof {
            assert(out@ =~= old(out)@ + seq![':'] + mod_chars(ms@).subrange(0, k as int));
        }
    }
    proof {
        assert(mod_chars(ms@).subrange(0, ms@.len() as int) =~= mod_chars(ms@));
        assert(final(out)@ =~= old(out)@ + suffix_chars(ms@));
    }
}

/// The canonical specifier string of an event: what `crate::parser` would
/// read back.  A group has no specifier syntax here, so it yields `None`.
pub fn to_specifier(e: &PmuEvent) -> (r: Option<String>)
    ensures
        !(e@ is Grouped) ==> (r matches Some(s) && s@ == spec_specifier(e@)),
        e@ is Grouped ==> r is None,
{
    match e {
        PmuEvent::SymbolicEvent(se) => {
            let mut out = String::new();
            out.append(se.name.as_str());
            push_suffix(&mut out, &se.modifier);
            proof {
                assert(out@ =~= spec_specifier(e@));
            }
            Some(out)
        },
        PmuEvent::TracepointEvent(te) => {
            let mut out = String::new();
            out.append(te.category.as_str());
            out.push(':');
            out.append(te.name.as_str());
            push_suffix(&mut out, &te.modifier);
            proof {
                assert(out@ =~= spec_specifier(e@));
            }
            Some(out)
        },
        PmuEvent::RawEvent(re) => {
            let mut out = String::new();
            out.push('r');
            push_hex(&mut out, re.value);
            push_suffix(&mut out, &re.modifier);
            proof {
                assert(out@ =~= spec_specifier(e@));
            }
            Some(out)
        },
        PmuEvent::GroupedEvent(_) => None,
    }
}

} // verus!
