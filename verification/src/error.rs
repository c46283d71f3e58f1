//! Positioned syntax errors.

use vstd::prelude::*;

use vstd::string::StringExecFns;

use crate::strutil::push_decimal;

verus! {

/// What the parser was looking for at the point of failure.
#[derive(Debug, PartialEq, Eq, Clone, Copy, Structural)]
pub enum Expected {
    /// The next character should have been `:`.
    Colon,
    /// The input should have ended here.
    EndOfInput,
    /// A hexadecimal digit should have stood here.
    HexDigit,
    /// A character of the modifier alphabet should have stood here.
    ModifierChar,
    /// A name-continuation character should have stood here.
    NameContinuationChar,
    /// A name-start character should have stood here.
    NameStartChar,
    /// The `r` that opens a raw event should have stood here.
    RawMarker,
    /// The raw event's hexadecimal value should have fit in 64 bits.
    RawValueIn64Bits,
}

/// A syntax error: the character offset at which the parse failed, the
/// character found there (`None` at end of input), and what was expected.
#[derive(Debug, PartialEq, Eq, Clone, Copy)]
pub struct ParseError {
    pub offset: usize,
    pub found: Option<char>,
    pub expected: Expected,
}

/// Mathematical value of a `ParseError`.
pub struct ParseErrorV {
    pub offset: int,
    pub found: Option<char>,
    pub expected: Expected,
}

impl View for ParseError {
    type V = ParseErrorV;

    open spec fn view(&self) -> ParseErrorV {
        ParseErrorV { offset: self.offset as int, found: self.found, expected: self.expected }
    }
}

/// The words that describe what was expected.
pub open spec fn expected_text(x: Expected) -> Seq<char> {
    match x {
        Expected::Colon => "`:`"@,
        Expected::EndOfInput => "end of input"@,
        Expected::HexDigit => "a hexadecimal digit"@,
        Expected::ModifierChar => "a modifier character"@,
        Expected::NameContinuationChar => "a name continuation character"@,
        Expected::NameStartChar => "a name start character"@,
        Expected::RawMarker => "`r`"@,
        Expected::RawValueIn64Bits => "a raw event value that fits in 64 bits"@,
    }
}

/// The words that describe what stood at the point of failure.
pub open spec fn unexpected_text(found: Option<char>) -> Seq<char> {
    match found {
        Some(c) => seq!['`', c, '`'],
        None => "end of input"@,
    }
}

/// The full diagnostic text of an error.
pub open spec fn spec_message(e: ParseErrorV) -> Seq<char>
    recommends
        e.offset >= 0,
{
    "Parse error at "@ + crate::strutil::dec_chars_of(e.offset as nat) + "\nUnexpected "@
        + unexpected_text(e.found) + "\nExpected "@ + expected_text(e.expected) + "\n"@
}

impl ParseError {
    /// The human-readable diagnostic: the offset, the character found there,
    /// and what was expected instead, one line each.
    pub fn message(&self) -> (s: String)
        ensures
            s@ == spec_message(self@),
    {
        let mut out = String::new();
        out.append("Parse error at ");
        push_decimal(&mut out, self.offset);
        out.append("\nUnexpected ");
        match self.found {
            Some(c) => {
                out.push('`');
                out.push(c);
                out.push('`');
            },
            None => {
                out.append("end of input");
            },
        }
        out.append("\nExpected ");
        match self.expected {
            Expected::Colon => out.append("`:`"),
            Expected::EndOfInput => out.append("end of input"),
            Expected::HexDigit => out.append("a hexadecimal digit"),
            Expected::ModifierChar => out.append("a modifier character"),
            Expected::NameContinuationChar => out.append("a name continuation character"),
            Expected::NameStartChar => out.append("a name start character"),
            Expected::RawMarker => out.append("`r`"),
            Expected::RawValueIn64Bits => out.append("a raw event value that fits in 64 bits"),
        }
        out.append("\n");
        proof {
            assert(out@ =~= spec_message(self@));
        }
        out
    }
}

} // verus!
