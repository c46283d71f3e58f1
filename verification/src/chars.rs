//! Character classes of the specifier grammar.

use vstd::prelude::*;

verus! {

/// What `char::is_alphanumeric` returns for a character: whether the Unicode
/// general category of the character is one of the letter or number
/// categories.  The full table is part of std, so only the name is stated.
pub uninterp spec fn alphanumeric(c: char) -> bool;

/// Relies on `char::is_alphanumeric`: the result depends on the character
/// alone (a fixed Unicode table compiled into std).
pub assume_specification[ char::is_alphanumeric ](c: char) -> (r: bool)
    ensures
        r == alphanumeric(c),
;

/// Characters that may open a name token.
pub open spec fn is_name_start_char(c: char) -> bool {
    alphanumeric(c) || c == '_' || c == '*' || c == '?' || c == '[' || c == ']'
}

/// Characters that may continue a name token: the start set plus `.`, `!`, `-`.
pub open spec fn is_name_cont_char(c: char) -> bool {
    is_name_start_char(c) || c == '.' || c == '!' || c == '-'
}

/// ASCII hexadecimal digits: `0`-`9`, `a`-`f`, `A`-`F`.
pub open spec fn is_hex_digit_char(c: char) -> bool {
    (48 <= c as int && c as int <= 57)  // '0' ..= '9'
    || (97 <= c as int && c as int <= 102)  // 'a' ..= 'f'
    || (65 <= c as int && c as int <= 70)  // 'A' ..= 'F'
}

/// Numeric value of a hexadecimal digit.
pub open spec fn hex_digit_value(c: char) -> int {
    if 48 <= c as int && c as int <= 57 {
        c as int - 48
    } else if 97 <= c as int && c as int <= 102 {
        c as int - 87
    } else if 65 <= c as int && c as int <= 70 {
        c as int - 55
    } else {
        0
    }
}

pub fn exec_is_name_start_char(c: char) -> (r: bool)
    ensures
        r == is_name_start_char(c),
{
    c.is_alphanumeric() || c == '_' || c == '*' || c == '?' || c == '[' || c == ']'
}

pub fn exec_is_name_cont_char(c: char) -> (r: bool)
    ensures
        r == is_name_cont_char(c),
{
    exec_is_name_start_char(c) || c == '.' || c == '!' || c == '-'
}

pub fn exec_is_hex_digit_char(c: char) -> (r: bool)
    ensures
        r == is_hex_digit_char(c),
{
    let u = c as u32;
    (48 <= u && u <= 57) || (97 <= u && u <= 102) || (65 <= u && u <= 70)
}

pub fn exec_hex_digit_value(c: char) -> (d: u8)
    requires
        is_hex_digit_char(c),
    ensures
        d as int == hex_digit_value(c),
        d < 16,
{
    let u = c as u32;
    if 48 <= u && u <= 57 {
        (u - 48) as u8
    } else if 97 <= u && u <= 102 {
        (u - 87) as u8
    } else {
        (u - 55) as u8
    }
}

} // verus!
