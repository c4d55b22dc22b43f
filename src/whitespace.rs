//! The Unicode `White_Space` property.
use vstd::prelude::*;

verus! {

/// Whether `c` has the Unicode `White_Space` property: the control
/// characters U+0009 to U+000D, space, U+0085, no-break space, the Ogham
/// space mark, the spaces U+2000 to U+200A, the line and paragraph
/// separators, the narrow no-break space, the medium mathematical space and
/// the ideographic space.
pub open spec fn is_white_space(c: char) -> bool {
    let u = c as u32;
    ||| 0x09 <= u <= 0x0D
    ||| u == 0x20
    ||| u == 0x85
    ||| u == 0xA0
    ||| u == 0x1680
    ||| 0x2000 <= u <= 0x200A
    ||| u == 0x2028
    ||| u == 0x2029
    ||| u == 0x202F
    ||| u == 0x205F
    ||| u == 0x3000
}

/// Classifies one character as white space or not.
pub fn is_whitespace(c: char) -> (r: bool)
    ensures
        r == is_white_space(c),
{
    let u = c as u32;
    if u < 0x80 {
        (0x09 <= u && u <= 0x0D) || u == 0x20
    } else if u < 0x1680 {
        u == 0x85 || u == 0xA0
    } else {
        u == 0x1680 || (0x2000 <= u && u <= 0x200A) || u == 0x2028 || u == 0x2029
            || u == 0x202F || u == 0x205F || u == 0x3000
    }
}

} // verus!
