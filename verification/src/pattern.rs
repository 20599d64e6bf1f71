//! The naming pattern of grade groups: two digits followed by one of a
//! fixed set of category letters.

use vstd::prelude::*;

verus! {

/// A decimal digit.
pub open spec fn is_grade_digit(c: char) -> bool {
    '0' as u32 <= c as u32 && c as u32 <= '9' as u32
}

/// One of the recognized grade category letters.
pub open spec fn is_grade_letter(c: char) -> bool {
    c == 'B' || c == 'M' || c == 'R' || c == 'D'
}

/// Whether a group name names a grade: exactly two digits followed by one
/// category letter.
pub open spec fn grade_group_name_spec(s: Seq<char>) -> bool {
    &&& s.len() == 3
    &&& is_grade_digit(s[0])
    &&& is_grade_digit(s[1])
    &&& is_grade_letter(s[2])
}

/// Decides whether `name` names a grade group.
pub fn is_grade_group_name(name: &str) -> (r: bool)
    ensures
        r == grade_group_name_spec(name@),
{
    let len = name.unicode_len();
    if len != 3 {
        return false;
    }
    let c0 = name.get_char(0);
    let c1 = name.get_char(1);
    let c2 = name.get_char(2);
    let d0 = '0' as u32 <= c0 as u32 && c0 as u32 <= '9' as u32;
    let d1 = '0' as u32 <= c1 as u32 && c1 as u32 <= '9' as u32;
    let l2 = c2 == 'B' || c2 == 'M' || c2 == 'R' || c2 == 'D';
    d0 && d1 && l2
}

} // verus!
