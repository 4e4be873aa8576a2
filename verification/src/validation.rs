//! Validation of the required text fields of incoming requests.

use vstd::prelude::*;

use crate::error::AppError;

verus! {

/// The characters with the Unicode `White_Space` property, which is what
/// `char::is_whitespace` (and so `str::trim`) treats as blank.
pub open spec fn is_white_space(c: char) -> bool {
    let n: u32 = c as u32;
    ||| 0x09 <= n <= 0x0D
    ||| n == 0x20
    ||| n == 0x85
    ||| n == 0xA0
    ||| n == 0x1680
    ||| 0x2000 <= n <= 0x200A
    ||| n == 0x2028
    ||| n == 0x2029
    ||| n == 0x202F
    ||| n == 0x205F
    ||| n == 0x3000
}

/// Text that is empty or holds only white space: what is left after
/// trimming it is empty.
pub open spec fn is_blank(s: Seq<char>) -> bool {
    forall|i: int| 0 <= i < s.len() ==> #[trigger] is_white_space(s[i])
}

/// The message that names a blank required field.
pub open spec fn blank_field_message(field: Seq<char>) -> Seq<char> {
    field + " must not be blank"@
}

/// Whether `c` is white space in the sense of Unicode's `White_Space`
/// property.
pub fn is_white_space_char(c: char) -> (white: bool)
    ensures
        white == is_white_space(c),
{
    let n: u32 = c as u32;
    (0x09 <= n && n <= 0x0D) || n == 0x20 || n == 0x85 || n == 0xA0 || n == 0x1680 || (0x2000
        <= n && n <= 0x200A) || n == 0x2028 || n == 0x2029 || n == 0x202F || n == 0x205F || n
        == 0x3000
}

/// Rejects a required text field that's empty or only whitespace, with a
/// `400` naming the field.
pub fn require_non_blank(field: &str, value: &str) -> (checked: Result<(), AppError>)
    ensures
        checked is Ok <==> !is_blank(value@),
        checked is Ok <==> exists|i: int| 0 <= i < value@.len() && !is_white_space(#[trigger] value@[i]),
        checked matches Err(e) ==> e matches AppError::BadRequest(message) && message@
            == blank_field_message(field@),
{
    let mut blank: bool = true;
    for c in it: value.chars()
        invariant
            it.seq() == value@,
            blank <==> (forall|j: int| 0 <= j < it.index() ==> #[trigger] is_white_space(
                value@[j],
            )),
    {
        if !is_white_space_char(c) {
            blank = false;
        }
    }
    if blank {
        let mut message = String::from_str(field);
        message.append(" must not be blank");
        Err(AppError::BadRequest(message))
    } else {
        Ok(())
    }
}


/// A text holding any character that is not white space is not blank, and
/// is accepted; a text of white space only (the empty text included) is
/// blank.
pub proof fn one_non_white_space_character_makes_a_text_non_blank(s: Seq<char>, i: int)
    requires
        0 <= i < s.len(),
        !is_white_space(s[i]),
    ensures
        !is_blank(s),
{
}

/// Two texts put together are blank exactly when both are.
pub proof fn blank_texts_concatenate(a: Seq<char>, b: Seq<char>)
    ensures
        is_blank(a + b) <==> (is_blank(a) && is_blank(b)),
{
    if is_blank(a + b) {
        assert forall|i: int| 0 <= i < a.len() implies #[trigger] is_white_space(a[i]) by {
            assert((a + b)[i] == a[i]);
        }
        assert forall|i: int| 0 <= i < b.len() implies #[trigger] is_white_space(b[i]) by {
            assert((a + b)[a.len() + i] == b[i]);
        }
    }
    if is_blank(a) && is_blank(b) {
        assert forall|i: int| 0 <= i < (a + b).len() implies #[trigger] is_white_space((a + b)[i]) by {
            if i < a.len() {
                assert((a + b)[i] == a[i]);
            } else {
                assert((a + b)[i] == b[i - a.len()]);
            }
        }
    }
}

/// What counts as white space: the printable ASCII characters (letters,
/// digits, punctuation) never do, nor does anything above U+3000 (the
/// ideographic space); tab, line feed, vertical tab, form feed, carriage
/// return, space, next line, no-break space and the ideographic space do.
pub proof fn white_space_is_what_trim_removes(c: char)
    ensures
        0x21 <= (c as u32) <= 0x7E ==> !is_white_space(c),
        (c as u32) > 0x3000 ==> !is_white_space(c),
        (c as u32) < 0x09 ==> !is_white_space(c),
        ((c as u32) == 0x09 || (c as u32) == 0x0A || (c as u32) == 0x0B || (c as u32) == 0x0C
            || (c as u32) == 0x0D || (c as u32) == 0x20 || (c as u32) == 0x85 || (c as u32)
            == 0xA0 || (c as u32) == 0x3000) ==> is_white_space(c),
{
}

} // verus!
