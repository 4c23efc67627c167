//! Handler ids: random version 4 UUIDs in their hyphenated lower-case form.

use vstd::prelude::*;

verus! {

/// Number of characters in a handler id.
pub const ID_LENGTH: usize = 36;

/// A digit or a letter from `a` to `f`.
pub open spec fn is_lower_hex(c: char) -> bool {
    ('0' as u32 <= c as u32 <= '9' as u32) || ('a' as u32 <= c as u32 <= 'f' as u32)
}

/// Whether a hyphen stands at index `i` of an id.
pub open spec fn is_hyphen_index(i: int) -> bool {
    i == 8 || i == 13 || i == 18 || i == 23
}

/// Whether `c` may stand at index `i` of an id.
pub open spec fn fits_at(i: int, c: char) -> bool {
    if is_hyphen_index(i) {
        c == '-'
    } else {
        is_lower_hex(c)
    }
}

/// The form of every id that the library hands out: five groups of 8, 4, 4,
/// 4 and 12 lower-case hexadecimal digits with a hyphen between them, the
/// third group starting with the version digit 4.
pub open spec fn is_handler_id(id: Seq<char>) -> bool {
    &&& id.len() == ID_LENGTH
    &&& forall|i: int| 0 <= i < id.len() ==> fits_at(i, #[trigger] id[i])
    &&& id[14] == '4'
}

/// `uuid::Uuid::new_v4`, written out by the `Display` of `uuid::Uuid`: a
/// random identifier in hyphenated lower-case form. Which one is not stated;
/// two calls need not agree.
#[verifier::external_body]
pub(crate) fn fresh_id() -> (id: String)
    ensures
        is_handler_id(id@),
{
    uuid::Uuid::new_v4().to_string()
}

} // verus!
