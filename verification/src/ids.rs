use vstd::prelude::*;

verus! {

/// The number of characters of an id that the server draws.
pub const ID_LENGTH: usize = 10;

/// Whether `c` is one of the 64 characters that ids are drawn from: a letter
/// or digit of ASCII, `_` or `-`.
pub open spec fn is_id_char(c: char) -> bool {
    ||| 'a' <= c <= 'z'
    ||| 'A' <= c <= 'Z'
    ||| '0' <= c <= '9'
    ||| c == '_'
    ||| c == '-'
}

/// Calls `nanoid::format` with nanoid's default random source and its
/// URL-safe alphabet. Which id comes back is left to chance; it always has
/// `size` characters, each one of that alphabet. The sizes left out are zero,
/// on which `format` does not return, and those whose eightfold overflows.
#[verifier::external_body]
pub(crate) fn random_id(size: usize) -> (id: String)
    requires
        0 < size <= usize::MAX / 8,
    ensures
        id@.len() == size,
        forall|i: int| 0 <= i < id@.len() ==> is_id_char(#[trigger] id@[i]),
{
    nanoid::format(nanoid::rngs::default, &nanoid::alphabet::SAFE, size)
}

} // verus!
