use vstd::prelude::*;

verus! {

/// `str`'s `==` of the standard library: two texts are equal when they hold
/// the same characters in the same order.
pub assume_specification[ <str as PartialEq>::eq ](a: &str, b: &str) -> (r: bool)
    ensures
        r == (a@ == b@),
;

/// Calls `str::split_once` with a space as the delimiter: what stands before
/// the first space and what stands after it, or nothing where the text has
/// no space.
#[verifier::external_body]
fn split_once_space<'a>(s: &'a str) -> (r: Option<(&'a str, &'a str)>)
    ensures
        match r {
            Some((head, tail)) => s@ == head@ + seq![' '] + tail@ && !head@.contains(' '),
            None => !s@.contains(' '),
        },
{
    s.split_once(' ')
}

/// `s` cut at its first space: what stands before it and what stands after.
pub open spec fn cut_at_space(s: Seq<char>) -> Option<(Seq<char>, Seq<char>)> {
    match s.index_of_first(' ') {
        Some(i) => Some((s.subrange(0, i), s.subrange(i + 1, s.len() as int))),
        None => None,
    }
}

/// Cuts a text at its first space.
pub fn split_at_space<'a>(s: &'a str) -> (r: Option<(&'a str, &'a str)>)
    ensures
        match cut_at_space(s@) {
            Some((head, tail)) => r matches Some((h, t)) && h@ == head && t@ == tail,
            None => r is None,
        },
{
    let r = split_once_space(s);
    proof {
        s@.index_of_first_ensures(' ');
        match r {
            Some((head, tail)) => {
                let k = head@.len() as int;
                assert(s@[k] == ' ');
                assert(s@.contains(' '));
                let i = s@.index_of_first(' ')->0;
                assert forall|j: int| 0 <= j < k implies s@[j] != ' ' by {
                    assert(s@[j] == head@[j]);
                    assert(head@.contains(head@[j]));
                }
                assert(i == k);
                assert(s@.subrange(0, i) =~= head@);
                assert(s@.subrange(i + 1, s@.len() as int) =~= tail@);
            },
            None => {},
        }
    }
    r
}

} // verus!
