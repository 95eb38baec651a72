//! Lists of strings, as values.

use vstd::prelude::*;

verus! {

/// The values of a sequence of strings.
pub open spec fn string_views(strings: Seq<String>) -> Seq<Seq<char>> {
    Seq::new(strings.len(), |i: int| strings[i]@)
}

/// Appends copies of the strings of `extra` to `list`, in order.
pub fn extend_with_copies(list: &mut Vec<String>, extra: &Vec<String>)
    ensures
        string_views(final(list)@) == string_views(old(list)@) + string_views(extra@),
{
    let ghost before = string_views(list@);
    let mut i: usize = 0;
    while i < extra.len()
        invariant
            i <= extra.len(),
            string_views(list@) == before + string_views(extra@).take(i as int),
        decreases extra.len() - i,
    {
        let ghost prior = string_views(list@);
        list.push(extra[i].clone());
        assert(string_views(list@) =~= prior.push(extra@[i as int]@));
        assert(string_views(extra@).take(i + 1) =~= string_views(extra@).take(i as int).push(
            extra@[i as int]@,
        ));
        assert(before + string_views(extra@).take(i as int).push(extra@[i as int]@) =~= (before
            + string_views(extra@).take(i as int)).push(extra@[i as int]@));
        i += 1;
    }
    assert(string_views(extra@).take(extra@.len() as int) =~= string_views(extra@));
}

/// Appends a copy of `text` to `list`.
pub fn push_text(list: &mut Vec<String>, text: &str)
    ensures
        string_views(final(list)@) == string_views(old(list)@).push(text@),
{
    list.push(String::from_str(text));
    assert(string_views(list@) =~= string_views(old(list)@).push(text@));
}

} // verus!
