//! Lists of named values, searched from the front.

use vstd::prelude::*;

verus! {

/// The first value of the list that bears the name.
pub open spec fn first_named<V>(list: Seq<(String, V)>, name: Seq<char>) -> Option<V>
    decreases list.len(),
{
    if list.len() == 0 {
        None
    } else if list[0].0@ == name {
        Some(list[0].1)
    } else {
        first_named(list.drop_first(), name)
    }
}

/// Looks a value up by its name.
pub fn find<'a, V>(list: &'a Vec<(String, V)>, name: &str) -> (value: Option<&'a V>)
    ensures
        match value {
            Some(v) => first_named(list@, name@) == Some(*v),
            None => first_named(list@, name@) is None,
        },
{
    let wanted = name.to_owned();
    let mut i: usize = 0;
    assert(list@.skip(0) =~= list@);
    while i < list.len()
        invariant
            i <= list.len(),
            wanted@ == name@,
            first_named(list@, name@) == first_named(list@.skip(i as int), name@),
        decreases list.len() - i,
    {
        let ghost rest = list@.skip(i as int);
        assert(rest.len() > 0);
        assert(rest[0] == list@[i as int]);
        assert(rest.drop_first() =~= list@.skip(i + 1));
        if list[i].0 == wanted {
            return Some(&list[i].1);
        }
        i = i + 1;
    }
    assert(list@.skip(i as int).len() == 0);
    None
}

} // verus!
