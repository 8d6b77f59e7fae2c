//! Small verified utilities for assembling token text out of string lists.

use vstd::prelude::*;
use vstd::string::StringExecFns;

verus! {

/// The views of a sequence of strings, element for element.
pub open spec fn views_of(items: Seq<String>) -> Seq<Seq<char>> {
    items.map_values(|s: String| s@)
}

/// The elements of `items` joined by `sep`: empty for no elements, and no
/// leading or trailing separator otherwise.
pub open spec fn spec_join(items: Seq<Seq<char>>, sep: Seq<char>) -> Seq<char>
    decreases items.len(),
{
    if items.len() == 0 {
        Seq::empty()
    } else if items.len() == 1 {
        items[0]
    } else {
        spec_join(items.drop_last(), sep) + sep + items.last()
    }
}

/// A comma-separated list in angle brackets, or nothing when the list is
/// empty.
pub open spec fn spec_bracketed(items: Seq<Seq<char>>) -> Seq<char> {
    if items.len() == 0 {
        Seq::empty()
    } else {
        "<"@ + spec_join(items, ", "@) + ">"@
    }
}

/// Joins the strings in `parts` with the separator `sep`.
pub fn join_with(parts: &Vec<String>, sep: &str) -> (r: String)
    ensures
        r@ == spec_join(views_of(parts@), sep@),
{
    let ghost vs = views_of(parts@);
    let mut r = String::new();
    proof {
        assert(vs.take(0) =~= Seq::<Seq<char>>::empty());
    }
    let mut i: usize = 0;
    while i < parts.len()
        invariant
            i <= parts@.len(),
            vs == views_of(parts@),
            vs.len() == parts@.len(),
            r@ == spec_join(vs.take(i as int), sep@),
        decreases parts@.len() - i,
    {
        if i != 0 {
            r.append(sep);
        }
        r.append(parts[i].as_str());
        proof {
            assert(vs[i as int] == parts@[i as int]@);
            assert(vs.take(i + 1).drop_last() =~= vs.take(i as int));
            assert(vs.take(i + 1).last() == vs[i as int]);
            if i == 0 {
                assert(r@ =~= spec_join(vs.take(1), sep@));
            }
        }
        i = i + 1;
    }
    proof {
        assert(vs.take(parts@.len() as int) =~= vs);
    }
    r
}

/// Renders `parts` as an angle-bracketed, comma-separated list, or as
/// nothing when `parts` is empty.
pub fn bracketed_list(parts: &Vec<String>) -> (r: String)
    ensures
        r@ == spec_bracketed(views_of(parts@)),
{
    if parts.len() == 0 {
        String::new()
    } else {
        let mut r = "<".to_owned();
        let joined = join_with(parts, ", ");
        r.append(joined.as_str());
        r.append(">");
        r
    }
}

} // verus!
