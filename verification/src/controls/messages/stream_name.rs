//! Composing stream names from a category and a list of types.

use vstd::prelude::*;

use vstd::string::StringExecFns;

verus! {

/// The type list joined by `+`: empty for no types, and otherwise each type
/// separated from the next by one `+`.
pub open spec fn joined_types(types: Seq<Seq<char>>) -> Seq<char>
    decreases types.len(),
{
    if types.len() == 0 {
        Seq::<char>::empty()
    } else if types.len() == 1 {
        types[0]
    } else {
        joined_types(types.drop_last()) + seq!['+'] + types.last()
    }
}

/// A category with its type list appended, the types joined by `+`. Without
/// types the category stands alone.
pub fn stream_name(category: String, _id: Option<&str>, types: &Vec<String>) -> (s: String)
    ensures
        s@ == category@ + joined_types(types@.map_values(|t: String| t@)),
{
    let ghost all = types@.map_values(|t: String| t@);
    let ghost category_view = category@;
    let mut name = category;
    proof {
        if all.len() == 0 {
            assert(name@ =~= category_view + joined_types(all));
        }
    }
    if types.len() > 0 {
        let mut i: usize = 0;
        while i < types.len()
            invariant
                0 <= i <= all.len(),
                all == types@.map_values(|t: String| t@),
                all.len() == types@.len(),
                name@ == category_view + joined_types(all.take(i as int)),
            decreases types@.len() - i,
        {
            if i > 0 {
                name.append("+");
            }
            name.append(types[i].as_str());
            proof {
                reveal_strlit("+");
                let prefix = all.take(i as int);
                let next = all.take(i + 1);
                assert(next.drop_last() =~= prefix);
                assert(next.last() == all[i as int]);
                if i == 0 {
                    assert(joined_types(next) == all[0]);
                    assert(name@ =~= category_view + joined_types(next));
                } else {
                    assert(joined_types(next) == joined_types(prefix) + seq!['+'] + all[i as int]);
                    assert(name@ =~= category_view + joined_types(next));
                }
            }
            i += 1;
        }
        proof {
            assert(all.take(all.len() as int) =~= all);
        }
    }
    name
}

} // verus!
