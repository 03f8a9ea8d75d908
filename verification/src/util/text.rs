//! Small operations on strings and lists of strings.

use vstd::prelude::*;

verus! {

/// All of `parts` written one after the other, with nothing in between.
pub open spec fn concat(parts: Seq<Seq<char>>) -> Seq<char>
    decreases parts.len(),
{
    if parts.len() == 0 {
        Seq::<char>::empty()
    } else {
        concat(parts.drop_last()) + parts.last()
    }
}

/// Writes the strings of `parts` one after the other.
pub fn concat_all(parts: &Vec<String>) -> (joined: String)
    ensures
        joined@ == concat(parts.deep_view()),
{
    let mut joined = String::new();
    let mut i: usize = 0;
    while i < parts.len()
        invariant
            i <= parts.len(),
            joined@ == concat(parts.deep_view().take(i as int)),
        decreases parts.len() - i,
    {
        joined.append(parts[i].as_str());
        proof {
            let all = parts.deep_view();
            assert(all.take(i + 1).drop_last() =~= all.take(i as int));
            assert(all.take(i + 1).last() == parts[i as int]@);
        }
        i += 1;
    }
    assert(parts.deep_view().take(i as int) =~= parts.deep_view());
    joined
}

/// `prefix` followed by `rest`.
pub fn prefixed(prefix: &str, rest: &str) -> (joined: String)
    ensures
        joined@ == prefix@ + rest@,
{
    let mut joined = String::from_str(prefix);
    joined.append(rest);
    joined
}

/// A copy of every string of `items`, in the same order.
pub fn clone_strings(items: &Vec<String>) -> (copy: Vec<String>)
    ensures
        copy.deep_view() == items.deep_view(),
        copy@.len() == items@.len(),
{
    let mut copy: Vec<String> = Vec::new();
    let mut i: usize = 0;
    while i < items.len()
        invariant
            i <= items.len(),
            copy@.len() == i,
            forall|j: int| 0 <= j < i ==> (#[trigger] copy@[j])@ == items@[j]@,
        decreases items.len() - i,
    {
        copy.push(items[i].clone());
        i += 1;
    }
    assert(copy.deep_view() =~= items.deep_view());
    copy
}

/// A copy of an optional list of strings.
pub fn clone_optional_strings(items: &Option<Vec<String>>) -> (copy: Option<Vec<String>>)
    ensures
        copy.deep_view() == items.deep_view(),
{
    match items {
        Some(list) => Some(clone_strings(list)),
        None => None,
    }
}

/// A copy of an optional string.
pub fn clone_optional_string(item: &Option<String>) -> (copy: Option<String>)
    ensures
        copy.deep_view() == item.deep_view(),
{
    match item {
        Some(text) => Some(text.clone()),
        None => None,
    }
}

} // verus!
