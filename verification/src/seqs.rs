//! Facts about the values of vectors, and copies of vectors of text.

use vstd::prelude::*;

verus! {

/// Pushing an element onto a vector pushes its value onto the vector's value.
pub proof fn lemma_deep_view_push<T: DeepView>(before: Vec<T>, after: Vec<T>, last: T)
    requires
        after@ == before@.push(last),
    ensures
        after.deep_view() == before.deep_view().push(last.deep_view()),
{
    assert(after.deep_view() =~= before.deep_view().push(last.deep_view()));
}

/// Taking one more element of a sequence pushes that element onto the shorter prefix.
pub proof fn lemma_take_next<A>(items: Seq<A>, i: int)
    requires
        0 <= i < items.len(),
    ensures
        items.take(i + 1) == items.take(i).push(items[i]),
{
    assert(items.take(i + 1) =~= items.take(i).push(items[i]));
}

/// The shortest prefix of a sequence is empty, and the longest is the sequence.
pub proof fn lemma_take_ends<A>(items: Seq<A>)
    ensures
        items.take(0) == Seq::<A>::empty(),
        items.take(items.len() as int) == items,
{
    assert(items.take(0) =~= Seq::<A>::empty());
    assert(items.take(items.len() as int) =~= items);
}

/// Nothing is left of an empty sequence, whatever the test.
pub proof fn lemma_filter_empty<A>(test: spec_fn(A) -> bool)
    ensures
        Seq::<A>::empty().filter(test) == Seq::<A>::empty(),
{
    reveal(Seq::filter);
}

/// A value that `filter_map` keeps for some element is among its results.
pub proof fn lemma_filter_map_keeps<A, B>(items: Seq<A>, pick: spec_fn(A) -> Option<B>, i: int)
    requires
        0 <= i < items.len(),
        pick(items[i]) is Some,
    ensures
        items.filter_map(pick).contains(pick(items[i])->Some_0),
    decreases items.len(),
{
    let rest = items.drop_last();
    let kept = rest.filter_map(pick);
    if i == items.len() - 1 {
        let value = pick(items[i])->Some_0;
        assert((kept + seq![value])[kept.len() as int] == value);
    } else {
        lemma_filter_map_keeps(rest, pick, i);
        let value = pick(rest[i])->Some_0;
        let at = choose|at: int| 0 <= at < kept.len() && kept[at] == value;
        match pick(items.last()) {
            Some(other) => {
                assert((kept + seq![other])[at] == value);
            },
            None => {},
        }
    }
}

/// The value of two vectors joined is the values of the two, joined.
pub proof fn lemma_deep_view_concat<T: DeepView>(first: Vec<T>, second: Vec<T>, joined: Vec<T>)
    requires
        joined@ == first@ + second@,
    ensures
        joined.deep_view() == first.deep_view() + second.deep_view(),
{
    assert(joined.deep_view() =~= first.deep_view() + second.deep_view());
}

/// Copies of the strings of a vector, in order.
pub fn clone_strings(items: &Vec<String>) -> (copy: Vec<String>)
    ensures
        copy.deep_view() == items.deep_view(),
{
    let mut copy: Vec<String> = Vec::new();
    let mut i: usize = 0;
    while i < items.len()
        invariant
            i <= items.len(),
            copy.len() == i,
            forall|j: int| 0 <= j < i ==> copy@[j]@ == (#[trigger] items@[j])@,
        decreases items.len() - i,
    {
        copy.push(items[i].clone());
        i += 1;
    }
    assert(copy.deep_view() =~= items.deep_view());
    copy
}

} // verus!
