//! Texts that are cut at a separator.

use vstd::prelude::*;

verus! {

/// Whether `mark` occurs nowhere in `text`.
pub open spec fn lacks(text: Seq<char>, mark: char) -> bool {
    forall|i: int| 0 <= i < text.len() ==> text[i] != mark
}

/// Whether `s` holds no line feed.
pub open spec fn is_single_line(s: Seq<char>) -> bool {
    lacks(s, '\n')
}

/// A text can be cut at its last `mark` in one way only: two cuts whose
/// back parts hold no `mark` are the same cut.
pub proof fn lemma_cut_at_last(
    mark: char,
    front_a: Seq<char>,
    back_a: Seq<char>,
    front_b: Seq<char>,
    back_b: Seq<char>,
)
    requires
        front_a + seq![mark] + back_a == front_b + seq![mark] + back_b,
        lacks(back_a, mark),
        lacks(back_b, mark),
    ensures
        front_a == front_b,
        back_a == back_b,
{
    let whole_a = front_a + seq![mark] + back_a;
    let whole_b = front_b + seq![mark] + back_b;
    assert(whole_a.len() == front_a.len() + 1 + back_a.len());
    assert(whole_b.len() == front_b.len() + 1 + back_b.len());
    if back_a.len() < back_b.len() {
        // the mark that ends `front_a` would lie inside `back_b`
        let at = front_a.len() as int;
        assert(whole_b[at] == back_b[at - front_b.len() - 1]);
    }
    if back_b.len() < back_a.len() {
        // the mark that ends `front_b` would lie inside `back_a`
        let at = front_b.len() as int;
        assert(whole_a[at] == back_a[at - front_a.len() - 1]);
    }
    assert(front_a =~= whole_a.subrange(0, front_a.len() as int));
    assert(front_b =~= whole_b.subrange(0, front_b.len() as int));
    assert(back_a =~= whole_a.subrange(front_a.len() as int + 1, whole_a.len() as int));
    assert(back_b =~= whole_b.subrange(front_b.len() as int + 1, whole_b.len() as int));
}

} // verus!
