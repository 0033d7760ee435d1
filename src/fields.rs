//! Splitting text into the fields between its spaces.

use vstd::prelude::*;

verus! {

/// The fields of `s` between single spaces, as splitting at every space gives
/// them: one more field than there are spaces, some possibly empty.
pub open spec fn fields(s: Seq<char>) -> Seq<Seq<char>>
    decreases s.len(),
{
    if s.len() == 0 {
        seq![seq![]]
    } else {
        let rest = fields(s.drop_last());
        if s.last() == ' ' {
            rest.push(seq![])
        } else {
            rest.update(rest.len() - 1, rest.last().push(s.last()))
        }
    }
}

/// Text always has at least one field, if an empty one.
pub proof fn lemma_fields_len(s: Seq<char>)
    ensures
        fields(s).len() >= 1,
    decreases s.len(),
{
    if s.len() > 0 {
        lemma_fields_len(s.drop_last());
    }
}

/// Where the fields of `value` lie: field `k` of `fields(value@)` is the text
/// from `r[k].0` up to `r[k].1`.
pub fn field_bounds(value: &str) -> (r: Vec<(usize, usize)>)
    ensures
        r@.len() == fields(value@).len(),
        forall|k: int|
            0 <= k < r@.len() ==> {
                let (a, b) = #[trigger] r@[k];
                &&& a <= b <= value@.len()
                &&& fields(value@)[k] == value@.subrange(a as int, b as int)
            },
{
    let n = value.unicode_len();
    let mut bounds: Vec<(usize, usize)> = Vec::new();
    let mut start: usize = 0;
    let mut i: usize = 0;
    while i < n
        invariant
            n == value@.len(),
            start <= i <= n,
            bounds@.len() + 1 == fields(value@.take(i as int)).len(),
            fields(value@.take(i as int)).last() == value@.subrange(start as int, i as int),
            forall|k: int|
                0 <= k < bounds@.len() ==> {
                    let (a, b) = #[trigger] bounds@[k];
                    &&& a <= b <= n
                    &&& fields(value@.take(i as int))[k] == value@.subrange(a as int, b as int)
                },
        decreases n - i,
    {
        let c = value.get_char(i);
        proof {
            lemma_fields_len(value@.take(i as int));
            assert(value@.take(i + 1).drop_last() =~= value@.take(i as int));
        }
        if c == ' ' {
            bounds.push((start, i));
            start = i + 1;
        } else {
            assert(value@.subrange(start as int, i + 1) =~= value@.subrange(
                start as int,
                i as int,
            ).push(c));
        }
        i += 1;
    }
    proof {
        assert(value@.take(n as int) =~= value@);
    }
    bounds.push((start, n));
    bounds
}

} // verus!
