use vstd::prelude::*;
use vstd::multiset::Multiset;
use crate::scope::CommandView;

verus! {

/// `c` inserted into `s` from the right: `c` lands after every element whose
/// depth is at most `c`'s, and before every element whose depth is greater.
/// This is one step of the stable insertion sort that orders a flush.
pub open spec fn insert_by_depth(s: Seq<CommandView>, c: CommandView) -> Seq<CommandView>
    decreases s.len(),
{
    if s.len() == 0 {
        seq![c]
    } else if s.last().depth <= c.depth {
        s.push(c)
    } else {
        insert_by_depth(s.drop_last(), c).push(s.last())
    }
}

/// The recorded commands in flush order: sorted by depth ascending, commands
/// of equal depth keeping their recording order (a stable sort, commands
/// inserted one by one in recording order).
pub open spec fn sort_by_depth(s: Seq<CommandView>) -> Seq<CommandView>
    decreases s.len(),
{
    if s.len() == 0 {
        Seq::empty()
    } else {
        insert_by_depth(sort_by_depth(s.drop_last()), s.last())
    }
}

/// Depths never decrease along the sequence.
pub open spec fn sorted_by_depth(s: Seq<CommandView>) -> bool {
    forall|i: int, j: int| 0 <= i <= j < s.len() ==> s[i].depth <= s[j].depth
}

proof fn lemma_insert_ensures(s: Seq<CommandView>, c: CommandView)
    requires
        sorted_by_depth(s),
    ensures
        sorted_by_depth(insert_by_depth(s, c)),
        insert_by_depth(s, c).len() == s.len() + 1,
        insert_by_depth(s, c).to_multiset() == s.to_multiset().insert(c),
        forall|i: int|
            0 <= i < insert_by_depth(s, c).len() ==> (#[trigger] insert_by_depth(s, c)[i]) == c
                || s.contains(insert_by_depth(s, c)[i]),
    decreases s.len(),
{
    broadcast use vstd::seq_lib::group_seq_properties;

    s.to_multiset_ensures();
    if s.len() == 0 {
        assert(insert_by_depth(s, c) =~= Seq::empty().push(c));
        Seq::<CommandView>::empty().to_multiset_ensures();
        assert(Seq::<CommandView>::empty().to_multiset() =~= Multiset::empty());
    } else if s.last().depth <= c.depth {
        assert(forall|i: int| 0 <= i < s.len() ==> s[i].depth <= s.last().depth);
    } else {
        let dl = s.drop_last();
        assert(sorted_by_depth(dl));
        lemma_insert_ensures(dl, c);
        let r = insert_by_depth(dl, c).push(s.last());
        dl.to_multiset_ensures();
        insert_by_depth(dl, c).to_multiset_ensures();
        assert(dl.push(s.last()) =~= s);
        assert(r.to_multiset() =~= s.to_multiset().insert(c));
        // every element of the recursive insertion is either c or an element
        // of dl, and all of those have depth at most s.last().depth
        assert(forall|i: int|
            0 <= i < dl.len() ==> (#[trigger] dl[i]).depth <= s.last().depth);
        assert forall|i: int| 0 <= i < r.len() implies r[i] == c || s.contains(r[i]) by {
            if i < r.len() - 1 {
                if insert_by_depth(dl, c)[i] != c {
                    assert(dl.contains(insert_by_depth(dl, c)[i]));
                }
            }
        }
        assert forall|i: int, j: int| 0 <= i <= j < r.len() implies r[i].depth <= r[j].depth by {
            if j < r.len() - 1 {
                assert(sorted_by_depth(insert_by_depth(dl, c)));
            } else if i < r.len() - 1 {
                // r[j] is s.last(); r[i] is c (whose depth is below last's)
                // or an element of dl (below last by sortedness of s)
                if insert_by_depth(dl, c)[i] != c {
                    assert(dl.contains(insert_by_depth(dl, c)[i]));
                    let k = choose|k: int| 0 <= k < dl.len() && dl[k] == insert_by_depth(dl, c)[i];
                    assert(dl[k].depth <= s.last().depth);
                }
            }
        }
    }
}

/// Law: flush order is ordered. Sorting the recorded commands for a flush
/// yields the same commands (the same multiset, the same count) with depths
/// ascending along the stream.
pub proof fn lemma_flush_order_sorted(s: Seq<CommandView>)
    ensures
        sorted_by_depth(sort_by_depth(s)),
        sort_by_depth(s).len() == s.len(),
        sort_by_depth(s).to_multiset() == s.to_multiset(),
    decreases s.len(),
{
    s.to_multiset_ensures();
    if s.len() == 0 {
        assert(s =~= Seq::<CommandView>::empty());
    } else {
        let dl = s.drop_last();
        lemma_flush_order_sorted(dl);
        lemma_insert_ensures(sort_by_depth(dl), s.last());
        dl.to_multiset_ensures();
        assert(dl.push(s.last()) =~= s);
        assert(sort_by_depth(s).to_multiset() =~= s.to_multiset());
    }
}

proof fn lemma_insert_filter(s: Seq<CommandView>, c: CommandView, d: int)
    ensures
        c.depth == d ==> insert_by_depth(s, c).filter(|x: CommandView| x.depth == d) == s.filter(
            |x: CommandView| x.depth == d,
        ).push(c),
        c.depth != d ==> insert_by_depth(s, c).filter(|x: CommandView| x.depth == d) == s.filter(
            |x: CommandView| x.depth == d,
        ),
    decreases s.len(),
{
    reveal(Seq::filter);
    let pred = |x: CommandView| x.depth == d;
    if s.len() == 0 {
        assert(seq![c].drop_last() =~= Seq::<CommandView>::empty());
        assert(s =~= Seq::<CommandView>::empty());
        if c.depth == d {
            assert(insert_by_depth(s, c).filter(pred) =~= s.filter(pred).push(c));
        } else {
            assert(insert_by_depth(s, c).filter(pred) =~= s.filter(pred));
        }
    } else if s.last().depth <= c.depth {
        assert(s.push(c).drop_last() =~= s);
        if c.depth == d {
            assert(s.push(c).filter(pred) =~= s.filter(pred).push(c));
        }
    } else {
        let dl = s.drop_last();
        lemma_insert_filter(dl, c, d);
        let r = insert_by_depth(dl, c).push(s.last());
        assert(r.drop_last() =~= insert_by_depth(dl, c));
        // s.last().depth > c.depth, so when c matches the filter the last
        // element does not
        if c.depth == d {
            assert(!pred(s.last()));
            assert(r.filter(pred) =~= s.filter(pred).push(c));
        } else {
            assert(r.filter(pred) =~= s.filter(pred));
        }
    }
}

/// Law: ties keep recording order. For every depth, the commands of exactly
/// that depth come out of the sort in the same order they were recorded, so
/// commands at equal depth are painted in call order.
pub proof fn lemma_flush_order_stable(s: Seq<CommandView>, d: int)
    ensures
        sort_by_depth(s).filter(|x: CommandView| x.depth == d) == s.filter(
            |x: CommandView| x.depth == d,
        ),
    decreases s.len(),
{
    reveal(Seq::filter);
    let pred = |x: CommandView| x.depth == d;
    if s.len() == 0 {
    } else {
        let dl = s.drop_last();
        lemma_flush_order_stable(dl, d);
        lemma_insert_filter(sort_by_depth(dl), s.last(), d);
        if pred(s.last()) {
            assert(s.filter(pred) =~= dl.filter(pred).push(s.last()));
        } else {
            assert(s.filter(pred) =~= dl.filter(pred));
        }
    }
}

} // verus!
