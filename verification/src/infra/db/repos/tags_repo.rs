//! User-defined tags on inventory assets.
use vstd::prelude::*;

verus! {

/// A user-defined tag.
#[derive(Debug, Clone, PartialEq, Eq)]
pub struct Tag {
    pub id: i32,
    pub name: String,
    pub color: String,
}

pub struct TagsRepo;

/// The tags of `rows[..n]` whose asset id is `asset`, in row order.
pub open spec fn tags_of(rows: Seq<(String, Tag)>, asset: Seq<char>, n: int) -> Seq<Tag>
    decreases n,
{
    if n <= 0 {
        Seq::empty()
    } else if rows[n - 1].0@ == asset {
        tags_of(rows, asset, n - 1).push(rows[n - 1].1)
    } else {
        tags_of(rows, asset, n - 1)
    }
}

/// Whether some row of `rows[..n]` belongs to `asset`.
pub open spec fn has_asset(rows: Seq<(String, Tag)>, asset: Seq<char>, n: int) -> bool {
    exists|i: int| 0 <= i < n && (#[trigger] rows[i]).0@ == asset
}

/// `groups` lists each asset of `rows[..n]` once, in order of first
/// appearance, with all of that asset's tags in row order.
pub open spec fn grouped(rows: Seq<(String, Tag)>, n: int, groups: Seq<(String, Vec<Tag>)>) -> bool {
    &&& forall|a: int, b: int|
        0 <= a < b < groups.len() ==> (#[trigger] groups[a]).0@ != (#[trigger] groups[b]).0@
    &&& forall|g: int|
        0 <= g < groups.len() ==> (#[trigger] groups[g]).1@ == tags_of(rows, groups[g].0@, n)
    &&& forall|g: int| 0 <= g < groups.len() ==> has_asset(rows, (#[trigger] groups[g]).0@, n)
    &&& forall|i: int|
        0 <= i < n ==> exists|g: int| 0 <= g < groups.len() && (#[trigger] groups[g]).0@ == (
        #[trigger] rows[i]).0@
}

/// An asset with no rows has no tags.
proof fn lemma_tags_of_absent(rows: Seq<(String, Tag)>, asset: Seq<char>, n: int)
    requires
        forall|k: int| 0 <= k < n ==> (#[trigger] rows[k]).0@ != asset,
    ensures
        tags_of(rows, asset, n) == Seq::<Tag>::empty(),
    decreases n,
{
    if n > 0 {
        lemma_tags_of_absent(rows, asset, n - 1);
    }
}

impl TagsRepo {
    /// Groups `(asset_id, tag)` rows by asset id.
    pub fn group_by_asset(rows: Vec<(String, Tag)>) -> (groups: Vec<(String, Vec<Tag>)>)
        ensures
            grouped(rows@, rows@.len() as int, groups@),
    {
        let ghost all = rows@;
        let mut groups: Vec<(String, Vec<Tag>)> = Vec::new();
        let mut rows = rows;
        let mut i: usize = 0;
        let n = rows.len();
        while i < n
            invariant
                n == all.len(),
                i <= n,
                rows@.len() == n - i,
                rows@ == all.subrange(i as int, n as int),
                grouped(all, i as int, groups@),
            decreases n - i,
        {
            let (asset, tag) = rows.remove(0);
            let mut j: usize = 0;
            while j < groups.len()
                invariant
                    j <= groups@.len(),
                    forall|g: int| 0 <= g < j ==> (#[trigger] groups@[g]).0@ != asset@,
                ensures
                    j <= groups@.len(),
                    forall|g: int| 0 <= g < j ==> (#[trigger] groups@[g]).0@ != asset@,
                    j < groups@.len() ==> groups@[j as int].0@ == asset@,
                decreases groups@.len() - j,
            {
                if groups[j].0 == asset {
                    break;
                }
                j = j + 1;
            }
            let ghost before = groups@;
            let ghost row = all[i as int];
            assert(row.0@ == asset@ && row.1 == tag);
            if j < groups.len() {
                groups[j].1.push(tag);
                proof {
                    assert forall|g: int| 0 <= g < groups@.len() implies (#[trigger] groups@[g]).1@
                        == tags_of(all, groups@[g].0@, i + 1) by {
                        if g != j {
                            assert(before[g].0@ != before[j as int].0@);
                        }
                    }
                    assert forall|g: int| 0 <= g < groups@.len() implies has_asset(
                        all,
                        (#[trigger] groups@[g]).0@,
                        i + 1,
                    ) by {
                        assert(has_asset(all, before[g].0@, i as int));
                        let w = choose|w: int| 0 <= w < i && (#[trigger] all[w]).0@ == before[g].0@;
                        assert(all[w].0@ == groups@[g].0@);
                    }
                    assert forall|k: int| 0 <= k < i + 1 implies exists|g: int|
                        0 <= g < groups@.len() && (#[trigger] groups@[g]).0@ == (
                        #[trigger] all[k]).0@ by {
                        if k == i {
                            assert(groups@[j as int].0@ == all[k].0@);
                        } else {
                            let g = choose|g: int|
                                0 <= g < before.len() && (#[trigger] before[g]).0@ == all[k].0@;
                            assert(groups@[g].0@ == all[k].0@);
                        }
                    }
                }
            } else {
                proof {
                    assert forall|k: int| 0 <= k < i implies (#[trigger] all[k]).0@ != asset@ by {
                        let g = choose|g: int|
                            0 <= g < before.len() && (#[trigger] before[g]).0@ == all[k].0@;
                    }
                    lemma_tags_of_absent(all, asset@, i as int);
                }
                groups.push((asset, vec![tag]));
                proof {
                    let last = groups@.len() - 1;
                    assert(groups@[last].1@ =~= seq![tag]);
                    assert(tags_of(all, asset@, i + 1) =~= seq![tag]);
                    assert forall|g: int| 0 <= g < groups@.len() implies (#[trigger] groups@[g]).1@
                        == tags_of(all, groups@[g].0@, i + 1) by {
                        if g < last {
                            assert(before[g].0@ != asset@);
                        }
                    }
                    assert forall|g: int| 0 <= g < groups@.len() implies has_asset(
                        all,
                        (#[trigger] groups@[g]).0@,
                        i + 1,
                    ) by {
                        if g < last {
                            assert(has_asset(all, before[g].0@, i as int));
                            let w = choose|w: int|
                                0 <= w < i && (#[trigger] all[w]).0@ == before[g].0@;
                            assert(all[w].0@ == groups@[g].0@);
                        } else {
                            assert(all[i as int].0@ == groups@[g].0@);
                        }
                    }
                    assert forall|k: int| 0 <= k < i + 1 implies exists|g: int|
                        0 <= g < groups@.len() && (#[trigger] groups@[g]).0@ == (
                        #[trigger] all[k]).0@ by {
                        if k == i {
                            assert(groups@[last].0@ == all[k].0@);
                        } else {
                            let g = choose|g: int|
                                0 <= g < before.len() && (#[trigger] before[g]).0@ == all[k].0@;
                            assert(groups@[g].0@ == all[k].0@);
                        }
                    }
                }
            }
            i = i + 1;
        }
        groups
    }
}

/// The number of tags the groups hold in all.
pub open spec fn total_tags(groups: Seq<(String, Vec<Tag>)>) -> nat
    decreases groups.len(),
{
    if groups.len() == 0 {
        0
    } else {
        total_tags(groups.drop_last()) + groups.last().1@.len()
    }
}

/// The number of tags `rows[..m]` gives the assets `keys` in all.
spec fn tags_for_keys(rows: Seq<(String, Tag)>, keys: Seq<Seq<char>>, m: int) -> nat
    decreases keys.len(),
{
    if keys.len() == 0 {
        0
    } else {
        tags_for_keys(rows, keys.drop_last(), m) + tags_of(rows, keys.last(), m).len()
    }
}

/// How many of `keys` equal `x`.
spec fn occurrences(keys: Seq<Seq<char>>, x: Seq<char>) -> nat
    decreases keys.len(),
{
    if keys.len() == 0 {
        0
    } else {
        occurrences(keys.drop_last(), x) + if keys.last() == x {
            1nat
        } else {
            0nat
        }
    }
}

/// Distinct keys hold any one of them exactly once.
proof fn lemma_occurs_once(keys: Seq<Seq<char>>, x: Seq<char>)
    requires
        forall|a: int, b: int| 0 <= a < b < keys.len() ==> keys[a] != keys[b],
    ensures
        occurrences(keys, x) == if keys.contains(x) {
            1nat
        } else {
            0nat
        },
    decreases keys.len(),
{
    if keys.len() > 0 {
        let init = keys.drop_last();
        lemma_occurs_once(init, x);
        if keys.last() == x {
            assert(!init.contains(x)) by {
                if init.contains(x) {
                    let a = choose|a: int| 0 <= a < init.len() && init[a] == x;
                    assert(keys[a] == keys[keys.len() - 1]);
                }
            }
            assert(keys.contains(x)) by {
                assert(keys[keys.len() - 1] == x);
            }
        } else {
            assert(keys.contains(x) == init.contains(x)) by {
                if keys.contains(x) {
                    let a = choose|a: int| 0 <= a < keys.len() && keys[a] == x;
                    assert(init[a] == x);
                }
                if init.contains(x) {
                    let a = choose|a: int| 0 <= a < init.len() && init[a] == x;
                    assert(keys[a] == x);
                }
            }
        }
    }
}

/// One more row adds one tag to the keys that name its asset.
proof fn lemma_tags_for_keys_step(rows: Seq<(String, Tag)>, keys: Seq<Seq<char>>, m: int)
    requires
        0 < m <= rows.len(),
    ensures
        tags_for_keys(rows, keys, m) == tags_for_keys(rows, keys, m - 1) + occurrences(
            keys,
            rows[m - 1].0@,
        ),
    decreases keys.len(),
{
    if keys.len() > 0 {
        lemma_tags_for_keys_step(rows, keys.drop_last(), m);
    }
}

/// Distinct keys covering every asset of `rows[..m]` get `m` tags in all.
proof fn lemma_tags_for_covering_keys(rows: Seq<(String, Tag)>, keys: Seq<Seq<char>>, m: int)
    requires
        0 <= m <= rows.len(),
        forall|a: int, b: int| 0 <= a < b < keys.len() ==> keys[a] != keys[b],
        forall|i: int| 0 <= i < m ==> keys.contains(#[trigger] rows[i].0@),
    ensures
        tags_for_keys(rows, keys, m) == m,
    decreases m,
{
    if m == 0 {
        lemma_tags_for_no_rows(rows, keys);
    } else {
        lemma_tags_for_covering_keys(rows, keys, m - 1);
        lemma_tags_for_keys_step(rows, keys, m);
        assert(keys.contains(rows[m - 1].0@));
        lemma_occurs_once(keys, rows[m - 1].0@);
    }
}

/// No rows give no tags.
proof fn lemma_tags_for_no_rows(rows: Seq<(String, Tag)>, keys: Seq<Seq<char>>)
    ensures
        tags_for_keys(rows, keys, 0) == 0,
    decreases keys.len(),
{
    if keys.len() > 0 {
        lemma_tags_for_no_rows(rows, keys.drop_last());
    }
}

/// The groups' tag count is the count of their keys' tags.
proof fn lemma_total_is_keys_total(rows: Seq<(String, Tag)>, groups: Seq<(String, Vec<Tag>)>, n: int)
    requires
        forall|g: int| 0 <= g < groups.len() ==> (#[trigger] groups[g]).1@ == tags_of(rows, groups[g].0@, n),
    ensures
        total_tags(groups) == tags_for_keys(rows, groups.map_values(|g: (String, Vec<Tag>)| g.0@), n),
    decreases groups.len(),
{
    let keys = groups.map_values(|g: (String, Vec<Tag>)| g.0@);
    if groups.len() > 0 {
        let init = groups.drop_last();
        assert forall|g: int| 0 <= g < init.len() implies (#[trigger] init[g]).1@ == tags_of(
            rows,
            init[g].0@,
            n,
        ) by {
            assert(init[g] == groups[g]);
        }
        lemma_total_is_keys_total(rows, init, n);
        assert(keys.drop_last() =~= init.map_values(|g: (String, Vec<Tag>)| g.0@));
        assert(groups.last().1@ == tags_of(rows, groups.last().0@, n));
    }
}

/// Grouping loses no row and repeats none: the groups hold exactly as
/// many tags as there were rows.
pub proof fn lemma_grouping_keeps_every_row(
    rows: Seq<(String, Tag)>,
    groups: Seq<(String, Vec<Tag>)>,
)
    requires
        grouped(rows, rows.len() as int, groups),
    ensures
        total_tags(groups) == rows.len(),
{
    let n = rows.len() as int;
    let keys = groups.map_values(|g: (String, Vec<Tag>)| g.0@);
    lemma_total_is_keys_total(rows, groups, n);
    assert forall|i: int| 0 <= i < n implies keys.contains(#[trigger] rows[i].0@) by {
        let g = choose|g: int| 0 <= g < groups.len() && (#[trigger] groups[g]).0@ == (
        #[trigger] rows[i]).0@;
        assert(keys[g] == rows[i].0@);
    }
    assert forall|a: int, b: int| 0 <= a < b < keys.len() implies keys[a] != keys[b] by {
        assert(keys[a] == groups[a].0@);
        assert(keys[b] == groups[b].0@);
    }
    lemma_tags_for_covering_keys(rows, keys, n);
}

} // verus!
