//! Deciding whether an index's settings on the server match the attribute
//! lists a document type declares. Two attribute lists count as the same
//! configuration when they hold the same words, however ordered — which is
//! exactly when their sorted forms coincide — so the decision is specified
//! as multiset equality of the words.

use vstd::prelude::*;
use vstd::multiset::Multiset;
use crate::index::IndexSettings;

verus! {

/// The words of an attribute list, by value.
pub open spec fn views_of(s: Seq<String>) -> Seq<Seq<char>> {
    s.map_values(|t: String| t@)
}

/// How often `x` occurs in `s`.
spec fn occ(s: Seq<Seq<char>>, x: Seq<char>) -> nat
    decreases s.len(),
{
    if s.len() == 0 {
        0
    } else {
        occ(s.drop_last(), x) + (if s.last() == x {
            1nat
        } else {
            0nat
        })
    }
}

proof fn lemma_occ_is_count(s: Seq<Seq<char>>, x: Seq<char>)
    ensures
        occ(s, x) == s.to_multiset().count(x),
    decreases s.len(),
{
    broadcast use vstd::seq_lib::group_to_multiset_ensures;

    if s.len() == 0 {
        assert(!s.contains(x));
    } else {
        lemma_occ_is_count(s.drop_last(), x);
        assert(s =~= s.drop_last().push(s.last()));
        assert(s.drop_last().push(s.last()).to_multiset() =~= s.drop_last().to_multiset().insert(
            s.last(),
        ));
    }
}

fn count_matches(v: &Vec<String>, x: &String) -> (n: usize)
    ensures
        n == occ(views_of(v@), x@),
{
    let mut n: usize = 0;
    let mut k: usize = 0;
    proof {
        assert(views_of(v@).take(0) =~= Seq::<Seq<char>>::empty());
    }
    while k < v.len()
        invariant
            k <= v@.len(),
            n <= k,
            n == occ(views_of(v@).take(k as int), x@),
        decreases v@.len() - k,
    {
        let hit = v[k] == *x;
        proof {
            assert(views_of(v@).take(k + 1).drop_last() =~= views_of(v@).take(k as int));
            assert(views_of(v@).take(k + 1).last() == v@[k as int]@);
        }
        if hit {
            n += 1;
        }
        k += 1;
    }
    proof {
        assert(views_of(v@).take(v@.len() as int) =~= views_of(v@));
    }
    n
}

fn counts_match(a: &Vec<String>, b: &Vec<String>) -> (r: bool)
    ensures
        r == forall|i: int|
            0 <= i < a@.len() ==> #[trigger] occ(views_of(a@), a@[i]@) == occ(
                views_of(b@),
                a@[i]@,
            ),
{
    let mut k: usize = 0;
    while k < a.len()
        invariant
            k <= a@.len(),
            forall|i: int|
                0 <= i < k ==> #[trigger] occ(views_of(a@), a@[i]@) == occ(views_of(b@), a@[i]@),
        decreases a@.len() - k,
    {
        let ca = count_matches(a, &a[k]);
        let cb = count_matches(b, &a[k]);
        if ca != cb {
            return false;
        }
        k += 1;
    }
    true
}

/// Whether two attribute lists disagree as configurations: true exactly
/// when some word occurs a different number of times in the one than in
/// the other — equivalently, when sorting both would not make them equal.
pub fn attrs_differ(a: &Vec<String>, b: &Vec<String>) -> (r: bool)
    ensures
        r == (views_of(a@).to_multiset() != views_of(b@).to_multiset()),
{
    let fwd = counts_match(a, b);
    let bwd = counts_match(b, a);
    let same = fwd && bwd;
    proof {
        broadcast use vstd::seq_lib::group_to_multiset_ensures;

        let va = views_of(a@);
        let vb = views_of(b@);
        if same {
            assert forall|x: Seq<char>| va.to_multiset().count(x) == vb.to_multiset().count(
                x,
            ) by {
                lemma_occ_is_count(va, x);
                lemma_occ_is_count(vb, x);
                if va.contains(x) {
                    let i = choose|i: int| 0 <= i < va.len() && va[i] == x;
                    assert(occ(va, a@[i]@) == occ(vb, a@[i]@));
                } else if vb.contains(x) {
                    let i = choose|i: int| 0 <= i < vb.len() && vb[i] == x;
                    assert(occ(vb, b@[i]@) == occ(va, b@[i]@));
                } else {
                    assert(va.to_multiset().count(x) == 0);
                    assert(vb.to_multiset().count(x) == 0);
                }
            }
            assert(va.to_multiset() =~= vb.to_multiset());
        } else {
            if !fwd {
                let i = choose|i: int|
                    0 <= i < a@.len() && occ(va, a@[i]@) != occ(vb, a@[i]@);
                lemma_occ_is_count(va, a@[i]@);
                lemma_occ_is_count(vb, a@[i]@);
                assert(va.to_multiset().count(a@[i]@) != vb.to_multiset().count(a@[i]@));
            } else {
                let i = choose|i: int|
                    0 <= i < b@.len() && occ(vb, b@[i]@) != occ(va, b@[i]@);
                lemma_occ_is_count(va, b@[i]@);
                lemma_occ_is_count(vb, b@[i]@);
                assert(va.to_multiset().count(b@[i]@) != vb.to_multiset().count(b@[i]@));
            }
        }
    }
    !same
}

/// `a` comes no later than `b` in lexicographic order by character.
pub open spec fn lex_le(a: Seq<char>, b: Seq<char>) -> bool
    decreases a.len(),
{
    if a.len() == 0 {
        true
    } else if b.len() == 0 {
        false
    } else if (a.first() as u32) == (b.first() as u32) {
        lex_le(a.drop_first(), b.drop_first())
    } else {
        (a.first() as u32) < (b.first() as u32)
    }
}

proof fn lemma_lex_le_total(a: Seq<char>, b: Seq<char>)
    ensures
        lex_le(a, b) || lex_le(b, a),
    decreases a.len(),
{
    if a.len() > 0 && b.len() > 0 && (a.first() as u32) == (b.first() as u32) {
        lemma_lex_le_total(a.drop_first(), b.drop_first());
    }
}

proof fn lemma_lex_le_trans(a: Seq<char>, b: Seq<char>, c: Seq<char>)
    requires
        lex_le(a, b),
        lex_le(b, c),
    ensures
        lex_le(a, c),
    decreases a.len(),
{
    if a.len() > 0 && b.len() > 0 && c.len() > 0 && (a.first() as u32) == (b.first() as u32) && (
    b.first() as u32) == (c.first() as u32) {
        lemma_lex_le_trans(a.drop_first(), b.drop_first(), c.drop_first());
    }
}

/// Relies on `str`'s `PartialOrd`: `&str` compares lexicographically by
/// byte, which for UTF-8 text coincides with lexicographic order by
/// character, since UTF-8 preserves code-point order.
#[verifier::external_body]
fn str_le(a: &String, b: &String) -> (r: bool)
    ensures
        r == lex_le(a@, b@),
{
    a.as_str() <= b.as_str()
}

fn min_str_index(v: &Vec<String>) -> (m: usize)
    requires
        v@.len() > 0,
    ensures
        m < v@.len(),
        forall|k: int| 0 <= k < v@.len() ==> lex_le(v@[m as int]@, v@[k]@),
{
    let mut m: usize = 0;
    let mut k: usize = 1;
    proof {
        lemma_lex_le_total(v@[0]@, v@[0]@);
    }
    while k < v.len()
        invariant
            m < k <= v@.len(),
            forall|i: int| 0 <= i < k ==> lex_le(v@[m as int]@, v@[i]@),
        decreases v@.len() - k,
    {
        let ghost m0 = m as int;
        if str_le(&v[k], &v[m]) {
            m = k;
            proof {
                assert forall|i: int| 0 <= i < k + 1 implies lex_le(v@[m as int]@, v@[i]@) by {
                    if i < k {
                        lemma_lex_le_trans(v@[k as int]@, v@[m0]@, v@[i]@);
                    } else {
                        lemma_lex_le_total(v@[k as int]@, v@[k as int]@);
                    }
                }
            }
        } else {
            proof {
                lemma_lex_le_total(v@[m as int]@, v@[k as int]@);
            }
        }
        k += 1;
    }
    m
}

/// Sorts an attribute list lexicographically: the result holds exactly the
/// given words and is ordered by `lex_le`.
pub fn sort_attrs(v: Vec<String>) -> (r: Vec<String>)
    ensures
        views_of(r@).to_multiset() == views_of(v@).to_multiset(),
        forall|i: int, j: int| 0 <= i < j < r@.len() ==> lex_le(r@[i]@, r@[j]@),
{
    broadcast use vstd::seq_lib::group_to_multiset_ensures;

    let mut rest = v;
    let mut out: Vec<String> = Vec::new();
    let ghost all = views_of(rest@).to_multiset();
    proof {
        assert(views_of(out@).to_multiset() =~= Multiset::<Seq<char>>::empty());
        assert(views_of(out@).to_multiset().add(views_of(rest@).to_multiset()) =~= all);
    }
    while rest.len() > 0
        invariant
            views_of(out@).to_multiset().add(views_of(rest@).to_multiset()) == all,
            forall|i: int, j: int| 0 <= i < j < out@.len() ==> lex_le(out@[i]@, out@[j]@),
            forall|i: int, k: int|
                0 <= i < out@.len() && 0 <= k < rest@.len() ==> lex_le(out@[i]@, rest@[k]@),
        decreases rest@.len(),
    {
        broadcast use vstd::seq_lib::group_to_multiset_ensures;

        let m = min_str_index(&rest);
        let ghost rest0 = rest@;
        let ghost out0 = out@;
        let s = rest.remove(m);
        out.push(s);
        proof {
            assert(views_of(rest0.remove(m as int)) =~= views_of(rest0).remove(m as int));
            assert(views_of(out0.push(s)) =~= views_of(out0).push(s@));
            assert(views_of(rest0).remove(m as int).to_multiset() =~= views_of(
                rest0,
            ).to_multiset().remove(views_of(rest0)[m as int]));
            assert(views_of(rest0)[m as int] == rest0[m as int]@);
            assert(views_of(out0).push(s@).to_multiset() =~= views_of(out0).to_multiset().insert(
                s@,
            ));
            assert(views_of(rest0).to_multiset().count(s@) > 0) by {
                assert(views_of(rest0)[m as int] == s@);
                assert(views_of(rest0).contains(s@));
            }
            assert(views_of(out@).to_multiset().add(views_of(rest@).to_multiset()) =~= all);
            assert forall|i: int, k: int|
                0 <= i < out@.len() && 0 <= k < rest@.len() implies lex_le(
                out@[i]@,
                rest@[k]@,
            ) by {
                let k0 = if k < m { k } else { k + 1 };
                assert(rest@[k] == rest0[k0]);
                if i < out0.len() {
                    assert(out@[i] == out0[i]);
                } else {
                    assert(out@[i] == s);
                }
            }
        }
    }
    out
}

/// Whether the settings on the server call for an update, given the three
/// attribute lists a document type declares: true exactly when any of the
/// filterable, sortable or searchable attribute lists disagrees with the
/// server's as a configuration.
pub fn settings_update_needed(
    filterable: &Vec<String>,
    sortable: &Vec<String>,
    searchable: &Vec<String>,
    settings: &IndexSettings,
) -> (r: bool)
    ensures
        r == {
            ||| views_of(filterable@).to_multiset() != views_of(
                settings.filterable_attributes@,
            ).to_multiset()
            ||| views_of(sortable@).to_multiset() != views_of(
                settings.sortable_attributes@,
            ).to_multiset()
            ||| views_of(searchable@).to_multiset() != views_of(
                settings.searchable_attributes@,
            ).to_multiset()
        },
{
    let f = attrs_differ(filterable, &settings.filterable_attributes);
    let so = attrs_differ(sortable, &settings.sortable_attributes);
    let se = attrs_differ(searchable, &settings.searchable_attributes);
    f || so || se
}

/// Every field of `b` agrees with `a`, except possibly the three attribute
/// lists a document type declares.
pub open spec fn same_but_declared_attrs(a: IndexSettings, b: IndexSettings) -> bool {
    &&& a.displayed_attributes@ == b.displayed_attributes@
    &&& a.ranking_rules@ == b.ranking_rules@
    &&& a.stop_words@ == b.stop_words@
    &&& a.non_separator_tokens@ == b.non_separator_tokens@
    &&& a.separator_tokens@ == b.separator_tokens@
    &&& a.dictionary@ == b.dictionary@
    &&& a.synonyms@ == b.synonyms@
    &&& a.distinct_attribute == b.distinct_attribute
    &&& a.typo_tolerance.equiv(b.typo_tolerance)
    &&& a.faceting == b.faceting
    &&& a.pagination == b.pagination
    &&& a.proximity_precision == b.proximity_precision
}

/// The settings update to post, if any: `None` when the server's three
/// declared attribute lists already hold the declared words; otherwise the
/// server's settings with each of the three lists replaced by the declared
/// words in lexicographic order, and everything else untouched.
pub fn plan_settings_update(
    filterable: Vec<String>,
    sortable: Vec<String>,
    searchable: Vec<String>,
    settings: &IndexSettings,
) -> (r: Option<IndexSettings>)
    ensures
        r is Some <==> {
            ||| views_of(filterable@).to_multiset() != views_of(
                settings.filterable_attributes@,
            ).to_multiset()
            ||| views_of(sortable@).to_multiset() != views_of(
                settings.sortable_attributes@,
            ).to_multiset()
            ||| views_of(searchable@).to_multiset() != views_of(
                settings.searchable_attributes@,
            ).to_multiset()
        },
        r matches Some(updated) ==> {
            &&& same_but_declared_attrs(*settings, updated)
            &&& views_of(updated.filterable_attributes@).to_multiset() == views_of(
                filterable@,
            ).to_multiset()
            &&& views_of(updated.sortable_attributes@).to_multiset() == views_of(
                sortable@,
            ).to_multiset()
            &&& views_of(updated.searchable_attributes@).to_multiset() == views_of(
                searchable@,
            ).to_multiset()
            &&& forall|i: int, j: int|
                0 <= i < j < updated.filterable_attributes@.len() ==> lex_le(
                    updated.filterable_attributes@[i]@,
                    updated.filterable_attributes@[j]@,
                )
            &&& forall|i: int, j: int|
                0 <= i < j < updated.sortable_attributes@.len() ==> lex_le(
                    updated.sortable_attributes@[i]@,
                    updated.sortable_attributes@[j]@,
                )
            &&& forall|i: int, j: int|
                0 <= i < j < updated.searchable_attributes@.len() ==> lex_le(
                    updated.searchable_attributes@[i]@,
                    updated.searchable_attributes@[j]@,
                )
        },
{
    if settings_update_needed(&filterable, &sortable, &searchable, settings) {
        let mut updated = settings.clone();
        updated.filterable_attributes = sort_attrs(filterable);
        updated.sortable_attributes = sort_attrs(sortable);
        updated.searchable_attributes = sort_attrs(searchable);
        Some(updated)
    } else {
        None
    }
}

} // verus!
