//! Ordering records by name.
//!
//! Names compare character by character on code points, a shorter name
//! sorting before any longer one it begins. On UTF-8 text this is the byte
//! order of `str`.
use vstd::prelude::*;
use crate::text::chars_of;

verus! {

broadcast use vstd::seq_lib::group_to_multiset_ensures, vstd::multiset::group_multiset_axioms;

/// Whether `a` sorts strictly before `b`.
pub open spec fn name_lt(a: Seq<char>, b: Seq<char>) -> bool
    decreases a.len(),
{
    if a.len() == 0 {
        b.len() > 0
    } else if b.len() == 0 {
        false
    } else if a[0] < b[0] {
        true
    } else if a[0] == b[0] {
        name_lt(a.drop_first(), b.drop_first())
    } else {
        false
    }
}

/// Two names are equal or one sorts before the other, never both ways.
pub proof fn lemma_name_lt_total(a: Seq<char>, b: Seq<char>)
    ensures
        a == b || name_lt(a, b) || name_lt(b, a),
        !(name_lt(a, b) && name_lt(b, a)),
        !name_lt(a, a),
    decreases a.len(),
{
    if a.len() > 0 && b.len() > 0 {
        if a[0] == b[0] {
            lemma_name_lt_total(a.drop_first(), b.drop_first());
            if a.drop_first() == b.drop_first() {
                assert(a =~= seq![a[0]] + a.drop_first());
                assert(b =~= seq![b[0]] + b.drop_first());
            }
        }
    } else if a.len() == 0 && b.len() == 0 {
        assert(a =~= b);
    }
    lemma_name_lt_irreflexive(a);
}

proof fn lemma_name_lt_irreflexive(a: Seq<char>)
    ensures
        !name_lt(a, a),
    decreases a.len(),
{
    if a.len() > 0 {
        lemma_name_lt_irreflexive(a.drop_first());
    }
}

/// Sorting before is transitive.
pub proof fn lemma_name_lt_transitive(a: Seq<char>, b: Seq<char>, c: Seq<char>)
    requires
        name_lt(a, b),
        name_lt(b, c),
    ensures
        name_lt(a, c),
    decreases a.len(),
{
    if a.len() > 0 && a[0] == b[0] && b[0] == c[0] {
        lemma_name_lt_transitive(a.drop_first(), b.drop_first(), c.drop_first());
    }
}

/// Reordering a sequence reorders its image: sequences with the same
/// elements keep the same elements under any map.
pub proof fn lemma_map_keeps_multiset<A, B>(a: Seq<A>, b: Seq<A>, f: spec_fn(A) -> B)
    requires
        a.to_multiset() == b.to_multiset(),
    ensures
        a.map_values(f).to_multiset() == b.map_values(f).to_multiset(),
    decreases a.len(),
{
    assert(a.to_multiset().len() == a.len());
    assert(b.to_multiset().len() == b.len());
    if a.len() == 0 {
        assert(b.len() == 0);
        assert(a.map_values(f) =~= b.map_values(f));
    } else {
        let x = a.last();
        let a1 = a.drop_last();
        assert(a =~= a1.push(x));
        assert(b.to_multiset().count(x) > 0);
        assert(b.contains(x));
        let i = choose|i: int| 0 <= i < b.len() && b[i] == x;
        let b1 = b.remove(i);
        assert(b1.to_multiset() =~= a1.to_multiset());
        lemma_map_keeps_multiset(a1, b1, f);
        assert(a.map_values(f) =~= a1.map_values(f).push(f(x)));
        assert(b.map_values(f) =~= b1.map_values(f).insert(i, f(x)));
    }
}

/// Whether `a` sorts strictly before `b`.
pub fn str_lt(a: &str, b: &str) -> (r: bool)
    ensures
        r == name_lt(a@, b@),
{
    let x = chars_of(a);
    let y = chars_of(b);
    let mut i: usize = 0;
    assert(a@.skip(0) =~= a@ && b@.skip(0) =~= b@);
    while i < x.len() && i < y.len() && x[i] == y[i]
        invariant
            i <= x@.len(),
            i <= y@.len(),
            x@ == a@,
            y@ == b@,
            name_lt(a@, b@) == name_lt(a@.skip(i as int), b@.skip(i as int)),
        decreases x@.len() - i,
    {
        assert(a@.skip(i as int).drop_first() =~= a@.skip(i + 1));
        assert(b@.skip(i as int).drop_first() =~= b@.skip(i + 1));
        i = i + 1;
    }
    if i == x.len() {
        i < y.len()
    } else if i == y.len() {
        false
    } else {
        x[i] < y[i]
    }
}

/// A record that is ordered by its name.
pub trait Named {
    spec fn name_of(&self) -> Seq<char>;

    fn name_str(&self) -> (r: &str)
        ensures
            r@ == self.name_of(),
    ;
}

/// Whether the records are in order of their names.
pub open spec fn sorted_by_name<T: Named>(s: Seq<T>) -> bool {
    forall|i: int, j: int|
        0 <= i < j < s.len() ==> !name_lt(#[trigger] s[j].name_of(), #[trigger] s[i].name_of())
}

/// Puts the records in order of their names.
pub fn sort_by_name<T: Named>(v: &mut Vec<T>)
    ensures
        final(v)@.to_multiset() == old(v)@.to_multiset(),
        sorted_by_name(final(v)@),
{
    let n = v.len();
    if n == 0 {
        return;
    }
    let mut j: usize = 1;
    while j < n
        invariant
            1 <= j <= n,
            v@.len() == n,
            v@.to_multiset() == old(v)@.to_multiset(),
            sorted_by_name(v@.subrange(0, j as int)),
        decreases n - j,
    {
        let ghost before = v@;
        let x = v.remove(j);
        let ghost rest = v@;
        assert(rest.subrange(0, j as int) =~= before.subrange(0, j as int));
        let mut p: usize = 0;
        while p < j && !str_lt(x.name_str(), v[p].name_str())
            invariant
                p <= j,
                j < n,
                v@ == rest,
                rest.len() == n - 1,
                forall|k: int| 0 <= k < p ==> !name_lt(x.name_of(), #[trigger] rest[k].name_of()),
            decreases j - p,
        {
            p = p + 1;
        }
        v.insert(p, x);
        proof {
            let s = v@;
            let old_sorted = before.subrange(0, j as int);
            assert(sorted_by_name(old_sorted));
            assert(s.to_multiset() == rest.to_multiset().insert(x));
            assert(rest.to_multiset() == before.to_multiset().remove(before[j as int]));
            assert(before[j as int] == x);
            assert(before.to_multiset().contains(x));
            assert(s.to_multiset() =~= before.to_multiset());
            assert forall|a: int, b: int|
                0 <= a < b < j + 1 implies !name_lt(
                #[trigger] s.subrange(0, j + 1)[b].name_of(),
                #[trigger] s.subrange(0, j + 1)[a].name_of(),
            ) by {
                let sa = s[a];
                let sb = s[b];
                if b < p {
                    assert(sa == old_sorted[a] && sb == old_sorted[b]);
                } else if b == p {
                    assert(sa == rest[a]);
                } else if a == p {
                    assert(sb == old_sorted[b - 1]);
                    assert(p < j);
                    assert(name_lt(x.name_of(), rest[p as int].name_of()));
                    assert(rest[p as int] == old_sorted[p as int]);
                    lemma_name_lt_total(old_sorted[p as int].name_of(), sb.name_of());
                    if name_lt(old_sorted[p as int].name_of(), sb.name_of()) {
                        lemma_name_lt_transitive(
                            x.name_of(),
                            old_sorted[p as int].name_of(),
                            sb.name_of(),
                        );
                    }
                    lemma_name_lt_total(x.name_of(), sb.name_of());
                } else if a < p {
                    assert(sa == old_sorted[a] && sb == old_sorted[b - 1]);
                } else {
                    assert(sa == old_sorted[a - 1] && sb == old_sorted[b - 1]);
                }
            }
        }
        j = j + 1;
    }
    assert(v@.subrange(0, n as int) =~= v@);
}

} // verus!
