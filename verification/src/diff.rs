use vstd::prelude::*;

verus! {

/// Whether some string in the sequence has exactly this character content.
pub open spec fn seq_contains_str(v: Seq<String>, s: Seq<char>) -> bool {
    exists|i: int| 0 <= i < v.len() && (#[trigger] v[i])@ == s
}

/// The set of character contents held by a sequence of strings;
/// duplicates collapse and order is forgotten.
pub open spec fn str_set(v: Seq<String>) -> Set<Seq<char>> {
    Set::new(|s: Seq<char>| seq_contains_str(v, s))
}

/// Elements present in `to`, absent from `from`.
pub open spec fn spec_added(from: Seq<String>, to: Seq<String>) -> Set<Seq<char>> {
    str_set(to).difference(str_set(from))
}

/// Elements present in `from`, absent from `to`.
pub open spec fn spec_removed(from: Seq<String>, to: Seq<String>) -> Set<Seq<char>> {
    str_set(from).difference(str_set(to))
}

/// No two strings of the sequence have the same content.
pub open spec fn distinct_strs(v: Seq<String>) -> bool {
    forall|i: int, j: int|
        0 <= i < j < v.len() ==> (#[trigger] v[i])@ != (#[trigger] v[j])@
}

/// The asymmetric difference between two attachment-URL lists: which
/// URLs were added and which were removed, each listed once.
pub struct AsymmetricDiff {
    pub added: Vec<String>,
    pub removed: Vec<String>,
}

impl AsymmetricDiff {
    /// Each output lists every element once.
    pub open spec fn well_formed(self) -> bool {
        distinct_strs(self.added@) && distinct_strs(self.removed@)
    }
}

/// Whether the vector holds a string with the same content as `s`.
fn contains_str(v: &Vec<String>, s: &String) -> (r: bool)
    ensures
        r == seq_contains_str(v@, s@),
{
    let mut i: usize = 0;
    while i < v.len()
        invariant
            0 <= i <= v@.len(),
            forall|k: int| 0 <= k < i ==> (#[trigger] v@[k])@ != s@,
        decreases v@.len() - i,
    {
        if s.eq(&v[i]) {
            return true;
        }
        i += 1;
    }
    false
}

/// Every content of `v` that `other` lacks, each exactly once.
fn difference_unique(v: &Vec<String>, other: &Vec<String>) -> (r: Vec<String>)
    ensures
        str_set(r@) == str_set(v@).difference(str_set(other@)),
        distinct_strs(r@),
{
    let mut out: Vec<String> = Vec::new();
    let mut i: usize = 0;
    while i < v.len()
        invariant
            0 <= i <= v@.len(),
            distinct_strs(out@),
            forall|k: int|
                0 <= k < out@.len() ==> seq_contains_str(v@, (#[trigger] out@[k])@)
                    && !seq_contains_str(other@, out@[k]@),
            forall|j: int|
                0 <= j < i ==> seq_contains_str(other@, (#[trigger] v@[j])@)
                    || seq_contains_str(out@, v@[j]@),
        decreases v@.len() - i,
    {
        if !contains_str(other, &v[i]) && !contains_str(&out, &v[i]) {
            let ghost pre = out@;
            out.push(v[i].clone());
            proof {
                assert(out@[pre.len() as int]@ == v@[i as int]@);
                assert forall|j: int|
                    0 <= j < i + 1 implies seq_contains_str(other@, (#[trigger] v@[j])@)
                    || seq_contains_str(out@, v@[j]@) by {
                    if j < i {
                        if seq_contains_str(pre, v@[j]@) {
                            let k = choose|k: int| 0 <= k < pre.len() && (#[trigger] pre[k])@ == v@[j]@;
                            assert(out@[k]@ == v@[j]@);
                        }
                    }
                }
            }
        }
        i += 1;
    }
    proof {
        assert forall|s: Seq<char>|
            str_set(v@).difference(str_set(other@)).contains(s) implies str_set(
            out@,
        ).contains(s) by {
            let j = choose|j: int| 0 <= j < v@.len() && (#[trigger] v@[j])@ == s;
            assert(seq_contains_str(other@, v@[j]@) || seq_contains_str(out@, v@[j]@));
        }
        assert(str_set(out@) =~= str_set(v@).difference(str_set(other@)));
    }
    out
}

/// A sequence of strings with pairwise-distinct contents holds exactly
/// as many strings as its content set has elements.
pub proof fn lemma_distinct_card(v: Seq<String>)
    requires
        distinct_strs(v),
    ensures
        str_set(v).finite(),
        str_set(v).len() == v.len(),
{
    broadcast use vstd::seq_lib::seq_to_set_is_finite;

    let m = v.map_values(|s: String| s@);
    assert(m.no_duplicates());
    m.unique_seq_to_set();
    assert forall|s: Seq<char>| m.to_set().contains(s) implies str_set(v).contains(s) by {
        let i = choose|i: int| 0 <= i < m.len() && m[i] == s;
        assert((v[i])@ == s);
    }
    assert forall|s: Seq<char>| str_set(v).contains(s) implies m.to_set().contains(s) by {
        let i = choose|i: int| 0 <= i < v.len() && (#[trigger] v[i])@ == s;
        assert(m[i] == s);
        assert(m.contains(s));
    }
    assert(m.to_set() =~= str_set(v));
}

/// Computes the attachment diff between the `from` and `to` URL lists.
/// The result is a pure set difference in each direction: a URL present
/// in both lists appears in neither output, order and duplicates within
/// the inputs are irrelevant.
pub fn asymmetric_diff(from: Vec<String>, to: Vec<String>) -> (r: AsymmetricDiff)
    ensures
        str_set(r.added@) == spec_added(from@, to@),
        str_set(r.removed@) == spec_removed(from@, to@),
        r.well_formed(),
        r.added@.len() == spec_added(from@, to@).len(),
        r.removed@.len() == spec_removed(from@, to@).len(),
{
    let added = difference_unique(&to, &from);
    let removed = difference_unique(&from, &to);
    proof {
        lemma_distinct_card(added@);
        lemma_distinct_card(removed@);
    }
    AsymmetricDiff { added, removed }
}

/// No element is both added and removed by one diff.
pub proof fn lemma_diff_disjoint(from: Seq<String>, to: Seq<String>)
    ensures
        spec_added(from, to).intersect(spec_removed(from, to)) =~= Set::<Seq<char>>::empty(),
{
}

/// Diffing a list against itself adds nothing and removes nothing.
pub proof fn lemma_diff_self(v: Seq<String>)
    ensures
        spec_added(v, v) =~= Set::<Seq<char>>::empty(),
        spec_removed(v, v) =~= Set::<Seq<char>>::empty(),
{
}

/// Swapping the two inputs turns removals into additions.
pub proof fn lemma_diff_swap(from: Seq<String>, to: Seq<String>)
    ensures
        spec_removed(from, to) == spec_added(to, from),
        spec_added(from, to) == spec_removed(to, from),
{
}

} // verus!
