//! Sets of strings kept as vectors without repeated texts.
use vstd::prelude::*;

verus! {

/// The text of each string of a sequence.
pub open spec fn texts(v: Seq<String>) -> Seq<Seq<char>> {
    v.map_values(|s: String| s@)
}

/// The set of texts that a sequence of strings holds.
pub open spec fn set_of(v: Seq<String>) -> Set<Seq<char>> {
    texts(v).to_set()
}

/// No text occurs twice.
pub open spec fn distinct(v: Seq<String>) -> bool {
    texts(v).no_duplicates()
}

/// The text that an optional string holds.
pub open spec fn opt_text(o: Option<String>) -> Option<Seq<char>> {
    match o {
        Some(s) => Some(s@),
        None => None,
    }
}

/// Every text that some vector of the sequence holds.
pub open spec fn union_of(batches: Seq<Vec<String>>) -> Set<Seq<char>> {
    Set::new(|t: Seq<char>| exists|i: int| 0 <= i < batches.len() && #[trigger] set_of(batches[i]@).contains(t))
}

proof fn lemma_set_of_contains(v: Seq<String>, t: Seq<char>)
    ensures
        set_of(v).contains(t) <==> exists|j: int| 0 <= j < v.len() && #[trigger] v[j]@ == t,
{
    if set_of(v).contains(t) {
        let j = choose|j: int| 0 <= j < texts(v).len() && texts(v)[j] == t;
        assert(v[j]@ == t);
    }
    if exists|j: int| 0 <= j < v.len() && #[trigger] v[j]@ == t {
        let j = choose|j: int| 0 <= j < v.len() && #[trigger] v[j]@ == t;
        assert(texts(v)[j] == t);
    }
}

/// Appending a string adds its text to the set.
pub proof fn lemma_set_of_push(v: Seq<String>, x: String)
    ensures
        set_of(v.push(x)) == set_of(v).insert(x@),
{
    assert(texts(v.push(x)) =~= texts(v).push(x@));
    assert forall|t: Seq<char>| set_of(v.push(x)).contains(t) <==> set_of(v).insert(x@).contains(t) by {
        lemma_set_of_contains(v.push(x), t);
        lemma_set_of_contains(v, t);
        if set_of(v).contains(t) {
            let j = choose|j: int| 0 <= j < v.len() && #[trigger] v[j]@ == t;
            assert(v.push(x)[j]@ == t);
        }
        if t == x@ {
            assert(v.push(x)[v.len() as int]@ == t);
        }
        if set_of(v.push(x)).contains(t) {
            let j = choose|j: int| 0 <= j < v.len() + 1 && #[trigger] v.push(x)[j]@ == t;
            if j < v.len() {
                assert(v[j]@ == t);
            }
        }
    }
    assert(set_of(v.push(x)) =~= set_of(v).insert(x@));
}

/// The set of a prefix one longer holds one more text.
pub proof fn lemma_set_of_prefix(v: Seq<String>, i: int)
    requires
        0 <= i < v.len(),
    ensures
        set_of(v.subrange(0, i + 1)) == set_of(v.subrange(0, i)).insert(v[i]@),
{
    assert(v.subrange(0, i + 1) =~= v.subrange(0, i).push(v[i]));
    lemma_set_of_push(v.subrange(0, i), v[i]);
}

/// Whether two strings hold the same characters.
pub fn text_equals(a: &str, b: &str) -> (r: bool)
    ensures
        r == (a@ == b@),
{
    let n = a.unicode_len();
    let m = b.unicode_len();
    if n != m {
        return false;
    }
    let mut i: usize = 0;
    while i < n
        invariant
            n == a@.len(),
            m == b@.len(),
            n == m,
            0 <= i <= n,
            forall|j: int| 0 <= j < i ==> a@[j] == b@[j],
        decreases n - i,
    {
        if a.get_char(i) != b.get_char(i) {
            return false;
        }
        i += 1;
    }
    assert(a@ =~= b@);
    true
}

/// Whether `v` holds a string with the text of `s`.
pub fn contains_text(v: &Vec<String>, s: &String) -> (r: bool)
    ensures
        r == set_of(v@).contains(s@),
{
    proof {
        lemma_set_of_contains(v@, s@);
    }
    let mut i: usize = 0;
    while i < v.len()
        invariant
            0 <= i <= v.len(),
            forall|j: int| 0 <= j < i ==> (#[trigger] v@[j])@ != s@,
        decreases v.len() - i,
    {
        if v[i] == *s {
            proof {
                assert(texts(v@)[i as int] == s@);
                assert(set_of(v@).contains(s@));
            }
            return true;
        }
        i += 1;
    }
    false
}

/// Adds `s` to the set that `v` holds, unless its text is there already.
pub fn insert_text(v: &mut Vec<String>, s: String)
    requires
        distinct(old(v)@),
    ensures
        distinct(final(v)@),
        set_of(final(v)@) == set_of(old(v)@).insert(s@),
{
    proof {
        lemma_set_of_contains(v@, s@);
    }
    if contains_text(v, &s) {
        assert(set_of(v@) =~= set_of(v@).insert(s@));
        return;
    }
    let ghost before = v@;
    v.push(s);
    proof {
        assert(texts(v@) =~= texts(before).push(s@));
        assert forall|t: Seq<char>| set_of(v@).contains(t) <==> set_of(before).insert(s@).contains(t) by {
            lemma_set_of_contains(v@, t);
            lemma_set_of_contains(before, t);
            if set_of(before).contains(t) {
                let j = choose|j: int| 0 <= j < before.len() && #[trigger] before[j]@ == t;
                assert(v@[j]@ == t);
            }
            if t == s@ {
                assert(v@[before.len() as int]@ == t);
            }
            if set_of(v@).contains(t) {
                let j = choose|j: int| 0 <= j < v@.len() && #[trigger] v@[j]@ == t;
                if j < before.len() {
                    assert(before[j]@ == t);
                }
            }
        }
        assert(set_of(v@) =~= set_of(before).insert(s@));
    }
}

/// Merges the sets of many vectors into one vector without repeated texts.
pub fn union_all(batches: &Vec<Vec<String>>) -> (r: Vec<String>)
    ensures
        distinct(r@),
        set_of(r@) == union_of(batches@),
{
    let mut r: Vec<String> = Vec::new();
    let mut i: usize = 0;
    proof {
        assert(texts(r@) =~= Seq::<Seq<char>>::empty());
        assert(set_of(r@) =~= union_of(batches@.subrange(0, 0)));
    }
    while i < batches.len()
        invariant
            0 <= i <= batches.len(),
            distinct(r@),
            set_of(r@) == union_of(batches@.subrange(0, i as int)),
        decreases batches.len() - i,
    {
        let batch = &batches[i];
        let ghost start = set_of(r@);
        let mut j: usize = 0;
        while j < batch.len()
            invariant
                0 <= j <= batch.len(),
                distinct(r@),
                set_of(r@) == start.union(set_of(batch@.subrange(0, j as int))),
            decreases batch.len() - j,
        {
            let ghost prev = set_of(r@);
            insert_text(&mut r, batch[j].clone());
            proof {
                assert forall|t: Seq<char>| set_of(batch@.subrange(0, j + 1)).contains(t)
                    <==> set_of(batch@.subrange(0, j as int)).insert(batch@[j as int]@).contains(t) by {
                    lemma_set_of_contains(batch@.subrange(0, j + 1), t);
                    lemma_set_of_contains(batch@.subrange(0, j as int), t);
                    if set_of(batch@.subrange(0, j as int)).contains(t) {
                        let k = choose|k: int| 0 <= k < j && #[trigger] batch@.subrange(0, j as int)[k]@ == t;
                        assert(batch@.subrange(0, j + 1)[k]@ == t);
                    }
                    if t == batch@[j as int]@ {
                        assert(batch@.subrange(0, j + 1)[j as int]@ == t);
                    }
                }
                assert(set_of(batch@.subrange(0, j + 1)) =~= set_of(batch@.subrange(0, j as int)).insert(batch@[j as int]@));
                assert(set_of(r@) =~= start.union(set_of(batch@.subrange(0, j + 1))));
            }
            j += 1;
        }
        proof {
            assert(batch@.subrange(0, j as int) =~= batch@);
            let next = batches@.subrange(0, i + 1);
            let prev = batches@.subrange(0, i as int);
            assert forall|t: Seq<char>| union_of(next).contains(t) <==> start.union(set_of(batch@)).contains(t) by {
                if union_of(next).contains(t) {
                    let k = choose|k: int| 0 <= k < next.len() && #[trigger] set_of(next[k]@).contains(t);
                    if k < i {
                        assert(set_of(prev[k]@).contains(t));
                    }
                }
                if start.contains(t) {
                    let k = choose|k: int| 0 <= k < prev.len() && #[trigger] set_of(prev[k]@).contains(t);
                    assert(set_of(next[k]@).contains(t));
                }
                if set_of(batch@).contains(t) {
                    assert(set_of(next[i as int]@).contains(t));
                }
            }
            assert(union_of(next) =~= start.union(set_of(batch@)));
        }
        i += 1;
    }
    proof {
        assert(batches@.subrange(0, i as int) =~= batches@);
    }
    r
}

} // verus!
