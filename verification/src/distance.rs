//! Levenshtein edit distance between character sequences, with a
//! verified dynamic-programming implementation and the laws the
//! suggestion engine depends on.

use vstd::prelude::*;

verus! {

/// The least of three natural numbers.
pub open spec fn min3(x: nat, y: nat, z: nat) -> nat {
    if x <= y && x <= z {
        x
    } else if y <= z {
        y
    } else {
        z
    }
}

/// Levenshtein edit distance: the least number of single-character
/// insertions, deletions and substitutions that turn `a` into `b`.
pub open spec fn edit_dist(a: Seq<char>, b: Seq<char>) -> nat
    decreases a.len() + b.len(),
{
    if a.len() == 0 {
        b.len()
    } else if b.len() == 0 {
        a.len()
    } else {
        let tail_cost: nat = if a.last() == b.last() {
            0
        } else {
            1
        };
        min3(
            edit_dist(a.drop_last(), b) + 1,
            edit_dist(a, b.drop_last()) + 1,
            edit_dist(a.drop_last(), b.drop_last()) + tail_cost,
        )
    }
}

/// The distance from any sequence to itself is zero.
pub proof fn lemma_edit_dist_self(s: Seq<char>)
    ensures
        edit_dist(s, s) == 0,
    decreases s.len(),
{
    if s.len() != 0 {
        lemma_edit_dist_self(s.drop_last());
    }
}

/// Edit distance is symmetric.
pub proof fn lemma_edit_dist_symmetric(a: Seq<char>, b: Seq<char>)
    ensures
        edit_dist(a, b) == edit_dist(b, a),
    decreases a.len() + b.len(),
{
    if a.len() != 0 && b.len() != 0 {
        lemma_edit_dist_symmetric(a.drop_last(), b);
        lemma_edit_dist_symmetric(a, b.drop_last());
        lemma_edit_dist_symmetric(a.drop_last(), b.drop_last());
    }
}

/// Edit distance never exceeds the length of the longer sequence.
pub proof fn lemma_edit_dist_le_max(a: Seq<char>, b: Seq<char>)
    ensures
        edit_dist(a, b) <= if a.len() >= b.len() {
            a.len()
        } else {
            b.len()
        },
    decreases a.len() + b.len(),
{
    if a.len() != 0 && b.len() != 0 {
        lemma_edit_dist_le_max(a.drop_last(), b.drop_last());
    }
}

/// Edit distance is at least the difference of the two lengths.
pub proof fn lemma_edit_dist_ge_len_diff(a: Seq<char>, b: Seq<char>)
    ensures
        edit_dist(a, b) + b.len() >= a.len(),
        edit_dist(a, b) + a.len() >= b.len(),
    decreases a.len() + b.len(),
{
    if a.len() != 0 && b.len() != 0 {
        lemma_edit_dist_ge_len_diff(a.drop_last(), b);
        lemma_edit_dist_ge_len_diff(a, b.drop_last());
        lemma_edit_dist_ge_len_diff(a.drop_last(), b.drop_last());
    }
}

/// Relates the distance between two prefixes to the distances between
/// their immediate sub-prefixes, as the dynamic program computes it.
proof fn lemma_edit_dist_step(a: Seq<char>, b: Seq<char>, i: int, j: int)
    requires
        1 <= i <= a.len(),
        1 <= j <= b.len(),
    ensures
        edit_dist(a.take(i), b.take(j)) == min3(
            edit_dist(a.take(i - 1), b.take(j)) + 1,
            edit_dist(a.take(i), b.take(j - 1)) + 1,
            edit_dist(a.take(i - 1), b.take(j - 1)) + if a[i - 1] == b[j - 1] {
                0nat
            } else {
                1nat
            },
        ),
{
    let ai = a.take(i);
    let bj = b.take(j);
    assert(ai.drop_last() =~= a.take(i - 1));
    assert(bj.drop_last() =~= b.take(j - 1));
    assert(ai.last() == a[i - 1]);
    assert(bj.last() == b[j - 1]);
}

/// The characters of `s`, in order, as a vector.
pub fn chars_of(s: &str) -> (v: Vec<char>)
    ensures
        v@ == s@,
{
    let n: usize = s.unicode_len();
    let mut v: Vec<char> = Vec::new();
    proof {
        assert(v@ =~= s@.take(0));
    }
    let mut i: usize = 0;
    while i < n
        invariant
            n == s@.len(),
            i <= n,
            v@ == s@.take(i as int),
        decreases n - i,
    {
        let c = s.get_char(i);
        v.push(c);
        i = i + 1;
        proof {
            assert(v@ =~= s@.take(i as int));
        }
    }
    proof {
        assert(v@ =~= s@);
    }
    v
}

/// The edit distance between two character vectors, by the usual
/// row-by-row dynamic program.
fn edit_dist_vecs(a: &Vec<char>, b: &Vec<char>) -> (d: usize)
    requires
        a@.len() < usize::MAX,
        b@.len() < usize::MAX,
    ensures
        d == edit_dist(a@, b@),
{
    let m: usize = a.len();
    let n: usize = b.len();
    // Row 0: distances from the empty prefix of `a`.
    let mut prev: Vec<usize> = Vec::new();
    let mut j: usize = 0;
    while j <= n
        invariant
            n == b@.len(),
            n < usize::MAX,
            j <= n + 1,
            prev@.len() == j,
            forall|k: int| 0 <= k < j ==> prev@[k] == edit_dist(a@.take(0), b@.take(k)),
        decreases n + 1 - j,
    {
        proof {
            assert(a@.take(0) =~= Seq::<char>::empty());
            assert(b@.take(j as int).len() == j);
        }
        prev.push(j);
        j = j + 1;
    }
    let mut i: usize = 1;
    while i <= m
        invariant
            m == a@.len(),
            n == b@.len(),
            m < usize::MAX,
            n < usize::MAX,
            1 <= i <= m + 1,
            prev@.len() == n + 1,
            forall|k: int| 0 <= k <= n ==> prev@[k] == edit_dist(a@.take(i - 1), b@.take(k)),
        decreases m + 1 - i,
    {
        let mut cur: Vec<usize> = Vec::new();
        proof {
            assert(b@.take(0) =~= Seq::<char>::empty());
            assert(a@.take(i as int).len() == i);
        }
        cur.push(i);
        let mut j: usize = 1;
        while j <= n
            invariant
                m == a@.len(),
                n == b@.len(),
                m < usize::MAX,
                n < usize::MAX,
                1 <= i <= m,
                1 <= j <= n + 1,
                prev@.len() == n + 1,
                forall|k: int| 0 <= k <= n ==> prev@[k] == edit_dist(a@.take(i - 1), b@.take(k)),
                cur@.len() == j,
                forall|k: int| 0 <= k < j ==> cur@[k] == edit_dist(a@.take(i as int), b@.take(k)),
            decreases n + 1 - j,
        {
            let tail_cost: usize = if a[i - 1] == b[j - 1] {
                0
            } else {
                1
            };
            proof {
                lemma_edit_dist_le_max(a@.take(i - 1), b@.take(j as int));
                lemma_edit_dist_le_max(a@.take(i as int), b@.take(j - 1));
                lemma_edit_dist_le_max(a@.take(i - 1), b@.take(j - 1));
                lemma_edit_dist_step(a@, b@, i as int, j as int);
            }
            let deletion = prev[j] + 1;
            let insertion = cur[j - 1] + 1;
            let substitution = prev[j - 1] + tail_cost;
            let mut d = deletion;
            if insertion < d {
                d = insertion;
            }
            if substitution < d {
                d = substitution;
            }
            cur.push(d);
            j = j + 1;
        }
        prev = cur;
        i = i + 1;
    }
    proof {
        assert(a@.take(m as int) =~= a@);
        assert(b@.take(n as int) =~= b@);
    }
    prev[n]
}

/// The edit distance between two strings, over their characters.
pub fn edit_distance(a: &str, b: &str) -> (d: usize)
    requires
        a@.len() < usize::MAX,
        b@.len() < usize::MAX,
    ensures
        d == edit_dist(a@, b@),
{
    let av = chars_of(a);
    let bv = chars_of(b);
    edit_dist_vecs(&av, &bv)
}

} // verus!
