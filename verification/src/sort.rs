//! Ordering cheat sheets by name, as the launcher lists them.
use vstd::prelude::*;
use crate::sheet::CheatSheet;
use crate::text::{
    text_less,
    text_le,
    text_chars,
    chars_less,
    lemma_text_less_irreflexive,
    lemma_text_less_total,
    lemma_text_less_asymmetric,
    lemma_text_less_transitive,
    lemma_text_le_antisymmetric,
};

verus! {

/// Every sheet's name is at most the names of the sheets after it.
pub open spec fn sorted_by_name(s: Seq<CheatSheet>) -> bool {
    forall|i: int, j: int| 0 <= i < j < s.len() ==> text_le(#[trigger] s[i].name@, #[trigger] s[j].name@)
}

/// Some index of `p` holds `j`.
pub open spec fn index_hit(p: Seq<int>, j: int) -> bool {
    exists|i: int| 0 <= i < p.len() && #[trigger] p[i] == j
}

/// `p` is a bijection of the indices `0..n`.
pub open spec fn is_index_permutation(p: Seq<int>, n: int) -> bool {
    &&& p.len() == n
    &&& forall|i: int| 0 <= i < n ==> 0 <= #[trigger] p[i] < n
    &&& forall|i: int, j: int| 0 <= i < n && 0 <= j < n && i != j ==> #[trigger] p[i] != #[trigger] p[j]
    &&& forall|j: int| 0 <= j < n ==> #[trigger] index_hit(p, j)
}

/// `output` holds the sheets of `input`, `output[k]` being `input[p[k]]`, and sheets
/// with equal names keep the order they had in `input`.
pub open spec fn stable_arrangement(input: Seq<CheatSheet>, output: Seq<CheatSheet>, p: Seq<int>) -> bool {
    &&& output.len() == input.len()
    &&& is_index_permutation(p, input.len() as int)
    &&& forall|k: int| 0 <= k < output.len() ==> #[trigger] output[k] == input[p[k]]
    &&& forall|i: int, j: int|
        0 <= i < j < output.len() && #[trigger] output[i].name@ == #[trigger] output[j].name@ ==> p[i] < p[j]
}

/// `output` is `input` sorted by name, sheets with equal names in their original order.
pub open spec fn is_stable_sort_by_name(input: Seq<CheatSheet>, output: Seq<CheatSheet>) -> bool {
    &&& sorted_by_name(output)
    &&& exists|p: Seq<int>| stable_arrangement(input, output, p)
}

/// If `a` is below `b` and `b` at most `c`, then `a` is below `c`.
proof fn lemma_less_le_less(a: Seq<char>, b: Seq<char>, c: Seq<char>)
    requires
        text_less(a, b),
        text_le(b, c),
    ensures
        text_less(a, c),
{
    lemma_text_less_total(b, c);
    if b != c {
        lemma_text_less_transitive(a, b, c);
    }
}

/// The index at which a sheet named `name` goes into the sorted `out`: after every
/// sheet whose name is at most `name`, before every sheet whose name is above it.
fn insertion_point(out: &Vec<CheatSheet>, name: &String) -> (pos: usize)
    requires
        sorted_by_name(out@),
    ensures
        pos <= out@.len(),
        forall|k: int| 0 <= k < pos ==> text_le(#[trigger] out@[k].name@, name@),
        forall|k: int| pos <= k < out@.len() ==> text_less(name@, #[trigger] out@[k].name@),
{
    let key = text_chars(name.as_str());
    let mut j: usize = 0;
    while j < out.len()
        invariant
            key@ == name@,
            sorted_by_name(out@),
            j <= out@.len(),
            forall|k: int| 0 <= k < j ==> text_le(#[trigger] out@[k].name@, name@),
        decreases out.len() - j,
    {
        let other = text_chars(out[j].name.as_str());
        if chars_less(&key, &other) {
            assert forall|k: int| j <= k < out@.len() implies text_less(name@, #[trigger] out@[k].name@) by {
                if k > j {
                    lemma_less_le_less(name@, out@[j as int].name@, out@[k].name@);
                }
            }
            return j;
        }
        j = j + 1;
    }
    j
}

/// Inserting `x` where `insertion_point` puts it keeps a sequence sorted.
proof fn lemma_insert_keeps_sorted(out: Seq<CheatSheet>, pos: int, x: CheatSheet)
    requires
        sorted_by_name(out),
        0 <= pos <= out.len(),
        forall|k: int| 0 <= k < pos ==> text_le(#[trigger] out[k].name@, x.name@),
        forall|k: int| pos <= k < out.len() ==> text_less(x.name@, #[trigger] out[k].name@),
    ensures
        sorted_by_name(out.insert(pos, x)),
{
    let n = out.insert(pos, x);
    assert forall|i: int, j: int| 0 <= i < j < n.len() implies text_le(#[trigger] n[i].name@, #[trigger] n[j].name@) by {
        if j == pos {
            assert(n[i] == out[i]);
        } else if i == pos {
            assert(n[j] == out[j - 1]);
            lemma_text_less_asymmetric(x.name@, out[j - 1].name@);
        } else {
            let a = if i < pos { i } else { i - 1 };
            let b = if j < pos { j } else { j - 1 };
            assert(n[i] == out[a]);
            assert(n[j] == out[b]);
            if a == b {
                lemma_text_less_irreflexive(out[a].name@);
            }
        }
    }
}

/// Inserting the sheet of original index `i` at `pos` extends a stable arrangement
/// of the first `i` sheets to one of the first `i + 1`.
proof fn lemma_insert_keeps_arrangement(
    orig: Seq<CheatSheet>,
    out: Seq<CheatSheet>,
    p: Seq<int>,
    i: int,
    pos: int,
)
    requires
        0 <= i < orig.len(),
        stable_arrangement(orig.subrange(0, i), out, p),
        0 <= pos <= out.len(),
        forall|k: int| pos <= k < out.len() ==> text_less(orig[i].name@, #[trigger] out[k].name@),
    ensures
        stable_arrangement(orig.subrange(0, i + 1), out.insert(pos, orig[i]), p.insert(pos, i)),
{
    let x = orig[i];
    let n = out.insert(pos, x);
    let q = p.insert(pos, i);
    let pre = orig.subrange(0, i);
    let post = orig.subrange(0, i + 1);
    assert(q.len() == i + 1);
    assert forall|k: int| 0 <= k < i + 1 implies 0 <= #[trigger] q[k] < i + 1 by {
        if k < pos {
            assert(q[k] == p[k]);
        } else if k > pos {
            assert(q[k] == p[k - 1]);
        }
    }
    assert forall|a: int, b: int| 0 <= a < i + 1 && 0 <= b < i + 1 && a != b implies #[trigger] q[a] != #[trigger] q[b] by {
        let a0 = if a < pos { a } else { a - 1 };
        let b0 = if b < pos { b } else { b - 1 };
        if a != pos && b != pos {
            assert(q[a] == p[a0]);
            assert(q[b] == p[b0]);
        } else if a == pos {
            assert(q[b] == p[b0]);
        } else {
            assert(q[a] == p[a0]);
        }
    }
    assert forall|j: int| 0 <= j < i + 1 implies #[trigger] index_hit(q, j) by {
        if j == i {
            assert(q[pos] == i);
        } else {
            assert(index_hit(p, j));
            let k = choose|k: int| 0 <= k < i && #[trigger] p[k] == j;
            if k < pos {
                assert(q[k] == j);
            } else {
                assert(q[k + 1] == j);
            }
        }
    }
    assert forall|k: int| 0 <= k < n.len() implies #[trigger] n[k] == post[q[k]] by {
        if k < pos {
            assert(n[k] == out[k]);
            assert(q[k] == p[k]);
            assert(out[k] == pre[p[k]]);
        } else if k > pos {
            assert(n[k] == out[k - 1]);
            assert(q[k] == p[k - 1]);
            assert(out[k - 1] == pre[p[k - 1]]);
        }
    }
    assert forall|a: int, b: int|
        0 <= a < b < n.len() && #[trigger] n[a].name@ == #[trigger] n[b].name@ implies q[a] < q[b] by {
        if a == pos {
            assert(n[b] == out[b - 1]);
            lemma_text_less_irreflexive(x.name@);
        } else if b == pos {
            assert(q[a] == p[a]);
        } else {
            let a0 = if a < pos { a } else { a - 1 };
            let b0 = if b < pos { b } else { b - 1 };
            assert(n[a] == out[a0]);
            assert(n[b] == out[b0]);
            assert(q[a] == p[a0]);
            assert(q[b] == p[b0]);
        }
    }
}

/// Sorts sheets by name, keeping sheets with equal names in the order given, as a
/// stable sort by `String`'s order does.
pub fn sort_sheets_by_name(sheets: Vec<CheatSheet>) -> (r: Vec<CheatSheet>)
    ensures
        is_stable_sort_by_name(sheets@, r@),
        sorted_by_name(sheets@) ==> r@ == sheets@,
{
    let ghost orig = sheets@;
    let n = sheets.len();
    let mut rest = sheets;
    let mut out: Vec<CheatSheet> = Vec::new();
    let ghost mut p: Seq<int> = Seq::empty();
    let mut i: usize = 0;
    assert(orig.subrange(0, 0) =~= Seq::<CheatSheet>::empty());
    assert(orig.subrange(0, n as int) =~= orig);
    while i < n
        invariant
            n == orig.len(),
            i <= n,
            rest@ == orig.subrange(i as int, n as int),
            sorted_by_name(out@),
            stable_arrangement(orig.subrange(0, i as int), out@, p),
        decreases n - i,
    {
        let x = rest.remove(0);
        assert(x == orig[i as int]);
        let pos = insertion_point(&out, &x.name);
        proof {
            lemma_insert_keeps_sorted(out@, pos as int, x);
            lemma_insert_keeps_arrangement(orig, out@, p, i as int, pos as int);
            p = p.insert(pos as int, i as int);
        }
        out.insert(pos, x);
        assert(rest@ =~= orig.subrange(i + 1, n as int));
        i = i + 1;
    }
    assert(orig.subrange(0, i as int) =~= orig);
    proof {
        if sorted_by_name(orig) {
            lemma_stable_sort_of_sorted_is_identity(orig, out@, p);
        }
    }
    out
}

/// Sorting sheets that are already sorted by name leaves them as they are.
pub proof fn lemma_stable_sort_of_sorted_is_identity(input: Seq<CheatSheet>, output: Seq<CheatSheet>, p: Seq<int>)
    requires
        sorted_by_name(input),
        sorted_by_name(output),
        stable_arrangement(input, output, p),
    ensures
        output == input,
{
    lemma_sorted_rearrangement_is_identity(input, output, p, input.len() as int);
    assert forall|k: int| 0 <= k < output.len() implies output[k] == input[k] by {
        assert(p[k] == k);
    }
    assert(output =~= input);
}

/// Sorting by name twice gives what sorting once gave.
pub proof fn lemma_sort_by_name_idempotent(a: Seq<CheatSheet>, b: Seq<CheatSheet>, c: Seq<CheatSheet>)
    requires
        is_stable_sort_by_name(a, b),
        is_stable_sort_by_name(b, c),
    ensures
        c == b,
{
    let p = choose|p: Seq<int>| stable_arrangement(b, c, p);
    lemma_stable_sort_of_sorted_is_identity(b, c, p);
}


/// `output` is `input` rearranged: `output[k]` is `input[q[k]]` for a bijection `q`.
pub open spec fn rearranges(input: Seq<CheatSheet>, output: Seq<CheatSheet>, q: Seq<int>) -> bool {
    &&& output.len() == input.len()
    &&& is_index_permutation(q, input.len() as int)
    &&& forall|k: int| 0 <= k < output.len() ==> #[trigger] output[k] == input[q[k]]
}

/// No two sheets have the same name.
pub open spec fn names_distinct(s: Seq<CheatSheet>) -> bool {
    forall|i: int, j: int|
        0 <= i < s.len() && 0 <= j < s.len() && i != j ==> #[trigger] s[i].name@ != #[trigger] s[j].name@
}

/// Sheets of `output` with equal names come from indices of `input` in increasing order.
pub open spec fn keeps_equal_names_in_order(output: Seq<CheatSheet>, q: Seq<int>) -> bool {
    forall|i: int, j: int|
        0 <= i < j < output.len() && #[trigger] output[i].name@ == #[trigger] output[j].name@ ==> q[i] < q[j]
}

/// A sorted rearrangement of sorted sheets that keeps sheets with equal names in order
/// sends every index below `k` to itself.
proof fn lemma_sorted_rearrangement_is_identity(x: Seq<CheatSheet>, y: Seq<CheatSheet>, q: Seq<int>, k: int)
    requires
        sorted_by_name(x),
        sorted_by_name(y),
        rearranges(x, y, q),
        keeps_equal_names_in_order(y, q),
        0 <= k <= x.len(),
    ensures
        forall|j: int| 0 <= j < k ==> #[trigger] q[j] == j,
    decreases k,
{
    if k > 0 {
        let k1 = k - 1;
        lemma_sorted_rearrangement_is_identity(x, y, q, k1);
        let n = x.len() as int;
        if q[k1] != k1 {
            if q[k1] < k1 {
                // the index q[k1] is already sent to itself
                let a = q[k1];
                assert(q[a] == a);
                assert(false);
            } else {
                // some later index m is sent to k1
                assert(index_hit(q, k1));
                let m = choose|m: int| 0 <= m < n && #[trigger] q[m] == k1;
                if m < k1 {
                    assert(q[m] == m);
                }
                assert(m > k1);
                let big = q[k1];
                assert(y[k1] == x[big]);
                assert(y[m] == x[k1]);
                assert(text_le(x[k1].name@, x[big].name@));
                assert(text_le(y[k1].name@, y[m].name@));
                lemma_text_le_antisymmetric(x[k1].name@, x[big].name@);
                assert(y[k1].name@ == y[m].name@);
                assert(q[k1] < q[m]);
                assert(false);
            }
        }
    }
}

/// Some index of `x` holds `v`.
pub open spec fn holds_sheet(x: Seq<CheatSheet>, v: CheatSheet) -> bool {
    exists|m: int| 0 <= m < x.len() && #[trigger] x[m] == v
}

/// When no two sheets share a name, the sorted list does not depend on the order the
/// sheets came in: sorting any rearrangement of them gives the same list.
pub proof fn lemma_sort_ignores_input_order(
    a: Seq<CheatSheet>,
    b: Seq<CheatSheet>,
    s: Seq<int>,
    sorted_a: Seq<CheatSheet>,
    sorted_b: Seq<CheatSheet>,
)
    requires
        names_distinct(a),
        rearranges(a, b, s),
        is_stable_sort_by_name(a, sorted_a),
        is_stable_sort_by_name(b, sorted_b),
    ensures
        sorted_a == sorted_b,
{
    let n = a.len() as int;
    let pa = choose|p: Seq<int>| stable_arrangement(a, sorted_a, p);
    let pb = choose|p: Seq<int>| stable_arrangement(b, sorted_b, p);
    // the sorted sheets of `a` have distinct names, each being a distinct sheet of `a`
    assert forall|i: int, j: int|
        0 <= i < n && 0 <= j < n && i != j implies #[trigger] sorted_a[i].name@ != #[trigger] sorted_a[j].name@ by {
        assert(sorted_a[i] == a[pa[i]]);
        assert(sorted_a[j] == a[pa[j]]);
    }
    // the sheet of `sorted_b` at `k` is the sheet of `sorted_a` at `q[k]`
    assert forall|k: int| 0 <= k < n implies #[trigger] holds_sheet(sorted_a, sorted_b[k]) by {
        let j = s[pb[k]];
        assert(sorted_b[k] == b[pb[k]]);
        assert(b[pb[k]] == a[j]);
        assert(index_hit(pa, j));
        let m = choose|m: int| 0 <= m < n && #[trigger] pa[m] == j;
        assert(sorted_a[m] == a[j]);
    }
    let q = Seq::new(n as nat, |k: int| choose|m: int| 0 <= m < n && #[trigger] sorted_a[m] == sorted_b[k]);
    assert forall|k: int| 0 <= k < n implies 0 <= #[trigger] q[k] < n && sorted_a[q[k]] == sorted_b[k] by {
        assert(holds_sheet(sorted_a, sorted_b[k]));
    }
    assert forall|k1: int, k2: int| 0 <= k1 < n && 0 <= k2 < n && k1 != k2 implies #[trigger] q[k1] != #[trigger] q[k2] by {
        if q[k1] == q[k2] {
            assert(sorted_b[k1] == sorted_b[k2]);
            assert(sorted_b[k1] == b[pb[k1]]);
            assert(sorted_b[k2] == b[pb[k2]]);
            assert(b[pb[k1]] == a[s[pb[k1]]]);
            assert(b[pb[k2]] == a[s[pb[k2]]]);
            let j1 = s[pb[k1]];
            let j2 = s[pb[k2]];
            assert(0 <= pb[k1] < n && 0 <= pb[k2] < n);
            assert(0 <= j1 < n && 0 <= j2 < n);
            if j1 != j2 {
                assert(a[j1].name@ != a[j2].name@);
            }
            assert(pb[k1] == pb[k2]);
        }
    }
    assert forall|m: int| 0 <= m < n implies #[trigger] index_hit(q, m) by {
        let j = pa[m];
        assert(index_hit(s, j));
        let t = choose|t: int| 0 <= t < n && #[trigger] s[t] == j;
        assert(index_hit(pb, t));
        let k = choose|k: int| 0 <= k < n && #[trigger] pb[k] == t;
        assert(sorted_b[k] == b[t]);
        assert(b[t] == a[j]);
        assert(sorted_a[m] == a[j]);
        assert(0 <= q[k] < n && sorted_a[q[k]] == sorted_b[k]);
        if q[k] != m {
            assert(sorted_a[q[k]].name@ != sorted_a[m].name@);
        }
    }
    assert(rearranges(sorted_a, sorted_b, q));
    // no two sheets share a name, so the order of equal names holds vacuously
    assert forall|i: int, j: int|
        0 <= i < j < n && #[trigger] sorted_b[i].name@ == #[trigger] sorted_b[j].name@ implies q[i] < q[j] by {
        assert(sorted_b[i] == sorted_a[q[i]]);
        assert(sorted_b[j] == sorted_a[q[j]]);
        assert(q[i] != q[j]);
    }
    lemma_sorted_rearrangement_is_identity(sorted_a, sorted_b, q, n);
    assert forall|k: int| 0 <= k < n implies sorted_b[k] == sorted_a[k] by {
        assert(q[k] == k);
    }
    assert(sorted_b =~= sorted_a);
}

} // verus!
