//! The compute step of locating model weights: a weight map names, per
//! tensor, the file that holds it, and the loader must fetch each distinct
//! file once. Reading and fetching are the caller's concern.
use vstd::prelude::*;

verus! {

/// Does some entry of `xs` hold the text `s`?
pub open spec fn holds_text(xs: Seq<String>, s: Seq<char>) -> bool {
    exists|i: int| 0 <= i < xs.len() && #[trigger] xs[i]@ == s
}

/// The entries of `xs` with every repeated text dropped, each text kept at
/// its first occurrence, in first-occurrence order.
pub open spec fn distinct_names(xs: Seq<String>) -> Seq<String>
    decreases xs.len(),
{
    if xs.len() == 0 {
        Seq::empty()
    } else {
        let pre = distinct_names(xs.drop_last());
        if holds_text(pre, xs.last()@) {
            pre
        } else {
            pre.push(xs.last())
        }
    }
}

fn contains_text(xs: &Vec<String>, s: &String) -> (r: bool)
    ensures
        r == holds_text(xs@, s@),
{
    let mut i: usize = 0;
    while i < xs.len()
        invariant
            0 <= i <= xs@.len(),
            forall|j: int| 0 <= j < i ==> #[trigger] xs@[j]@ != s@,
        decreases xs@.len() - i,
    {
        let x: &String = &xs[i];
        if *x == *s {
            return true;
        }
        i += 1;
    }
    false
}

/// The distinct file names among `names`, each kept once, in first-occurrence
/// order (`distinct_names`): the set of texts is unchanged and no text
/// repeats.
pub fn unique_names(names: &Vec<String>) -> (r: Vec<String>)
    ensures
        r@ == distinct_names(names@),
        forall|s: Seq<char>| holds_text(r@, s) <==> holds_text(names@, s),
        forall|i: int, j: int| 0 <= i < j < r@.len() ==> #[trigger] r@[i]@ != #[trigger] r@[j]@,
{
    let mut out: Vec<String> = Vec::new();
    let mut i: usize = 0;
    while i < names.len()
        invariant
            0 <= i <= names@.len(),
            out@ == distinct_names(names@.take(i as int)),
            forall|s: Seq<char>| holds_text(out@, s) <==> holds_text(names@.take(i as int), s),
            forall|p: int, q: int| 0 <= p < q < out@.len() ==> #[trigger] out@[p]@ != #[trigger] out@[q]@,
        decreases names@.len() - i,
    {
        let ghost pre = out@;
        proof {
            let ext = names@.take(i + 1);
            assert(ext.drop_last() =~= names@.take(i as int));
            assert(ext.last() == names@[i as int]);
        }
        if !contains_text(&out, &names[i]) {
            out.push(names[i].clone());
        }
        proof {
            assert forall|s: Seq<char>|
                holds_text(out@, s) <==> holds_text(names@.take(i + 1), s) by {
                assert(names@.take(i + 1)[i as int] == names@[i as int]);
                if holds_text(out@, s) {
                    let k = choose|k: int| 0 <= k < out@.len() && #[trigger] out@[k]@ == s;
                    if k < pre.len() {
                        assert(holds_text(pre, s));
                        let m = choose|m: int|
                            0 <= m < i && #[trigger] names@.take(i as int)[m]@ == s;
                        assert(names@.take(i + 1)[m]@ == s);
                    } else {
                        assert(out@[k]@ == names@[i as int]@);
                    }
                }
                if holds_text(names@.take(i + 1), s) {
                    let m = choose|m: int|
                        0 <= m < i + 1 && #[trigger] names@.take(i + 1)[m]@ == s;
                    if m < i {
                        assert(names@.take(i as int)[m]@ == s);
                        assert(holds_text(pre, s));
                        let k = choose|k: int| 0 <= k < pre.len() && #[trigger] pre[k]@ == s;
                        assert(out@[k]@ == s);
                    } else {
                        if holds_text(pre, names@[i as int]@) {
                            let k = choose|k: int|
                                0 <= k < pre.len() && #[trigger] pre[k]@ == names@[i as int]@;
                            assert(out@[k]@ == s);
                        } else {
                            assert(out@[out@.len() - 1]@ == s);
                        }
                    }
                }
            }
        }
        i += 1;
    }
    proof {
        assert(names@.take(i as int) =~= names@);
    }
    out
}

} // verus!
