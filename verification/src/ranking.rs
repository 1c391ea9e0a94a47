//! Putting positions into the order of their ranks.

use crate::text::{lemma_text_order, lemma_text_order_transitive, same_text, text_before, text_less};
use vstd::prelude::*;
use vstd::string::*;

verus! {

/// What decides where an item stands: a high score first, then few bytes, then the order of the
/// labels.
pub struct Rank {
    pub score: i128,
    pub bytes: usize,
    pub label: String,
}

impl Rank {
    /// `self` stands before `other` by what the two ranks say.
    pub open spec fn ahead(self, other: Rank) -> bool {
        if self.score != other.score {
            self.score > other.score
        } else if self.bytes != other.bytes {
            self.bytes < other.bytes
        } else {
            text_less(self.label@, other.label@)
        }
    }

    /// The two ranks say the same.
    pub open spec fn level(self, other: Rank) -> bool {
        self.score == other.score && self.bytes == other.bytes && self.label@ == other.label@
    }
}

/// The item at `i` stands before the one at `j`: by rank, and by position where the ranks say the
/// same.
pub open spec fn before(ranks: Seq<Rank>, i: usize, j: usize) -> bool {
    ranks[i as int].ahead(ranks[j as int]) || (ranks[i as int].level(ranks[j as int]) && i < j)
}

/// Positions in the order of their ranks.
pub open spec fn in_order(ranks: Seq<Rank>, positions: Seq<usize>) -> bool {
    forall|a: int, b: int|
        0 <= a < b < positions.len() ==> before(
            ranks,
            #[trigger] positions[a],
            #[trigger] positions[b],
        )
}

/// The order is strict and total.
proof fn lemma_total(ranks: Seq<Rank>, i: usize, j: usize)
    ensures
        !before(ranks, i, i),
        i != j ==> before(ranks, i, j) != before(ranks, j, i),
{
    lemma_text_order(ranks[i as int].label@, ranks[j as int].label@);
}

/// The order is transitive.
proof fn lemma_transitive(ranks: Seq<Rank>, i: usize, j: usize, k: usize)
    requires
        before(ranks, i, j),
        before(ranks, j, k),
    ensures
        before(ranks, i, k),
{
    let (a, b, c) = (ranks[i as int], ranks[j as int], ranks[k as int]);
    if text_less(a.label@, b.label@) && text_less(b.label@, c.label@) {
        lemma_text_order_transitive(a.label@, b.label@, c.label@);
    }
}

/// Positions in a strict order: what they contain fixes them.
pub proof fn lemma_order_is_unique(
    ahead: spec_fn(usize, usize) -> bool,
    a: Seq<usize>,
    b: Seq<usize>,
)
    requires
        forall|i: usize, j: usize| #[trigger] ahead(i, j) ==> !ahead(j, i),
        forall|m: int, n: int| 0 <= m < n < a.len() ==> ahead(#[trigger] a[m], #[trigger] a[n]),
        forall|m: int, n: int| 0 <= m < n < b.len() ==> ahead(#[trigger] b[m], #[trigger] b[n]),
        forall|p: usize| #[trigger] a.contains(p) <==> b.contains(p),
    ensures
        a == b,
    decreases a.len(),
{
    if a.len() == 0 {
        if b.len() > 0 {
            assert(b.contains(b[0]));
            assert(a.contains(b[0]));
        }
        assert(a =~= b);
    } else {
        assert(a.contains(a[0]));
        let i = choose|i: int| 0 <= i < b.len() && b[i] == a[0];
        assert(b.contains(b[0]));
        assert(a.contains(b[0]));
        let j = choose|j: int| 0 <= j < a.len() && a[j] == b[0];
        if i > 0 && j > 0 {
            assert(ahead(b[0], b[i]));
            assert(ahead(a[0], a[j]));
        }
        assert(a[0] == b[0]);
        let (x, y) = (a.drop_first(), b.drop_first());
        assert forall|m: int, n: int| 0 <= m < n < x.len() implies ahead(
            #[trigger] x[m],
            #[trigger] x[n],
        ) by {
            assert(ahead(a[m + 1], a[n + 1]));
        }
        assert forall|m: int, n: int| 0 <= m < n < y.len() implies ahead(
            #[trigger] y[m],
            #[trigger] y[n],
        ) by {
            assert(ahead(b[m + 1], b[n + 1]));
        }
        assert forall|p: usize| #[trigger] x.contains(p) <==> y.contains(p) by {
            if x.contains(p) {
                let m = choose|m: int| 0 <= m < x.len() && x[m] == p;
                assert(a[m + 1] == p);
                assert(ahead(a[0], a[m + 1]));
                assert(a.contains(p));
                let n = choose|n: int| 0 <= n < b.len() && b[n] == p;
                assert(n > 0);
                assert(y[n - 1] == p);
            }
            if y.contains(p) {
                let m = choose|m: int| 0 <= m < y.len() && y[m] == p;
                assert(b[m + 1] == p);
                assert(ahead(b[0], b[m + 1]));
                assert(b.contains(p));
                assert(a.contains(p));
                let n = choose|n: int| 0 <= n < a.len() && a[n] == p;
                assert(n > 0);
                assert(x[n - 1] == p);
            }
        }
        lemma_order_is_unique(ahead, x, y);
        assert(a =~= seq![a[0]] + x);
        assert(b =~= seq![b[0]] + y);
    }
}

/// Whether the item at `i` stands before the one at `j`.
fn is_before(ranks: &Vec<Rank>, i: usize, j: usize) -> (r: bool)
    requires
        i < ranks@.len(),
        j < ranks@.len(),
    ensures
        r == before(ranks@, i, j),
{
    let (a, b) = (&ranks[i], &ranks[j]);
    proof {
        lemma_text_order(a.label@, b.label@);
    }
    if a.score != b.score {
        a.score > b.score
    } else if a.bytes != b.bytes {
        a.bytes < b.bytes
    } else if same_text(a.label.as_str(), b.label.as_str()) {
        i < j
    } else {
        text_before(a.label.as_str(), b.label.as_str())
    }
}

/// Two runs of different positions, each in order, as one.
fn merge(ranks: &Vec<Rank>, left: &Vec<usize>, right: &Vec<usize>) -> (r: Vec<usize>)
    requires
        in_order(ranks@, left@),
        in_order(ranks@, right@),
        forall|i: int| 0 <= i < left@.len() ==> #[trigger] left@[i] < ranks@.len(),
        forall|i: int| 0 <= i < right@.len() ==> #[trigger] right@[i] < ranks@.len(),
        forall|i: int, j: int|
            0 <= i < left@.len() && 0 <= j < right@.len() ==> #[trigger] left@[i]
                != #[trigger] right@[j],
    ensures
        in_order(ranks@, r@),
        forall|p: usize| #[trigger] r@.contains(p) <==> left@.contains(p) || right@.contains(p),
{
    let mut out: Vec<usize> = Vec::new();
    let mut a: usize = 0;
    let mut b: usize = 0;
    while a < left.len() || b < right.len()
        invariant
            a <= left@.len(),
            b <= right@.len(),
            in_order(ranks@, left@),
            in_order(ranks@, right@),
            forall|i: int| 0 <= i < left@.len() ==> #[trigger] left@[i] < ranks@.len(),
            forall|i: int| 0 <= i < right@.len() ==> #[trigger] right@[i] < ranks@.len(),
            forall|i: int, j: int|
                0 <= i < left@.len() && 0 <= j < right@.len() ==> #[trigger] left@[i]
                    != #[trigger] right@[j],
            in_order(ranks@, out@),
            forall|k: int, i: int|
                0 <= k < out@.len() && a <= i < left@.len() ==> before(
                    ranks@,
                    #[trigger] out@[k],
                    #[trigger] left@[i],
                ),
            forall|k: int, i: int|
                0 <= k < out@.len() && b <= i < right@.len() ==> before(
                    ranks@,
                    #[trigger] out@[k],
                    #[trigger] right@[i],
                ),
            forall|k: int|
                0 <= k < out@.len() ==> left@.contains(#[trigger] out@[k]) || right@.contains(
                    out@[k],
                ),
            forall|i: int| 0 <= i < a ==> out@.contains(#[trigger] left@[i]),
            forall|i: int| 0 <= i < b ==> out@.contains(#[trigger] right@[i]),
        decreases left.len() - a + right.len() - b,
    {
        let from_left = if a < left.len() {
            if b < right.len() {
                is_before(ranks, left[a], right[b])
            } else {
                true
            }
        } else {
            false
        };
        let ghost old_out = out@;
        if from_left {
            let p: usize = left[a];
            proof {
                assert forall|i: int| b <= i < right@.len() implies before(
                    ranks@,
                    p,
                    #[trigger] right@[i],
                ) by {
                    if i > b {
                        lemma_transitive(ranks@, p, right@[b as int], right@[i]);
                    }
                }
            }
            out.push(p);
            a = a + 1;
            proof {
                assert(out@.last() == p);
                assert(out@[out@.len() - 1] == left@[a - 1]);
                lemma_pushed(old_out, p);
            }
        } else {
            let p: usize = right[b];
            proof {
                if a < left@.len() {
                    lemma_total(ranks@, left@[a as int], p);
                }
                assert forall|i: int| a <= i < left@.len() implies before(
                    ranks@,
                    p,
                    #[trigger] left@[i],
                ) by {
                    if i > a {
                        lemma_transitive(ranks@, p, left@[a as int], left@[i]);
                    }
                }
            }
            out.push(p);
            b = b + 1;
            proof {
                lemma_pushed(old_out, p);
            }
        }
    }
    proof {
        assert forall|p: usize| #[trigger] out@.contains(p) <==> left@.contains(p)
            || right@.contains(p) by {
            if left@.contains(p) {
                let i = choose|i: int| 0 <= i < left@.len() && left@[i] == p;
                assert(out@.contains(left@[i]));
            }
            if right@.contains(p) {
                let i = choose|i: int| 0 <= i < right@.len() && right@[i] == p;
                assert(out@.contains(right@[i]));
            }
        }
    }
    out
}

/// What a sequence contains stays when an item is put behind it.
proof fn lemma_pushed(items: Seq<usize>, item: usize)
    ensures
        forall|p: usize| items.contains(p) ==> #[trigger] items.push(item).contains(p),
        items.push(item).contains(item),
{
    assert forall|p: usize| items.contains(p) implies #[trigger] items.push(item).contains(p) by {
        let i = choose|i: int| 0 <= i < items.len() && items[i] == p;
        assert(items.push(item)[i] == p);
    }
    assert(items.push(item)[items.len() as int] == item);
}

/// The positions from `lo` to `hi` of a list of different positions, in the order of their ranks.
fn sort_part(ranks: &Vec<Rank>, positions: &Vec<usize>, lo: usize, hi: usize) -> (r: Vec<usize>)
    requires
        lo <= hi <= positions@.len(),
        positions@.no_duplicates(),
        forall|i: int| 0 <= i < positions@.len() ==> #[trigger] positions@[i] < ranks@.len(),
    ensures
        in_order(ranks@, r@),
        forall|p: usize| #[trigger]
            r@.contains(p) <==> positions@.subrange(lo as int, hi as int).contains(p),
    decreases hi - lo,
{
    let ghost part = positions@.subrange(lo as int, hi as int);
    if hi - lo < 2 {
        let mut out: Vec<usize> = Vec::new();
        if lo < hi {
            out.push(positions[lo]);
        }
        assert(out@ =~= part);
        return out;
    }
    let mid: usize = lo + (hi - lo) / 2;
    let left = sort_part(ranks, positions, lo, mid);
    let right = sort_part(ranks, positions, mid, hi);
    let ghost (first, second) = (
        positions@.subrange(lo as int, mid as int),
        positions@.subrange(mid as int, hi as int),
    );
    proof {
        assert forall|i: int| 0 <= i < left@.len() implies #[trigger] left@[i] < ranks@.len() by {
            assert(left@.contains(left@[i]));
            let k = choose|k: int| 0 <= k < first.len() && first[k] == left@[i];
            assert(positions@[lo + k] == left@[i]);
        }
        assert forall|i: int| 0 <= i < right@.len() implies #[trigger] right@[i] < ranks@.len() by {
            assert(right@.contains(right@[i]));
            let k = choose|k: int| 0 <= k < second.len() && second[k] == right@[i];
            assert(positions@[mid + k] == right@[i]);
        }
        assert forall|i: int, j: int|
            0 <= i < left@.len() && 0 <= j < right@.len() implies #[trigger] left@[i]
            != #[trigger] right@[j] by {
            assert(left@.contains(left@[i]) && right@.contains(right@[j]));
            let k = choose|k: int| 0 <= k < first.len() && first[k] == left@[i];
            let l = choose|l: int| 0 <= l < second.len() && second[l] == right@[j];
            assert(positions@[lo + k] != positions@[mid + l]);
        }
    }
    let out = merge(ranks, &left, &right);
    proof {
        assert forall|p: usize| #[trigger] out@.contains(p) <==> part.contains(p) by {
            if part.contains(p) {
                let k = choose|k: int| 0 <= k < part.len() && part[k] == p;
                if k < mid - lo {
                    assert(first[k] == p);
                } else {
                    assert(second[k - (mid - lo)] == p);
                }
            }
            if first.contains(p) {
                let k = choose|k: int| 0 <= k < first.len() && first[k] == p;
                assert(part[k] == p);
            }
            if second.contains(p) {
                let k = choose|k: int| 0 <= k < second.len() && second[k] == p;
                assert(part[k + (mid - lo)] == p);
            }
        }
    }
    out
}

/// Different positions in the order of their ranks.
pub fn sort_positions(ranks: &Vec<Rank>, positions: &Vec<usize>) -> (r: Vec<usize>)
    requires
        positions@.no_duplicates(),
        forall|i: int| 0 <= i < positions@.len() ==> #[trigger] positions@[i] < ranks@.len(),
    ensures
        in_order(ranks@, r@),
        forall|p: usize| #[trigger] r@.contains(p) <==> positions@.contains(p),
{
    assert(positions@.subrange(0, positions@.len() as int) =~= positions@);
    sort_part(ranks, positions, 0, positions.len())
}

} // verus!
