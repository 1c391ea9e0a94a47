//! What Quick Open is for: how matches are scored and in which order they are listed.

use crate::paths::{lossy_text, path_of, relative_path};
use crate::quick_open::{
    fuzzy, gain, label_before, label_of, label_order, lists_matches, lowered, matches_for,
    stands_before, worth, QuickFile,
};
use crate::text::{lemma_text_order, lemma_text_order_transitive, text_less};
use std::path::{Path, PathBuf};
use vstd::prelude::*;
use vstd::string::*;
use vstd::utf8::encode_utf8;

verus! {

/// `places` are the first places of the characters of `query` in `candidate`: each is found at
/// the first place behind the one before it.
pub open spec fn first_places(query: Seq<char>, candidate: Seq<char>, places: Seq<int>) -> bool {
    &&& places.len() == query.len()
    &&& forall|i: int|
        0 <= i < places.len() ==> 0 <= #[trigger] places[i] < candidate.len()
            && candidate[places[i]] == query[i]
    &&& forall|i: int| 0 < i < places.len() ==> places[i - 1] < #[trigger] places[i]
    &&& forall|i: int, k: int|
        #![trigger places[i], candidate[k]]
        0 <= i < places.len() && 0 <= k < places[i] && (i > 0 ==> places[i - 1] < k)
            ==> candidate[k] != query[i]
}

/// The score of what is found at `places` from the place `n` on.
spec fn sum_from(candidate: Seq<char>, places: Seq<int>, n: int) -> int
    decreases places.len() - n,
{
    if n < 0 || n >= places.len() {
        0
    } else {
        gain(
            candidate,
            places[n],
            if n == 0 {
                None
            } else {
                Some(places[n - 1])
            },
        ) + sum_from(candidate, places, n + 1)
    }
}

proof fn lemma_worth_is_the_sum(
    query: Seq<char>,
    q: int,
    candidate: Seq<char>,
    at: int,
    places: Seq<int>,
)
    requires
        first_places(query, candidate, places),
        0 <= q <= query.len(),
        0 <= at <= candidate.len(),
        q < query.len() ==> at <= places[q],
        q > 0 ==> places[q - 1] < at,
    ensures
        worth(
            query,
            q,
            candidate,
            at,
            if q == 0 {
                None
            } else {
                Some(places[q - 1])
            },
        ) == Some(sum_from(candidate, places, q)),
    decreases candidate.len() - at,
{
    if q < query.len() {
        assert(candidate[places[q]] == query[q]);
        if at == places[q] {
            if q + 1 < query.len() {
                assert(places[q + 1 - 1] < places[q + 1]);
            }
            lemma_worth_is_the_sum(query, q + 1, candidate, at + 1, places);
        } else {
            assert(candidate[at] != query[q]);
            lemma_worth_is_the_sum(query, q, candidate, at + 1, places);
        }
    }
}

proof fn lemma_sum_of_longer(candidate: Seq<char>, places: Seq<int>, n: int)
    requires
        places.len() > 0,
        0 <= n < places.len(),
    ensures
        sum_from(candidate, places, n) == sum_from(candidate, places.drop_last(), n)
            + sum_from(candidate, places, places.len() - 1),
    decreases places.len() - n,
{
    let fewer = places.drop_last();
    if n < places.len() - 1 {
        assert(fewer[n] == places[n]);
        if n > 0 {
            assert(fewer[n - 1] == places[n - 1]);
        }
        lemma_sum_of_longer(candidate, places, n + 1);
    } else {
        assert(sum_from(candidate, fewer, n) == 0);
    }
}

/// A single character scores ten where it is found first, less one for every character of the
/// candidate, and six more where a word starts: at the beginning, and right behind a slash, a
/// backslash, a hyphen, an underscore or a point.
pub proof fn law_single_characters_score(c: char, candidate: Seq<char>, at: int)
    requires
        0 <= at < candidate.len(),
        candidate[at] == c,
        forall|k: int| 0 <= k < at ==> candidate[k] != c,
    ensures
        fuzzy(seq![c], candidate) == Some(
            10 - candidate.len() + if at == 0 || candidate[at - 1] == '/' || candidate[at - 1]
                == '\\' || candidate[at - 1] == '-' || candidate[at - 1] == '_' || candidate[at - 1]
                == '.' {
                6int
            } else {
                0
            },
        ),
{
    let places = seq![at];
    assert(first_places(seq![c], candidate, places));
    lemma_worth_is_the_sum(seq![c], 0, candidate, 0, places);
    assert(sum_from(candidate, places, 1) == 0);
}

/// Each further character scores ten where it is found next, eight more right behind the one
/// before it, and six more where a word starts: right behind a slash, a backslash, a hyphen, an
/// underscore or a point.
pub proof fn law_further_characters_score(
    query: Seq<char>,
    c: char,
    candidate: Seq<char>,
    places: Seq<int>,
)
    requires
        query.len() > 0,
        first_places(query.push(c), candidate, places),
    ensures
        ({
            let at = places[places.len() - 1];
            let previous = places[places.len() - 2];
            let behind = candidate[at - 1];
            fuzzy(query.push(c), candidate) is Some && fuzzy(query, candidate) is Some && fuzzy(
                query.push(c),
                candidate,
            )->0 == fuzzy(query, candidate)->0 + 10 + (if at == previous + 1 {
                8int
            } else {
                0
            }) + if behind == '/' || behind == '\\' || behind == '-' || behind == '_' || behind
                == '.' {
                6int
            } else {
                0
            }
        }),
{
    let longer = query.push(c);
    let fewer = places.drop_last();
    let last = places.len() - 1;
    assert(places[last - 1] < places[last]);
    assert(first_places(query, candidate, fewer)) by {
        assert forall|i: int| 0 <= i < fewer.len() implies 0 <= #[trigger] fewer[i]
            < candidate.len() && candidate[fewer[i]] == query[i] by {
            assert(fewer[i] == places[i] && longer[i] == query[i]);
        }
        assert forall|i: int| 0 < i < fewer.len() implies fewer[i - 1] < #[trigger] fewer[i] by {
            assert(fewer[i] == places[i] && places[i - 1] < places[i]);
        }
        assert forall|i: int, k: int|
            #![trigger fewer[i], candidate[k]]
            0 <= i < fewer.len() && 0 <= k < fewer[i] && (i > 0 ==> fewer[i - 1] < k) implies
            candidate[k] != query[i] by {
            assert(fewer[i] == places[i] && longer[i] == query[i]);
            assert(candidate[k] != longer[i]);
        }
    }
    assert(0 <= places[0]);
    lemma_worth_is_the_sum(longer, 0, candidate, 0, places);
    assert(0 <= fewer[0]);
    lemma_worth_is_the_sum(query, 0, candidate, 0, fewer);
    lemma_sum_of_longer(candidate, places, 0);
    assert(sum_from(candidate, places, last + 1) == 0);
}

/// Every match has first places, so that what its characters score is known.
pub proof fn law_matches_have_first_places(query: Seq<char>, candidate: Seq<char>)
    requires
        fuzzy(query, candidate) is Some,
    ensures
        exists|places: Seq<int>| first_places(query, candidate, places),
{
    if query.len() == 0 {
        assert(first_places(query, candidate, Seq::empty()));
    } else {
        let places = lemma_places(query, 0, candidate, 0, None);
        assert(first_places(query, candidate, places));
    }
}

proof fn lemma_places(
    query: Seq<char>,
    q: int,
    candidate: Seq<char>,
    at: int,
    previous: Option<int>,
) -> (places: Seq<int>)
    requires
        0 <= q <= query.len(),
        0 <= at,
        worth(query, q, candidate, at, previous) is Some,
    ensures
        places.len() == query.len() - q,
        forall|i: int|
            0 <= i < places.len() ==> at <= #[trigger] places[i] < candidate.len()
                && candidate[places[i]] == query[q + i],
        forall|i: int| 0 < i < places.len() ==> places[i - 1] < #[trigger] places[i],
        forall|i: int, k: int|
            #![trigger places[i], candidate[k]]
            0 <= i < places.len() && at <= k < places[i] && (i > 0 ==> places[i - 1] < k)
                ==> candidate[k] != query[q + i],
    decreases candidate.len() - at,
{
    if q >= query.len() {
        Seq::empty()
    } else if candidate[at] == query[q] {
        let rest = lemma_places(query, q + 1, candidate, at + 1, Some(at));
        let places = seq![at] + rest;
        assert forall|i: int| 0 <= i < places.len() implies at <= #[trigger] places[i]
            < candidate.len() && candidate[places[i]] == query[q + i] by {
            if i > 0 {
                assert(places[i] == rest[i - 1]);
            }
        }
        assert forall|i: int| 0 < i < places.len() implies places[i - 1] < #[trigger] places[i] by {
            assert(places[i] == rest[i - 1]);
            if i > 1 {
                assert(places[i - 1] == rest[i - 2]);
                assert(rest[i - 1 - 1] < rest[i - 1]);
            }
        }
        assert forall|i: int, k: int|
            #![trigger places[i], candidate[k]]
            0 <= i < places.len() && at <= k < places[i] && (i > 0 ==> places[i - 1] < k) implies
            candidate[k] != query[q + i] by {
            if i > 0 {
                assert(places[i] == rest[i - 1]);
                if i > 1 {
                    assert(places[i - 1] == rest[i - 2]);
                }
                assert(candidate[k] != query[q + 1 + (i - 1)]);
            }
        }
        places
    } else {
        let places = lemma_places(query, q, candidate, at + 1, previous);
        assert forall|i: int, k: int|
            #![trigger places[i], candidate[k]]
            0 <= i < places.len() && at <= k < places[i] && (i > 0 ==> places[i - 1] < k) implies
            candidate[k] != query[q + i] by {
            if k == at && i > 0 {
                assert(at + 1 <= places[i - 1]);
            }
        }
        places
    }
}

/// A separator starts a word: whichever of the five stands before the first match of a character,
/// the score is the same, and it is six better than behind any other character.
pub proof fn law_separators_start_words(
    head: Seq<char>,
    separator: char,
    other: char,
    c: char,
    tail: Seq<char>,
)
    requires
        separator == '/' || separator == '\\' || separator == '-' || separator == '_' || separator
            == '.',
        other != '/' && other != '\\' && other != '-' && other != '_' && other != '.',
        c != separator && c != other,
        !head.contains(c),
    ensures
        ({
            let behind = fuzzy(seq![c], head.push(separator).push(c) + tail);
            let inside = fuzzy(seq![c], head.push(other).push(c) + tail);
            let first = fuzzy(seq![c], seq![c].push(separator) + head + tail);
            &&& behind is Some && inside is Some && first is Some
            &&& behind->0 == inside->0 + 6
            &&& behind->0 == first->0
        }),
{
    let at = head.len() as int + 1;
    let (a, b) = (head.push(separator).push(c) + tail, head.push(other).push(c) + tail);
    let d = seq![c].push(separator) + head + tail;
    assert forall|k: int| 0 <= k < at implies a[k] != c && b[k] != c by {
        if k < head.len() {
            assert(head.contains(head[k]));
        }
    }
    law_single_characters_score(c, a, at);
    law_single_characters_score(c, b, at);
    law_single_characters_score(c, d, 0);
}

/// A file whose name starts with what is typed comes before one that has it inside a word: `main`
/// scores 59 in `src/main.rs` and 55 in `domain.rs`.
pub proof fn law_word_starts_win()
    ensures
        fuzzy("main"@, "src/main.rs"@) == Some(59int),
        fuzzy("main"@, "domain.rs"@) == Some(55int),
{
    reveal_strlit("main");
    reveal_strlit("src/main.rs");
    reveal_strlit("domain.rs");
    reveal_with_fuel(worth, 12);
}

/// Of two listed files the one with the better score comes first; of equal scores the one with
/// the shorter label, then the one whose label comes first, then the one that was indexed first.
pub proof fn law_better_matches_come_first(
    files: Seq<QuickFile>,
    query: Seq<char>,
    listed: Seq<usize>,
    a: int,
    b: int,
)
    requires
        lists_matches(files, query, listed),
        0 <= a < b < listed.len(),
    ensures
        listed[a] < files.len() && listed[b] < files.len(),
        ({
            let (first, second) = (files[listed[a] as int], files[listed[b] as int]);
            let (x, y) = (
                fuzzy(query, first.label_lower@),
                fuzzy(query, second.label_lower@),
            );
            let (short, long) = (
                encode_utf8(first.label@).len() as usize,
                encode_utf8(second.label@).len() as usize,
            );
            &&& x is Some && y is Some && x->0 >= y->0
            &&& x == y ==> short <= long
            &&& x == y && short == long ==> first.label@ == second.label@ || text_less(
                first.label@,
                second.label@,
            )
            &&& x == y && short == long && first.label@ == second.label@ ==> listed[a] < listed[b]
        }),
{
    assert(listed.contains(listed[a]) && listed.contains(listed[b]));
    assert(stands_before(files, query, listed[a], listed[b]));
}

/// What is typed lists exactly the files in which it is found, in capital or small letters alike,
/// the best first; nothing typed lists every file in the order of the index.
pub proof fn law_what_is_typed_lists_its_matches(files: Seq<QuickFile>, typed: Seq<char>)
    requires
        files.len() <= usize::MAX,
    ensures
        typed.len() > 0 ==> lists_matches(files, lowered(typed), matches_for(files, typed)),
        typed.len() > 0 ==> forall|i: usize| #[trigger]
            matches_for(files, typed).contains(i) <==> i < files.len() && fuzzy(
                lowered(typed),
                files[i as int].label_lower@,
            ) is Some,
        typed.len() == 0 ==> matches_for(files, typed).len() == files.len() && forall|k: int|
            0 <= k < files.len() ==> #[trigger] matches_for(files, typed)[k] == k,
{
    if typed.len() > 0 {
        let listed = lemma_list_of_first(files, lowered(typed), files.len());
        assert(lists_matches(files, lowered(typed), listed));
    }
}

/// The order of the list is strict, total and transitive.
proof fn lemma_listing_order(files: Seq<QuickFile>, query: Seq<char>, i: usize, j: usize, k: usize)
    ensures
        i != j ==> stands_before(files, query, i, j) || stands_before(files, query, j, i),
        stands_before(files, query, i, j) && stands_before(files, query, j, k) ==> stands_before(
            files,
            query,
            i,
            k,
        ),
{
    let (a, b, c) = (files[i as int].label@, files[j as int].label@, files[k as int].label@);
    lemma_text_order(a, b);
    lemma_text_order(b, c);
    lemma_text_order(a, c);
    if text_less(a, b) && text_less(b, c) {
        lemma_text_order_transitive(a, b, c);
    }
}

/// The first `count` files that match, in order.
proof fn lemma_list_of_first(files: Seq<QuickFile>, query: Seq<char>, count: nat) -> (listed: Seq<
    usize,
>)
    requires
        count <= files.len() <= usize::MAX,
    ensures
        forall|i: usize| #[trigger]
            listed.contains(i) <==> i < count && fuzzy(query, files[i as int].label_lower@) is Some,
        forall|a: int, b: int|
            0 <= a < b < listed.len() ==> stands_before(
                files,
                query,
                #[trigger] listed[a],
                #[trigger] listed[b],
            ),
    decreases count,
{
    if count == 0 {
        Seq::empty()
    } else {
        let before = lemma_list_of_first(files, query, (count - 1) as nat);
        let last = (count - 1) as usize;
        if fuzzy(query, files[last as int].label_lower@) is None {
            before
        } else {
            assert(!before.contains(last));
            let at = lemma_place_in_order(files, query, before, last, before.len() as int);
            let listed = before.insert(at, last);
            assert forall|i: usize| #[trigger] listed.contains(i) <==> before.contains(i) || i
                == last by {
                if before.contains(i) {
                    let k = choose|k: int| 0 <= k < before.len() && before[k] == i;
                    assert(listed[if k < at {
                        k
                    } else {
                        k + 1
                    }] == i);
                }
                if i == last {
                    assert(listed[at] == i);
                }
                if listed.contains(i) {
                    let k = choose|k: int| 0 <= k < listed.len() && listed[k] == i;
                    if k < at {
                        assert(before[k] == i);
                    } else if k > at {
                        assert(before[k - 1] == i);
                    }
                }
            }
            assert forall|a: int, b: int| 0 <= a < b < listed.len() implies stands_before(
                files,
                query,
                #[trigger] listed[a],
                #[trigger] listed[b],
            ) by {
                if a < at && b < at {
                    assert(listed[a] == before[a] && listed[b] == before[b]);
                } else if a > at {
                    assert(listed[a] == before[a - 1] && listed[b] == before[b - 1]);
                } else if a < at && b > at {
                    assert(listed[a] == before[a] && listed[b] == before[b - 1]);
                } else if a < at {
                    assert(listed[a] == before[a]);
                } else {
                    assert(listed[b] == before[b - 1]);
                }
            }
            listed
        }
    }
}

/// Where a file goes into a list: behind all that stand before it.
proof fn lemma_place_in_order(
    files: Seq<QuickFile>,
    query: Seq<char>,
    listed: Seq<usize>,
    file: usize,
    upto: int,
) -> (at: int)
    requires
        0 <= upto <= listed.len(),
        !listed.contains(file),
        forall|a: int, b: int|
            0 <= a < b < listed.len() ==> stands_before(
                files,
                query,
                #[trigger] listed[a],
                #[trigger] listed[b],
            ),
        forall|k: int|
            upto <= k < listed.len() ==> stands_before(files, query, file, #[trigger] listed[k]),
    ensures
        0 <= at <= upto,
        forall|k: int| 0 <= k < at ==> stands_before(files, query, #[trigger] listed[k], file),
        forall|k: int|
            at <= k < listed.len() ==> stands_before(files, query, file, #[trigger] listed[k]),
    decreases upto,
{
    if upto == 0 {
        0
    } else {
        let near = listed[upto - 1];
        assert(listed.contains(near));
        lemma_listing_order(files, query, near, file, file);
        if stands_before(files, query, near, file) {
            assert forall|k: int| 0 <= k < upto implies stands_before(
                files,
                query,
                #[trigger] listed[k],
                file,
            ) by {
                if k < upto - 1 {
                    lemma_listing_order(files, query, listed[k], near, file);
                }
            }
            upto
        } else {
            lemma_place_in_order(files, query, listed, file, upto - 1)
        }
    }
}

/// Texts are ordered by their first difference, by code points; a text comes before what it
/// begins.
pub proof fn law_the_first_difference_decides(a: Seq<char>, b: Seq<char>, at: int)
    requires
        0 <= at <= a.len(),
        at <= b.len(),
        forall|k: int| 0 <= k < at ==> a[k] == b[k],
    ensures
        at < a.len() && at < b.len() && a[at] != b[at] ==> text_less(a, b) == (a[at] < b[at]),
        at == a.len() && at < b.len() ==> text_less(a, b),
        at == b.len() ==> !text_less(a, b),
    decreases at,
{
    if at > 0 {
        assert(a[0] == b[0]);
        let (x, y) = (a.drop_first(), b.drop_first());
        assert forall|k: int| 0 <= k < at - 1 implies x[k] == y[k] by {
            assert(a[k + 1] == b[k + 1]);
        }
        law_the_first_difference_decides(x, y, at - 1);
    }
}

/// Nothing typed matches everything alike.
pub proof fn law_nothing_typed_matches_everything(candidate: Seq<char>)
    ensures
        fuzzy(Seq::empty(), candidate) == Some(0int),
{
}

/// A file is listed by its path from the root, or the whole of it where it lies elsewhere, with
/// slashes for backslashes.
pub proof fn law_files_are_labelled_from_the_root(root: &Path, path: PathBuf, i: int)
    ensures
        ({
            let label = label_of(root, path);
            let shown = match relative_path(path_of(path), root) {
                Some(inner) => lossy_text(path_of(inner)),
                None => lossy_text(path_of(path)),
            };
            &&& label.len() == shown.len()
            &&& 0 <= i < label.len() ==> label[i] == if shown[i] == '\\' {
                '/'
            } else {
                shown[i]
            }
        }),
{
}

/// The index lists every file once, in the order of the labels in small letters, and files of one
/// label in the order in which they were found.
pub proof fn law_the_index_is_in_the_order_of_labels(
    files: Seq<QuickFile>,
    order: Seq<usize>,
    a: int,
    b: int,
)
    requires
        label_order(files, order),
        0 <= a < b < order.len(),
    ensures
        ({
            let (first, second) = (
                files[order[a] as int].label_lower@,
                files[order[b] as int].label_lower@,
            );
            &&& order[a] < files.len() && order[b] < files.len() && order[a] != order[b]
            &&& first == second || text_less(first, second)
            &&& first == second ==> order[a] < order[b]
        }),
        forall|i: usize| i < files.len() ==> #[trigger] order.contains(i),
{
    assert(order.contains(order[a]) && order.contains(order[b]));
    assert(label_before(files, order[a], order[b]));
    lemma_text_order(files[order[a] as int].label_lower@, files[order[a] as int].label_lower@);
}

} // verus!
