//! Quick Open: the index of files, and the files that match what was typed.

use crate::paths::{as_path, lossy_text, path_of, relative_path, show_lossy, strip_prefix};
use crate::ranking::{before, lemma_order_is_unique, sort_positions, Rank};
use crate::text::{chars_of, lemma_text_order, replace_char, replaced, same_text, text_less};
use std::path::Path;
use std::path::PathBuf;
use std::sync::Arc;
use vstd::prelude::*;
use vstd::string::*;
use vstd::utf8::encode_utf8;

verus! {

/// How many files are indexed at most.
pub const QUICK_OPEN_FILE_LIMIT: usize = 20_000;

/// A file that can be found: where it is, what it is shown as, and that in small letters.
#[derive(Clone, Debug, PartialEq, Eq)]
pub struct QuickFile {
    pub path: PathBuf,
    pub label: String,
    pub label_lower: String,
}

/// The files below a root.
#[derive(Debug)]
pub struct QuickIndex {
    pub root: PathBuf,
    pub show_hidden: bool,
    pub files: Arc<Vec<QuickFile>>,
    pub truncated: bool,
}

/// What an index holds.
pub struct IndexView {
    pub root: PathBuf,
    pub show_hidden: bool,
    pub files: Seq<QuickFile>,
    pub truncated: bool,
}

impl QuickIndex {
    /// What this index holds.
    pub open spec fn view(&self) -> IndexView {
        IndexView {
            root: self.root,
            show_hidden: self.show_hidden,
            files: self.files@,
            truncated: self.truncated,
        }
    }
}

/// `std::sync::Arc::clone`: another handle on the same files.
#[verifier::external_body]
pub(crate) fn share(files: &Arc<Vec<QuickFile>>) -> (r: Arc<Vec<QuickFile>>)
    ensures
        r == *files,
{
    Arc::clone(files)
}

/// A text in small letters.
pub uninterp spec fn lowered(text: Seq<char>) -> Seq<char>;

/// A text in capital letters.
pub uninterp spec fn raised(text: Seq<char>) -> Seq<char>;

/// `str::to_lowercase`: the text in small letters. What it gives is named.
#[verifier::external_body]
pub(crate) fn to_lower(text: &str) -> (r: String)
    ensures
        r@ == lowered(text@),
{
    text.to_lowercase()
}

/// `str::to_uppercase`: the text in capital letters. What it gives is named.
#[verifier::external_body]
pub(crate) fn to_upper(text: &str) -> (r: String)
    ensures
        r@ == raised(text@),
{
    text.to_uppercase()
}

/// A character behind which a word begins.
pub open spec fn is_boundary(c: char) -> bool {
    c == '/' || c == '\\' || c == '-' || c == '_' || c == '.'
}

/// What a match at `at` is worth, with the match before it at `previous`: more right behind that
/// one, and more at the start of a word.
pub open spec fn gain(candidate: Seq<char>, at: int, previous: Option<int>) -> int {
    10 + (if previous == Some(at - 1) {
        8int
    } else {
        0
    }) + (if at == 0 || is_boundary(candidate[at - 1]) {
        6int
    } else {
        0
    })
}

/// What the characters of `query` from `q` on are worth, each matched at the first place from
/// `at` on; nothing where one of them has no place.
pub open spec fn worth(
    query: Seq<char>,
    q: int,
    candidate: Seq<char>,
    at: int,
    previous: Option<int>,
) -> Option<int>
    decreases candidate.len() - at,
{
    if q >= query.len() {
        Some(0)
    } else if at >= candidate.len() {
        None
    } else if candidate[at] == query[q] {
        match worth(query, q + 1, candidate, at + 1, Some(at)) {
            Some(rest) => Some(gain(candidate, at, previous) + rest),
            None => None,
        }
    } else {
        worth(query, q, candidate, at + 1, previous)
    }
}

/// How well `query` matches `candidate`: its characters are found in order, each at the first
/// place, and long candidates are worth less. An empty query matches everything alike.
pub open spec fn fuzzy(query: Seq<char>, candidate: Seq<char>) -> Option<int> {
    if query.len() == 0 {
        Some(0)
    } else {
        match worth(query, 0, candidate, 0, None) {
            Some(value) => Some(value - candidate.len()),
            None => None,
        }
    }
}

/// How well `query` matches `candidate`, both in small letters.
pub fn fuzzy_score_lowercased(query: &str, candidate: &str) -> (r: Option<i128>)
    ensures
        match r {
            Some(score) => fuzzy(query@, candidate@) == Some(score as int),
            None => fuzzy(query@, candidate@) is None,
        },
{
    let wanted = chars_of(query);
    if wanted.len() == 0 {
        return Some(0);
    }
    let chars = chars_of(candidate);
    let mut q: usize = 0;
    let mut score: i128 = 0;
    let mut previous: Option<usize> = None;
    let ghost total = worth(query@, 0, candidate@, 0, None);
    for at in 0..chars.len()
        invariant
            wanted@ == query@,
            chars@ == candidate@,
            q < wanted@.len(),
            q <= at,
            total == worth(query@, 0, candidate@, 0, None),
            0 <= score <= 24 * at,
            previous matches Some(p) ==> p < at,
            match worth(
                query@,
                q as int,
                candidate@,
                at as int,
                match previous {
                    Some(p) => Some(p as int),
                    None => None,
                },
            ) {
                Some(rest) => total == Some(score + rest),
                None => total is None,
            },
    {
        let ch = chars[at];
        if ch == wanted[q] {
            score = score + 10;
            if let Some(p) = previous {
                if p + 1 == at {
                    score = score + 8;
                }
            }
            let starts_word = if at == 0 {
                true
            } else {
                let c = chars[at - 1];
                c == '/' || c == '\\' || c == '-' || c == '_' || c == '.'
            };
            if starts_word {
                score = score + 6;
            }
            previous = Some(at);
            q = q + 1;
            if q == wanted.len() {
                return Some(score - chars.len() as i128);
            }
        }
    }
    None
}

/// `positions` are places of the characters of `query` in `candidate`, in order.
pub open spec fn embeds(query: Seq<char>, candidate: Seq<char>, positions: Seq<int>) -> bool {
    &&& positions.len() == query.len()
    &&& forall|i: int|
        0 <= i < positions.len() ==> 0 <= #[trigger] positions[i] < candidate.len()
            && candidate[positions[i]] == query[i]
    &&& forall|i: int, j: int|
        0 <= i < j < positions.len() ==> #[trigger] positions[i] < #[trigger] positions[j]
}

/// A query matches exactly the candidates in which its characters occur in order.
pub proof fn law_matches_are_subsequences(query: Seq<char>, candidate: Seq<char>)
    ensures
        fuzzy(query, candidate) is Some <==> exists|positions: Seq<int>|
            embeds(query, candidate, positions),
{
    if query.len() == 0 {
        assert(embeds(query, candidate, Seq::empty()));
    } else {
        if fuzzy(query, candidate) is Some {
            let positions = lemma_embedding(query, 0, candidate, 0, None);
            assert(embeds(query, candidate, positions));
        }
        if exists|positions: Seq<int>| embeds(query, candidate, positions) {
            let positions = choose|positions: Seq<int>| embeds(query, candidate, positions);
            lemma_embedded(query, 0, candidate, 0, None, positions);
        }
    }
}

/// Where the characters from `q` on are matched.
proof fn lemma_embedding(
    query: Seq<char>,
    q: int,
    candidate: Seq<char>,
    at: int,
    previous: Option<int>,
) -> (positions: Seq<int>)
    requires
        0 <= q <= query.len(),
        0 <= at,
        worth(query, q, candidate, at, previous) is Some,
    ensures
        positions.len() == query.len() - q,
        forall|i: int|
            0 <= i < positions.len() ==> at <= #[trigger] positions[i] < candidate.len()
                && candidate[positions[i]] == query[q + i],
        forall|i: int, j: int|
            0 <= i < j < positions.len() ==> #[trigger] positions[i] < #[trigger] positions[j],
    decreases candidate.len() - at,
{
    if q >= query.len() {
        Seq::empty()
    } else if candidate[at] == query[q] {
        let rest = lemma_embedding(query, q + 1, candidate, at + 1, Some(at));
        let positions = seq![at] + rest;
        assert forall|i: int| 0 <= i < positions.len() implies at <= #[trigger] positions[i]
            < candidate.len() && candidate[positions[i]] == query[q + i] by {
            if i > 0 {
                assert(positions[i] == rest[i - 1]);
            }
        }
        assert forall|i: int, j: int| 0 <= i < j < positions.len() implies #[trigger] positions[i]
            < #[trigger] positions[j] by {
            assert(positions[j] == rest[j - 1]);
            if i > 0 {
                assert(positions[i] == rest[i - 1]);
            }
        }
        positions
    } else {
        lemma_embedding(query, q, candidate, at + 1, previous)
    }
}

/// Characters that have places from `at` on are matched.
proof fn lemma_embedded(
    query: Seq<char>,
    q: int,
    candidate: Seq<char>,
    at: int,
    previous: Option<int>,
    positions: Seq<int>,
)
    requires
        0 <= q <= query.len(),
        0 <= at,
        embeds(query, candidate, positions),
        q < query.len() ==> at <= positions[q],
    ensures
        worth(query, q, candidate, at, previous) is Some,
    decreases candidate.len() - at,
{
    if q < query.len() {
        if candidate[at] == query[q] {
            if q + 1 < query.len() {
                assert(positions[q] < positions[q + 1]);
            }
            lemma_embedded(query, q + 1, candidate, at + 1, Some(at), positions);
        } else {
            assert(positions[q] != at);
            lemma_embedded(query, q, candidate, at + 1, previous, positions);
        }
    }
}

/// How well a file matches; 0 stands for files that do not.
pub open spec fn file_score(file: QuickFile, query: Seq<char>) -> int {
    match fuzzy(query, file.label_lower@) {
        Some(score) => score,
        None => 0,
    }
}

/// A file stands before another in the list of matches: a better match first, then a shorter
/// label, then the order of labels, then the order of the index.
pub open spec fn stands_before(files: Seq<QuickFile>, query: Seq<char>, i: usize, j: usize) -> bool {
    let (a, b) = (files[i as int], files[j as int]);
    let (left, right) = (file_score(a, query), file_score(b, query));
    let (short, long) = (
        encode_utf8(a.label@).len() as usize,
        encode_utf8(b.label@).len() as usize,
    );
    if left != right {
        left > right
    } else if short != long {
        short < long
    } else if a.label@ != b.label@ {
        text_less(a.label@, b.label@)
    } else {
        i < j
    }
}

/// `r` lists the files that match `query`, the best first.
pub open spec fn lists_matches(files: Seq<QuickFile>, query: Seq<char>, r: Seq<usize>) -> bool {
    &&& forall|i: usize| #[trigger]
        r.contains(i) <==> i < files.len() && fuzzy(query, files[i as int].label_lower@) is Some
    &&& forall|a: int, b: int|
        0 <= a < b < r.len() ==> stands_before(files, query, #[trigger] r[a], #[trigger] r[b])
}

/// The files that match a query in small letters, the best first.
pub fn ranked_matches(files: &Vec<QuickFile>, query_lower: &str) -> (r: Vec<usize>)
    ensures
        lists_matches(files@, query_lower@, r@),
{
    let ghost query = query_lower@;
    let mut ranks: Vec<Rank> = Vec::new();
    let mut matching: Vec<usize> = Vec::new();
    for i in 0..files.len()
        invariant
            query == query_lower@,
            ranks@.len() == i,
            forall|k: int|
                0 <= k < i ==> (#[trigger] ranks@[k]).score == file_score(files@[k], query)
                    && ranks@[k].bytes == encode_utf8(files@[k].label@).len() as usize
                    && ranks@[k].label@ == files@[k].label@,
            forall|p: usize| #[trigger]
                matching@.contains(p) <==> p < i && fuzzy(query, files@[p as int].label_lower@) is Some,
            matching@.no_duplicates(),
            forall|k: int| 0 <= k < matching@.len() ==> #[trigger] matching@[k] < i,
    {
        let file = &files[i];
        let mut score: i128 = 0;
        let ghost old_matching = matching@;
        if let Some(value) = fuzzy_score_lowercased(query_lower, file.label_lower.as_str()) {
            score = value;
            matching.push(i);
            proof {
                assert forall|p: usize| #[trigger] matching@.contains(p) <==> old_matching.contains(
                    p,
                ) || p == i by {
                    if old_matching.contains(p) {
                        let k = choose|k: int| 0 <= k < old_matching.len() && old_matching[k] == p;
                        assert(matching@[k] == p);
                    }
                    if p == i {
                        assert(matching@[old_matching.len() as int] == p);
                    }
                }
            }
        }
        ranks.push(
            Rank { score, bytes: file.label.as_str().len(), label: file.label.clone() },
        );
    }
    let r = sort_positions(&ranks, &matching);
    proof {
        assert forall|a: int, b: int| 0 <= a < b < r@.len() implies stands_before(
            files@,
            query,
            #[trigger] r@[a],
            #[trigger] r@[b],
        ) by {
            assert(before(ranks@, r@[a], r@[b]));
            assert(r@.contains(r@[a]) && r@.contains(r@[b]));
            lemma_text_order(
                files@[r@[a] as int].label@,
                files@[r@[b] as int].label@,
            );
        }
    }
    r
}

/// The positions below `count`, in order.
pub open spec fn all_positions(count: nat) -> Seq<usize> {
    Seq::new(count, |i: int| i as usize)
}

/// The files that match what was typed, the best first; nothing typed matches every file, in the
/// order of the index.
pub fn quick_matches(files: &Vec<QuickFile>, query: &str) -> (r: Vec<usize>)
    ensures
        r@ == matches_for(files@, query@),
        query@.len() > 0 ==> lists_matches(files@, lowered(query@), r@),
        forall|k: int| 0 <= k < r@.len() ==> #[trigger] r@[k] < files@.len(),
{
    if query.is_empty() {
        let mut all: Vec<usize> = Vec::new();
        for i in 0..files.len()
            invariant
                all@ == all_positions(i as nat),
        {
            all.push(i);
            assert(all@ =~= all_positions((i + 1) as nat));
        }
        return all;
    }
    let r = ranked_matches(files, to_lower(query).as_str());
    proof {
        assert forall|k: int| 0 <= k < r@.len() implies #[trigger] r@[k] < files@.len() by {
            assert(r@.contains(r@[k]));
        }
        law_lists_of_matches_are_unique(
            files@,
            lowered(query@),
            r@,
            matches_for(files@, query@),
        );
    }
    r
}

/// The list of the files that match what was typed.
pub open spec fn matches_for(files: Seq<QuickFile>, query: Seq<char>) -> Seq<usize> {
    if query.len() == 0 {
        all_positions(files.len())
    } else {
        choose|r: Seq<usize>| lists_matches(files, lowered(query), r)
    }
}

/// What matches a query is fixed: there is one list of its matches.
pub proof fn law_lists_of_matches_are_unique(
    files: Seq<QuickFile>,
    query: Seq<char>,
    a: Seq<usize>,
    b: Seq<usize>,
)
    requires
        lists_matches(files, query, a),
        lists_matches(files, query, b),
    ensures
        a == b,
{
    let ahead = |i: usize, j: usize| stands_before(files, query, i, j);
    assert forall|i: usize, j: usize| #[trigger] ahead(i, j) implies !ahead(j, i) by {
        lemma_text_order(files[i as int].label@, files[j as int].label@);
    }
    assert forall|m: int, n: int| 0 <= m < n < a.len() implies ahead(
        #[trigger] a[m],
        #[trigger] a[n],
    ) by {}
    assert forall|m: int, n: int| 0 <= m < n < b.len() implies ahead(
        #[trigger] b[m],
        #[trigger] b[n],
    ) by {}
    lemma_order_is_unique(ahead, a, b);
}

/// The label of a file below `root`: its path from there, with slashes.
pub open spec fn label_of(root: &Path, path: PathBuf) -> Seq<char> {
    let shown = match relative_path(path_of(path), root) {
        Some(relative) => lossy_text(path_of(relative)),
        None => lossy_text(path_of(path)),
    };
    replaced(shown, '\\', '/')
}

/// A file of the index.
pub fn quick_file(root: &Path, path: PathBuf) -> (r: QuickFile)
    ensures
        r.path == path,
        r.label@ == label_of(root, path),
        r.label_lower@ == lowered(label_of(root, path)),
{
    let shown = match strip_prefix(as_path(&path), root) {
        Some(relative) => show_lossy(as_path(&relative)),
        None => show_lossy(as_path(&path)),
    };
    let label = replace_char(shown.as_str(), '\\', '/');
    let label_lower = to_lower(label.as_str());
    QuickFile { path, label, label_lower }
}

/// Whether a directory entry is left out of the index with all below it: the repository's own
/// data.
pub fn skips_entry(name: &str) -> (r: bool)
    ensures
        r == (name@ == ".git"@),
{
    same_text(name, ".git")
}

/// The files that were found so far.
#[derive(Debug)]
pub struct QuickCollector {
    pub files: Vec<QuickFile>,
    pub truncated: bool,
}

/// The positions of files in the order of their labels in small letters, those of one label in
/// the order in which they were found.
pub open spec fn label_order(files: Seq<QuickFile>, order: Seq<usize>) -> bool {
    &&& forall|p: usize| #[trigger] order.contains(p) <==> p < files.len()
    &&& forall|a: int, b: int|
        0 <= a < b < order.len() ==> label_before(files, #[trigger] order[a], #[trigger] order[b])
}

/// A file stands before another in the index.
pub open spec fn label_before(files: Seq<QuickFile>, i: usize, j: usize) -> bool {
    let (a, b) = (files[i as int].label_lower@, files[j as int].label_lower@);
    text_less(a, b) || (a == b && i < j)
}

impl QuickCollector {
    /// Nothing found yet.
    pub fn new() -> (r: QuickCollector)
        ensures
            r.files@ == Seq::<QuickFile>::empty(),
            !r.truncated,
    {
        QuickCollector { files: Vec::new(), truncated: false }
    }

    /// Takes one more entry of the walk: a file is indexed, anything else is passed over. The
    /// walk ends, and the index is marked as cut off, when `limit` files are there.
    pub fn push(&mut self, root: &Path, path: PathBuf, is_file: bool, limit: usize) -> (done: bool)
        ensures
            !is_file ==> *final(self) == *old(self) && !done,
            is_file ==> final(self).files@.len() == old(self).files@.len() + 1
                && final(self).files@.drop_last() == old(self).files@
                && final(self).files@.last().path == path
                && final(self).files@.last().label@ == label_of(root, path)
                && final(self).files@.last().label_lower@ == lowered(label_of(root, path)),
            is_file ==> done == (final(self).files@.len() >= limit),
            is_file ==> final(self).truncated == (old(self).truncated || done),
    {
        if !is_file {
            return false;
        }
        let ghost before = self.files@;
        self.files.push(quick_file(root, path));
        assert(self.files@.drop_last() =~= before);
        if self.files.len() >= limit {
            self.truncated = true;
            return true;
        }
        false
    }

    /// The index, in the order of the labels.
    pub fn finish(self) -> (r: (Vec<QuickFile>, bool))
        ensures
            r.1 == self.truncated,
            exists|order: Seq<usize>|
                label_order(self.files@, order) && r.0@.len() == order.len() && forall|k: int|
                    0 <= k < order.len() ==> #[trigger] r.0@[k] == self.files@[order[k] as int],
    {
        let files = self.files;
        let mut ranks: Vec<Rank> = Vec::new();
        let mut positions: Vec<usize> = Vec::new();
        for i in 0..files.len()
            invariant
                files@ == self.files@,
                ranks@.len() == i,
                positions@ == all_positions(i as nat),
                forall|k: int|
                    0 <= k < i ==> (#[trigger] ranks@[k]).score == 0 && ranks@[k].bytes == 0
                        && ranks@[k].label@ == files@[k].label_lower@,
        {
            ranks.push(Rank { score: 0, bytes: 0, label: files[i].label_lower.clone() });
            positions.push(i);
            assert(positions@ =~= all_positions((i + 1) as nat));
        }
        let order = sort_positions(&ranks, &positions);
        proof {
            assert forall|p: usize| #[trigger] order@.contains(p) <==> p < files@.len() by {
                if p < files@.len() {
                    assert(positions@[p as int] == p);
                }
            }
            assert forall|a: int, b: int| 0 <= a < b < order@.len() implies label_before(
                files@,
                #[trigger] order@[a],
                #[trigger] order@[b],
            ) by {
                assert(before(ranks@, order@[a], order@[b]));
                assert(order@.contains(order@[a]) && order@.contains(order@[b]));
            }
            assert(label_order(files@, order@));
        }
        let mut out: Vec<QuickFile> = Vec::new();
        for k in 0..order.len()
            invariant
                files@ == self.files@,
                label_order(files@, order@),
                out@.len() == k,
                forall|m: int| 0 <= m < k ==> #[trigger] out@[m] == files@[order@[m] as int],
        {
            proof {
                assert(order@.contains(order@[k as int]));
            }
            let file = &files[order[k]];
            out.push(
                QuickFile {
                    path: file.path.clone(),
                    label: file.label.clone(),
                    label_lower: file.label_lower.clone(),
                },
            );
        }
        (out, self.truncated)
    }
}

} // verus!
