//! Turning two full-text snapshots into "delete N graphemes, then type X".
use unicode_segmentation::UnicodeSegmentation;
use vstd::prelude::*;
use vstd::seq_lib::lemma_flatten_concat;

verus! {

/// The extended grapheme clusters of a text, as computed by
/// `unicode_segmentation`.
pub uninterp spec fn spec_graphemes(text: Seq<char>) -> Seq<Seq<char>>;

/// The character sequences held by a vector of strings.
pub open spec fn string_views(strings: Seq<String>) -> Seq<Seq<char>> {
    strings.map_values(|s: String| s@)
}

/// Length of the longest common prefix of two sequences.
pub open spec fn common_prefix_len<A>(a: Seq<A>, b: Seq<A>) -> nat
    decreases a.len(),
{
    if a.len() == 0 || b.len() == 0 || a[0] != b[0] {
        0
    } else {
        1 + common_prefix_len(a.drop_first(), b.drop_first())
    }
}

/// `k` is the end of the longest common prefix of `a` and `b`.
pub open spec fn is_longest_common_prefix<A>(a: Seq<A>, b: Seq<A>, k: int) -> bool {
    &&& 0 <= k <= a.len()
    &&& k <= b.len()
    &&& forall|i: int| 0 <= i < k ==> a[i] == b[i]
    &&& (k < a.len() && k < b.len() ==> a[k] != b[k])
}

pub proof fn lemma_common_prefix_len<A>(a: Seq<A>, b: Seq<A>)
    ensures
        is_longest_common_prefix(a, b, common_prefix_len(a, b) as int),
    decreases a.len(),
{
    if !(a.len() == 0 || b.len() == 0 || a[0] != b[0]) {
        lemma_common_prefix_len(a.drop_first(), b.drop_first());
        let k = common_prefix_len(a.drop_first(), b.drop_first()) as int;
        assert forall|i: int| 0 <= i < k + 1 implies a[i] == b[i] by {
            if i > 0 {
                assert(a[i] == a.drop_first()[i - 1]);
                assert(b[i] == b.drop_first()[i - 1]);
            }
        }
        if k + 1 < a.len() && k + 1 < b.len() {
            assert(a[k + 1] == a.drop_first()[k]);
            assert(b[k + 1] == b.drop_first()[k]);
        }
    }
}

/// The longest common prefix has exactly one end.
pub proof fn lemma_common_prefix_unique<A>(a: Seq<A>, b: Seq<A>, k: int)
    requires
        is_longest_common_prefix(a, b, k),
    ensures
        k == common_prefix_len(a, b),
{
    lemma_common_prefix_len(a, b);
    let c = common_prefix_len(a, b) as int;
    if k < c {
        assert(a[k] == b[k]);
    } else if c < k {
        assert(a[c] == b[c]);
    }
}

/// What `plan_transition` computes: the graphemes of `previous` that follow
/// the longest common grapheme prefix are deleted, and the graphemes of
/// `current` that follow it are typed.
pub open spec fn spec_backspaces(previous: Seq<char>, current: Seq<char>) -> nat {
    (spec_graphemes(previous).len() - common_prefix_len(
        spec_graphemes(previous),
        spec_graphemes(current),
    )) as nat
}

pub open spec fn spec_insert(previous: Seq<char>, current: Seq<char>) -> Seq<char> {
    let cg = spec_graphemes(current);
    cg.skip(common_prefix_len(spec_graphemes(previous), cg) as int).flatten()
}

/// The text left after deleting `backspaces` trailing graphemes of `text`
/// and typing `insert`.
pub open spec fn apply_edit(text: Seq<char>, backspaces: nat, insert: Seq<char>) -> Seq<char> {
    let g = spec_graphemes(text);
    g.take(g.len() - backspaces).flatten() + insert
}

/// Calls `UnicodeSegmentation::graphemes(text, true)` and collects the
/// clusters. The contract names the result `spec_graphemes(text)` and states
/// two facts the crate's iterator gives: the clusters are consecutive,
/// non-empty slices that cover the whole text.
#[verifier::external_body]
fn graphemes(text: &str) -> (clusters: Vec<String>)
    ensures
        string_views(clusters@) == spec_graphemes(text@),
        string_views(clusters@).flatten() == text@,
        forall|i: int| 0 <= i < clusters@.len() ==> clusters@[i]@.len() > 0,
{
    text.graphemes(true).map(|cluster| cluster.to_owned()).collect()
}

/// The edit that turns what was typed into the new snapshot.
#[derive(Debug, Clone, PartialEq, Eq)]
pub struct Transition {
    pub backspaces: usize,
    pub insert: String,
}

/// The edit between two texts given as grapheme clusters: delete the
/// clusters of `previous` after the longest common cluster prefix, then type
/// the clusters of `current` that follow it.
pub fn transition_of_clusters(previous: &Vec<String>, current: &Vec<String>) -> (transition: Transition)
    ensures
        transition.backspaces == previous@.len() - common_prefix_len(
            string_views(previous@),
            string_views(current@),
        ),
        transition.insert@ == string_views(current@).skip(
            common_prefix_len(string_views(previous@), string_views(current@)) as int,
        ).flatten(),
{
    let ghost pg = string_views(previous@);
    let ghost cg = string_views(current@);
    let mut common: usize = 0;
    while common < previous.len() && common < current.len() && previous[common] == current[common]
        invariant
            pg == string_views(previous@),
            cg == string_views(current@),
            common <= previous.len(),
            common <= current.len(),
            forall|i: int| 0 <= i < common ==> pg[i] == cg[i],
        decreases previous.len() - common,
    {
        common += 1;
    }
    proof {
        lemma_common_prefix_unique(pg, cg, common as int);
    }
    let mut insert = String::new();
    let mut index = common;
    while index < current.len()
        invariant
            cg == string_views(current@),
            common <= index <= current.len(),
            insert@ == cg.subrange(common as int, index as int).flatten(),
        decreases current.len() - index,
    {
        proof {
            assert(cg.subrange(common as int, index + 1) =~= cg.subrange(
                common as int,
                index as int,
            ).push(cg[index as int]));
            cg.subrange(common as int, index as int).lemma_flatten_push(cg[index as int]);
        }
        insert.append(current[index].as_str());
        index += 1;
    }
    proof {
        assert(cg.subrange(common as int, cg.len() as int) =~= cg.skip(common as int));
    }
    Transition { backspaces: previous.len() - common, insert }
}

/// Plans the keystrokes that turn `previous` into `current`: delete the
/// graphemes after their longest common grapheme prefix, then type the rest
/// of `current`.
pub fn plan_transition(previous: &str, current: &str) -> (transition: Transition)
    ensures
        transition.backspaces == spec_backspaces(previous@, current@),
        transition.insert@ == spec_insert(previous@, current@),
        apply_edit(previous@, transition.backspaces as nat, transition.insert@) == current@,
{
    let previous_graphemes = graphemes(previous);
    let current_graphemes = graphemes(current);
    let transition = transition_of_clusters(&previous_graphemes, &current_graphemes);
    proof {
        lemma_transition_reaches_current(previous@, current@);
    }
    transition
}

/// Keeping the common grapheme prefix of `previous` and typing the rest of
/// `current` yields `current`, for texts that their clusters cover.
proof fn lemma_transition_reaches_current(previous: Seq<char>, current: Seq<char>)
    requires
        spec_graphemes(previous).flatten() == previous,
        spec_graphemes(current).flatten() == current,
    ensures
        apply_edit(previous, spec_backspaces(previous, current), spec_insert(previous, current))
            == current,
{
    let pg = spec_graphemes(previous);
    let cg = spec_graphemes(current);
    let k = common_prefix_len(pg, cg) as int;
    lemma_common_prefix_len(pg, cg);
    assert(pg.take(pg.len() - spec_backspaces(previous, current)) =~= cg.take(k));
    lemma_flatten_concat(cg.take(k), cg.skip(k));
    assert(cg.take(k) + cg.skip(k) =~= cg);
}

/// An unchanged snapshot needs no keystrokes.
pub proof fn law_unchanged_text_needs_no_edit(text: Seq<char>)
    ensures
        spec_backspaces(text, text) == 0,
        spec_insert(text, text) == Seq::<char>::empty(),
{
    let g = spec_graphemes(text);
    lemma_common_prefix_len(g, g);
    lemma_common_prefix_unique(g, g, g.len() as int);
    assert(g.skip(g.len() as int) =~= Seq::<Seq<char>>::empty());
}

} // verus!
