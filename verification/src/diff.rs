//! Highlighting of what a transformation changed, for the log.

use difference::Changeset;
use difference::Difference;
use vstd::prelude::*;
use vstd::string::StrSliceExecFns;
use vstd::string::StringExecFns;

verus! {

/// Escape sequence that starts an added passage (green).
pub const ADD_START: &'static str = "\x1b[32m";

/// Escape sequence that starts a removed passage (red).
pub const REM_START: &'static str = "\x1b[31m";

/// Escape sequence that ends a highlighted passage.
pub const HIGHLIGHT_END: &'static str = "\x1b[0m";

/// One passage of a change set.
#[derive(Clone, Debug)]
pub enum DiffChunk {
    /// A passage that both texts have.
    Same(String),
    /// A passage that only the second text has.
    Add(String),
    /// A passage that only the first text has.
    Rem(String),
}

/// A passage of a change set, as a mathematical value.
pub ghost enum ChunkView {
    Same(Seq<char>),
    Add(Seq<char>),
    Rem(Seq<char>),
}

impl View for DiffChunk {
    type V = ChunkView;

    open spec fn view(&self) -> ChunkView {
        match self {
            DiffChunk::Same(s) => ChunkView::Same(s@),
            DiffChunk::Add(s) => ChunkView::Add(s@),
            DiffChunk::Rem(s) => ChunkView::Rem(s@),
        }
    }
}

/// The passages of a list, each by its view.
pub open spec fn chunks_view(chunks: Seq<DiffChunk>) -> Seq<ChunkView> {
    Seq::new(chunks.len(), |i: int| chunks[i]@)
}

/// How one passage is shown: unchanged text plain, the rest between escape
/// sequences.
pub open spec fn render_chunk(chunk: ChunkView) -> Seq<char> {
    match chunk {
        ChunkView::Same(s) => s,
        ChunkView::Add(s) => ADD_START@ + s + HIGHLIGHT_END@,
        ChunkView::Rem(s) => REM_START@ + s + HIGHLIGHT_END@,
    }
}

/// How a change set is shown: its passages, each rendered, in order.
pub open spec fn render_chunks(chunks: Seq<ChunkView>) -> Seq<char>
    decreases chunks.len(),
{
    if chunks.len() == 0 {
        Seq::empty()
    } else {
        render_chunks(chunks.drop_last()) + render_chunk(chunks.last())
    }
}

/// The text that a change set leads from: its unchanged and its removed
/// passages, in order.
pub open spec fn text_before(chunks: Seq<ChunkView>) -> Seq<char>
    decreases chunks.len(),
{
    if chunks.len() == 0 {
        Seq::empty()
    } else {
        text_before(chunks.drop_last()) + match chunks.last() {
            ChunkView::Same(s) => s,
            ChunkView::Rem(s) => s,
            ChunkView::Add(_) => Seq::empty(),
        }
    }
}

/// The text that a change set leads to: its unchanged and its added passages,
/// in order.
pub open spec fn text_after(chunks: Seq<ChunkView>) -> Seq<char>
    decreases chunks.len(),
{
    if chunks.len() == 0 {
        Seq::empty()
    } else {
        text_after(chunks.drop_last()) + match chunks.last() {
            ChunkView::Same(s) => s,
            ChunkView::Add(s) => s,
            ChunkView::Rem(_) => Seq::empty(),
        }
    }
}

/// Whether the change set of two texts can be computed: the table that the
/// comparison fills, one machine word for each pair of characters, must be
/// within what a vector can hold.
pub open spec fn diffable(original: Seq<char>, formatted: Seq<char>) -> bool {
    original.len() * formatted.len() * 8 <= isize::MAX
}

/// The change set that leads from `original` to `formatted` when both are
/// split at `split`.
pub uninterp spec fn changeset_diffs(
    original: Seq<char>,
    formatted: Seq<char>,
    split: Seq<char>,
) -> Seq<ChunkView>;

/// `Changeset::new`, for a comparison character by character: the passages
/// of the change set that it computes, in its order. Its merge hands every
/// character of the first text to an unchanged or a removed passage and every
/// character of the second to an unchanged or an added one, in order, so the
/// passages make up both texts. The comparison fills a table of one word for
/// each pair of characters; inputs for which that table cannot be allocated
/// are left out.
#[verifier::external_body]
fn changeset(original: &str, formatted: &str, split: &str) -> (diffs: Vec<DiffChunk>)
    requires
        split@.len() == 0,
        diffable(original@, formatted@),
    ensures
        chunks_view(diffs@) == changeset_diffs(original@, formatted@, split@),
        text_before(chunks_view(diffs@)) == original@,
        text_after(chunks_view(diffs@)) == formatted@,
{
    Changeset::new(original, formatted, split).diffs.into_iter().map(
        |d| match d {
            Difference::Same(s) => DiffChunk::Same(s),
            Difference::Add(s) => DiffChunk::Add(s),
            Difference::Rem(s) => DiffChunk::Rem(s),
        },
    ).collect()
}

/// Renders a change set for a terminal: additions in green, removals in red.
pub fn render_changes(diffs: &[DiffChunk]) -> (highlighted: String)
    ensures
        highlighted@ == render_chunks(chunks_view(diffs@)),
{
    let mut highlighted = String::new();
    let mut i: usize = 0;
    assert(chunks_view(diffs@).take(0) =~= Seq::empty());
    while i < diffs.len()
        invariant
            i <= diffs.len(),
            highlighted@ == render_chunks(chunks_view(diffs@).take(i as int)),
        decreases diffs.len() - i,
    {
        let ghost done = chunks_view(diffs@).take(i as int);
        let ghost next = chunks_view(diffs@).take(i + 1);
        assert(next.drop_last() =~= done);
        assert(next.last() == diffs@[i as int]@);
        match &diffs[i] {
            DiffChunk::Same(s) => {
                highlighted.append(s.as_str());
            },
            DiffChunk::Add(s) => {
                highlighted.append(ADD_START);
                highlighted.append(s.as_str());
                highlighted.append(HIGHLIGHT_END);
            },
            DiffChunk::Rem(s) => {
                highlighted.append(REM_START);
                highlighted.append(s.as_str());
                highlighted.append(HIGHLIGHT_END);
            },
        }
        i += 1;
    }
    assert(chunks_view(diffs@).take(i as int) =~= chunks_view(diffs@));
    highlighted
}

/// Tests whether the change set of two texts can be computed.
pub fn can_diff(original: &str, formatted: &str) -> (possible: bool)
    ensures
        possible == diffable(original@, formatted@),
{
    let n = original.unicode_len();
    let m = formatted.unicode_len();
    let limit: usize = (isize::MAX as usize) / 8;
    if n == 0 {
        true
    } else {
        let per_row: usize = limit / n;
        proof {
            bound_by_quotient(n as int, m as int, limit as int);
        }
        m <= per_row
    }
}

/// For positive `n`: `n * m` stays within `limit` exactly when `m` stays
/// within `limit / n`.
proof fn bound_by_quotient(n: int, m: int, limit: int)
    requires
        n > 0,
        m >= 0,
        limit >= 0,
    ensures
        (m <= limit / n) <==> (n * m <= limit),
{
    vstd::arithmetic::div_mod::lemma_fundamental_div_mod(limit, n);
    vstd::arithmetic::div_mod::lemma_mod_bound(limit, n);
    let q = limit / n;
    if m <= q {
        assert(n * m <= n * q) by (nonlinear_arith)
            requires
                n > 0,
                m <= q,
        ;
    } else {
        assert(n * m >= n * (q + 1)) by (nonlinear_arith)
            requires
                n > 0,
                m >= q + 1,
        ;
        assert(n * (q + 1) == n * q + n) by (nonlinear_arith);
    }
}

/// Shows what changed between `original` and `formatted`, character by
/// character: unchanged passages plain, removed ones red, added ones green.
/// The passages shown make up both texts.
pub fn highlight_diff(original: &str, formatted: &str) -> (highlighted: String)
    requires
        diffable(original@, formatted@),
    ensures
        highlighted@ == render_chunks(changeset_diffs(original@, formatted@, Seq::empty())),
        text_before(changeset_diffs(original@, formatted@, Seq::empty())) == original@,
        text_after(changeset_diffs(original@, formatted@, Seq::empty())) == formatted@,
{
    let split = "";
    proof {
        reveal_strlit("");
        assert(split@ =~= Seq::empty());
    }
    let diffs = changeset(original, formatted, split);
    render_changes(diffs.as_slice())
}

/// `highlight_diff` where the change set can be computed, `None` where it
/// cannot.
pub fn try_highlight_diff(original: &str, formatted: &str) -> (highlighted: Option<String>)
    ensures
        diffable(original@, formatted@) ==> (highlighted matches Some(text) && text@
            == render_chunks(changeset_diffs(original@, formatted@, Seq::empty()))),
        diffable(original@, formatted@) ==> text_before(
            changeset_diffs(original@, formatted@, Seq::empty()),
        ) == original@ && text_after(changeset_diffs(original@, formatted@, Seq::empty()))
            == formatted@,
        !diffable(original@, formatted@) ==> highlighted is None,
{
    if can_diff(original, formatted) {
        Some(highlight_diff(original, formatted))
    } else {
        None
    }
}

} // verus!
