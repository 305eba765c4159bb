//! Choosing a highlight engine and bringing its spans into the preview's
//! coordinates.
use vstd::prelude::*;
use crate::preview::{HighlightOutcome, Highlights, LineHighlights};
use crate::text::{fitting_prefix, is_fitting_prefix};

verus! {

/// The highlighter configured for previews.
#[derive(PartialEq, Eq, Structural, Clone, Copy, Debug)]
pub enum HighlightEngine {
    /// Grammar-based spans computed over the preview window.
    SublimeSyntax,
    /// Spans from a parse of the whole file.
    TreeSitter,
    /// No spans: the host highlights by itself.
    Vim,
}

pub open spec fn default_theme() -> Seq<char> {
    "Visual Studio Dark+"@
}

/// The grammar engine's theme: the configured one where it exists, else the
/// built-in default.
pub fn select_theme(configured: Option<&str>, configured_exists: bool) -> (r: String)
    ensures
        r@ == match configured {
            Some(t) if configured_exists => t@,
            _ => default_theme(),
        },
{
    match configured {
        Some(t) => if configured_exists {
            t.to_owned()
        } else {
            String::from_str("Visual Studio Dark+")
        },
        None => String::from_str("Visual Studio Dark+"),
    }
}

/// The lines handed to the grammar engine: each cut to its longest prefix
/// that fits in `max` bytes, so that a long line does not flood the host with
/// spans.
pub fn grammar_input_lines(lines: &Vec<String>, max: usize) -> (r: Vec<String>)
    ensures
        r@.len() == lines@.len(),
        forall|j: int| 0 <= j < r@.len() ==> is_fitting_prefix(#[trigger] r@[j]@, lines@[j]@, max as nat),
{
    let mut out: Vec<String> = Vec::new();
    let mut i: usize = 0;
    while i < lines.len()
        invariant
            i <= lines@.len(),
            out@.len() == i,
            forall|j: int| 0 <= j < i ==> is_fitting_prefix(#[trigger] out@[j]@, lines@[j]@, max as nat),
        decreases lines@.len() - i,
    {
        out.push(fitting_prefix(lines[i].as_str(), max));
        i = i + 1;
    }
    out
}

/// A span ends within `max` bytes.
pub open spec fn span_fits(span: (usize, usize, String), max: nat) -> bool {
    span.0 + span.1 <= max
}

/// The spans that end within `max` bytes, in order.
pub open spec fn fitting_spans(spans: Seq<(usize, usize, String)>, max: nat) -> Seq<
    (usize, usize, String),
>
    decreases spans.len(),
{
    if spans.len() == 0 {
        spans
    } else {
        (if span_fits(spans[0], max) {
            seq![spans[0]]
        } else {
            Seq::empty()
        }) + fitting_spans(spans.drop_first(), max)
    }
}

/// The parser's lines in the preview: those whose 0-based line number lies in
/// `range_start..range_end`, renumbered from the window's start, below the
/// header line and the context block, each keeping the spans that fit.
pub open spec fn projected(
    raw: Seq<(usize, LineHighlights)>,
    range_start: nat,
    range_end: nat,
    max: nat,
    context_lines: nat,
) -> Seq<(nat, Seq<(usize, usize, String)>)>
    decreases raw.len(),
{
    if raw.len() == 0 {
        Seq::empty()
    } else {
        let line = raw[0].0 as nat;
        (if range_start <= line && line < range_end {
            seq![((line - range_start + 1 + context_lines) as nat, fitting_spans(raw[0].1@, max))]
        } else {
            Seq::empty()
        }) + projected(raw.drop_first(), range_start, range_end, max, context_lines)
    }
}

pub open spec fn highlights_view(h: Seq<(usize, LineHighlights)>) -> Seq<
    (nat, Seq<(usize, usize, String)>),
> {
    h.map_values(|e: (usize, LineHighlights)| (e.0 as nat, e.1@))
}

fn keep_fitting(spans: LineHighlights, max: usize) -> (r: LineHighlights)
    ensures
        r@ == fitting_spans(spans@, max as nat),
{
    let ghost orig = spans@;
    let mut rest = spans;
    let mut out: LineHighlights = Vec::new();
    assert(orig.skip(0) =~= orig);
    while rest.len() > 0
        invariant
            out@ + fitting_spans(rest@, max as nat) == fitting_spans(orig, max as nat),
        decreases rest@.len(),
    {
        let ghost before = rest@;
        let span = rest.remove(0);
        assert(rest@ =~= before.drop_first());
        let fits = span.1 <= max && span.0 <= max - span.1;
        if fits {
            out.push(span);
        }
        assert(out@ + fitting_spans(rest@, max as nat) =~= fitting_spans(orig, max as nat));
    }
    assert(out@ + fitting_spans(rest@, max as nat) =~= out@);
    out
}

/// Brings the parser's spans, numbered by the file's 0-based lines, into the
/// preview of lines `range_start..range_end`.
pub fn project_parser_highlights(
    raw: Highlights,
    range_start: usize,
    range_end: usize,
    max_line_width: usize,
    context_lines: usize,
) -> (r: Highlights)
    requires
        range_end + 1 + context_lines <= usize::MAX,
    ensures
        highlights_view(r@) == projected(
            raw@,
            range_start as nat,
            range_end as nat,
            max_line_width as nat,
            context_lines as nat,
        ),
{
    let ghost orig = raw@;
    let mut rest = raw;
    let mut out: Highlights = Vec::new();
    while rest.len() > 0
        invariant
            range_end + 1 + context_lines <= usize::MAX,
            highlights_view(out@) + projected(
                rest@,
                range_start as nat,
                range_end as nat,
                max_line_width as nat,
                context_lines as nat,
            ) == projected(orig, range_start as nat, range_end as nat, max_line_width as nat, context_lines as nat),
        decreases rest@.len(),
    {
        let ghost before = rest@;
        let (line, spans) = rest.remove(0);
        assert(rest@ =~= before.drop_first());
        let ghost prev = out@;
        if range_start <= line && line < range_end {
            let kept = keep_fitting(spans, max_line_width);
            out.push((line - range_start + 1 + context_lines, kept));
            assert(highlights_view(out@) =~= highlights_view(prev) + seq![
                ((line - range_start + 1 + context_lines) as nat, fitting_spans(before[0].1@, max_line_width as nat)),
            ]);
        }
        assert(highlights_view(out@) + projected(
            rest@,
            range_start as nat,
            range_end as nat,
            max_line_width as nat,
            context_lines as nat,
        ) =~= projected(orig, range_start as nat, range_end as nat, max_line_width as nat, context_lines as nat));
    }
    assert(highlights_view(out@) + projected(
        rest@,
        range_start as nat,
        range_end as nat,
        max_line_width as nat,
        context_lines as nat,
    ) =~= highlights_view(out@));
    out
}

/// The spans a preview carries: only the configured engine's, and only when
/// that engine knew the file's language. `sublime` is the grammar engine's
/// output and `tree_sitter` the parser's raw spans by file line, `None` where
/// the engine had no grammar for the file or could not read it.
pub fn select_highlights(
    engine: HighlightEngine,
    sublime: Option<Highlights>,
    tree_sitter: Option<Highlights>,
    range_start: usize,
    range_end: usize,
    max_line_width: usize,
    context_lines: usize,
) -> (r: HighlightOutcome)
    requires
        range_end + 1 + context_lines <= usize::MAX,
    ensures
        match engine {
            HighlightEngine::SublimeSyntax => match sublime {
                Some(v) => r == HighlightOutcome::Sublime(v),
                None => r is Neither,
            },
            HighlightEngine::TreeSitter => match tree_sitter {
                Some(raw) => r matches HighlightOutcome::TreeSitter(v) && highlights_view(v@)
                    == projected(
                    raw@,
                    range_start as nat,
                    range_end as nat,
                    max_line_width as nat,
                    context_lines as nat,
                ),
                None => r is Neither,
            },
            HighlightEngine::Vim => r is Neither,
        },
{
    match engine {
        HighlightEngine::SublimeSyntax => match sublime {
            Some(v) => HighlightOutcome::Sublime(v),
            None => HighlightOutcome::Neither,
        },
        HighlightEngine::TreeSitter => match tree_sitter {
            Some(raw) => HighlightOutcome::TreeSitter(
                project_parser_highlights(raw, range_start, range_end, max_line_width, context_lines),
            ),
            None => HighlightOutcome::Neither,
        },
        HighlightEngine::Vim => HighlightOutcome::Neither,
    }
}

} // verus!
