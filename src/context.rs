//! The context block: the enclosing definition shown above an excerpt.
use vstd::prelude::*;
use crate::text::{byte_len, chars_of, fitting_count, push_char, push_chars, text_eq};

verus! {

/// Extensions of files for which no context block is looked up.
pub open spec fn denied_extension(ext: Seq<char>) -> bool {
    ext == "log"@ || ext == "txt"@ || ext == "lock"@ || ext == "toml"@ || ext == "yaml"@
        || ext == "mod"@ || ext == "conf"@
}

/// The enclosing definition of a line, as a tag index reports it.
#[derive(Debug, Clone, PartialEq, Eq)]
pub struct ContextTag {
    /// 1-based line on which the definition starts.
    pub line_number: usize,
    /// The definition's source text, trimmed.
    pub pattern: String,
}

/// Whether the extension is one for which no context block is looked up.
pub fn is_denied_extension(ext: &str) -> (r: bool)
    ensures
        r == denied_extension(ext@),
{
    text_eq(ext, "log") || text_eq(ext, "txt") || text_eq(ext, "lock") || text_eq(ext, "toml")
        || text_eq(ext, "yaml") || text_eq(ext, "mod") || text_eq(ext, "conf")
}

/// Whether a context block is to be looked up for an excerpt: the highlighted
/// line exists, the file has an extension outside the deny-list, and that line
/// is not a comment.
pub fn needs_context_lookup(
    has_highlighted_line: bool,
    ext: Option<&str>,
    highlighted_is_comment: bool,
) -> (r: bool)
    ensures
        r == (has_highlighted_line && ext is Some && !denied_extension(ext->0@)
            && !highlighted_is_comment),
{
    match ext {
        Some(e) => has_highlighted_line && !is_denied_extension(e) && !highlighted_is_comment,
        None => false,
    }
}

pub open spec fn rule_char() -> char {
    '─'
}

/// Width of the horizontal rule: the host's own border takes two columns in Vim.
pub open spec fn border_width(container_width: nat, is_nvim: bool) -> nat {
    if is_nvim {
        container_width
    } else if container_width >= 2 {
        (container_width - 2) as nat
    } else {
        0
    }
}

pub open spec fn spec_border_line(container_width: nat, is_nvim: bool) -> Seq<char> {
    Seq::new(border_width(container_width, is_nvim), |_i: int| rule_char())
}

/// The horizontal rule framing the context block.
pub fn border_line(container_width: usize, is_nvim: bool) -> (r: String)
    ensures
        r@ == spec_border_line(container_width as nat, is_nvim),
{
    let n: usize = if is_nvim {
        container_width
    } else if container_width >= 2 {
        container_width - 2
    } else {
        0
    };
    let mut s = String::new();
    let mut i: usize = 0;
    while i < n
        invariant
            i <= n,
            n as nat == border_width(container_width as nat, is_nvim),
            s@ == Seq::new(i as nat, |_j: int| rule_char()),
        decreases n - i,
    {
        push_char(&mut s, '─');
        i = i + 1;
        assert(s@ =~= Seq::new(i as nat, |_j: int| rule_char()));
    }
    s
}

pub open spec fn marker() -> Seq<char> {
    seq![' ', ' ', '💡']
}

pub open spec fn cut_marker() -> Seq<char> {
    seq!['.', '.', ' ', ' ', '💡']
}

pub open spec fn sat_sub(a: nat, b: nat) -> nat {
    if a >= b {
        (a - b) as nat
    } else {
        0
    }
}

/// The middle line of the context block: the pattern when it fits in
/// `container_width - 4` bytes, else its first `container_width - 10`
/// characters and a cut marker.
pub open spec fn spec_pattern_line(pattern: Seq<char>, container_width: nat) -> Seq<char> {
    let max = sat_sub(container_width, 4);
    if byte_len(pattern) <= max {
        pattern + marker()
    } else {
        let n = sat_sub(max, 6);
        pattern.take(if n < pattern.len() { n as int } else { pattern.len() as int }) + cut_marker()
    }
}

pub fn pattern_line(pattern: &str, container_width: usize) -> (r: String)
    ensures
        r@ == spec_pattern_line(pattern@, container_width as nat),
{
    let max: usize = if container_width >= 4 { container_width - 4 } else { 0 };
    let cs = chars_of(pattern);
    let k = fitting_count(&cs, max);
    let mut out = String::new();
    if k == cs.len() {
        assert(cs@.take(k as int) =~= pattern@);
        push_chars(&mut out, cs.as_slice());
        push_char(&mut out, ' ');
        push_char(&mut out, ' ');
        push_char(&mut out, '💡');
        assert(out@ =~= pattern@ + marker());
    } else {
        proof {
            crate::text::lemma_prefix_monotone(pattern@, k as int + 1, pattern@.len() as int);
            assert(pattern@.take(pattern@.len() as int) =~= pattern@);
        }
        let n: usize = if max >= 6 { max - 6 } else { 0 };
        let t: usize = if n < cs.len() { n } else { cs.len() };
        push_chars(&mut out, vstd::slice::slice_subrange(cs.as_slice(), 0, t));
        push_char(&mut out, '.');
        push_char(&mut out, '.');
        push_char(&mut out, ' ');
        push_char(&mut out, ' ');
        push_char(&mut out, '💡');
        assert(out@ =~= pattern@.take(t as int) + cut_marker());
    }
    out
}

/// The context block for an excerpt starting at line `start`: a rule, the
/// definition's pattern line and a rule, when a definition was found that
/// starts above the excerpt; nothing otherwise.
pub open spec fn spec_context_block(
    tag: Option<(nat, Seq<char>)>,
    start: nat,
    container_width: nat,
    is_nvim: bool,
) -> Seq<Seq<char>> {
    match tag {
        Some((line, pattern)) if line < start => seq![
            spec_border_line(container_width, is_nvim),
            spec_pattern_line(pattern, container_width),
            spec_border_line(container_width, is_nvim),
        ],
        _ => Seq::empty(),
    }
}

pub open spec fn tag_view(tag: Option<ContextTag>) -> Option<(nat, Seq<char>)> {
    match tag {
        Some(t) => Some((t.line_number as nat, t.pattern@)),
        None => None,
    }
}

pub open spec fn lines_view(v: Seq<String>) -> Seq<Seq<char>> {
    v.map_values(|s: String| s@)
}

pub fn context_block(tag: Option<ContextTag>, start: usize, container_width: usize, is_nvim: bool) -> (r: Vec<String>)
    ensures
        lines_view(r@) == spec_context_block(tag_view(tag), start as nat, container_width as nat, is_nvim),
{
    let mut out: Vec<String> = Vec::new();
    match tag {
        Some(t) => {
            if t.line_number < start {
                let b1 = border_line(container_width, is_nvim);
                let b2 = border_line(container_width, is_nvim);
                let p = pattern_line(t.pattern.as_str(), container_width);
                out.push(b1);
                out.push(p);
                out.push(b2);
            }
        },
        None => {},
    }
    assert(lines_view(out@) =~= spec_context_block(tag_view(tag), start as nat, container_width as nat, is_nvim));
    out
}

/// The pattern line never runs wider than the container, counted in
/// characters, once the container can hold the cut marker.
pub proof fn lemma_pattern_line_fits(pattern: Seq<char>, container_width: nat)
    requires
        container_width >= 5,
    ensures
        spec_pattern_line(pattern, container_width).len() <= container_width,
{
    crate::text::lemma_chars_le_bytes(pattern);
}

} // verus!
