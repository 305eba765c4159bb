//! The rendered preview and how its parts are put together.
use vstd::prelude::*;
use crate::context::lines_view;

verus! {

/// Highlight spans of one line: `(byte offset, length, group)`.
pub type LineHighlights = Vec<(usize, usize, String)>;

/// Spans per preview line: `(line number in the preview, spans)`.
pub type Highlights = Vec<(usize, LineHighlights)>;

/// What the host's own highlighter is told: a syntax name, or failing that a
/// file name for it to infer the syntax from.
#[derive(Debug, Clone, PartialEq, Eq)]
pub struct VimSyntaxInfo {
    pub syntax: String,
    pub fname: String,
}

impl VimSyntaxInfo {
    /// Neither a syntax name nor a file name.
    pub fn empty() -> (r: Self)
        ensures
            r.syntax@.len() == 0,
            r.fname@.len() == 0,
    {
        VimSyntaxInfo { syntax: String::new(), fname: String::new() }
    }

    /// A syntax name alone.
    pub fn syntax(syntax: String) -> (r: Self)
        ensures
            r.syntax@ == syntax@,
            r.fname@.len() == 0,
    {
        VimSyntaxInfo { syntax, fname: String::new() }
    }

    /// A file name alone.
    pub fn fname(fname: String) -> (r: Self)
        ensures
            r.syntax@.len() == 0,
            r.fname@ == fname@,
    {
        VimSyntaxInfo { syntax: String::new(), fname }
    }

    pub fn is_empty(&self) -> (r: bool)
        ensures
            r == (self.syntax@.len() == 0 && self.fname@.len() == 0),
    {
        self.syntax.as_str().is_empty() && self.fname.as_str().is_empty()
    }
}

/// Preview content.
#[derive(Debug, Clone, PartialEq, Eq)]
pub struct Preview {
    pub lines: Vec<String>,
    /// The syntax the host should apply when neither engine produced spans.
    pub vim_syntax_info: VimSyntaxInfo,
    /// Spans from the grammar engine.
    pub sublime_syntax_highlights: Highlights,
    /// Spans from the incremental-parser engine.
    pub tree_sitter_highlights: Highlights,
    /// 1-based line of `lines` to emphasise.
    pub hi_lnum: Option<usize>,
    /// `(top_position, thumb_length)` in display rows.
    pub scrollbar: Option<(usize, usize)>,
}

/// The outcome of highlighting: spans of exactly one engine, or none.
#[derive(Debug, Clone, PartialEq, Eq)]
pub enum HighlightOutcome {
    Sublime(Highlights),
    TreeSitter(Highlights),
    Neither,
}

impl Preview {
    /// At most one of the syntax name and the file name is set, at most one
    /// engine's spans are present, and a hint is given only without spans.
    pub open spec fn wf(&self) -> bool {
        &&& !(self.vim_syntax_info.syntax@.len() > 0 && self.vim_syntax_info.fname@.len() > 0)
        &&& !(self.sublime_syntax_highlights@.len() > 0 && self.tree_sitter_highlights@.len() > 0)
        &&& (self.sublime_syntax_highlights@.len() > 0 || self.tree_sitter_highlights@.len() > 0)
            ==> self.vim_syntax_info.syntax@.len() == 0 && self.vim_syntax_info.fname@.len() == 0
    }

    pub open spec fn lines_view(&self) -> Seq<Seq<char>> {
        lines_view(self.lines@)
    }

    /// Nothing but the lines.
    pub open spec fn is_plain(&self) -> bool {
        &&& self.vim_syntax_info.syntax@.len() == 0
        &&& self.vim_syntax_info.fname@.len() == 0
        &&& self.sublime_syntax_highlights@.len() == 0
        &&& self.tree_sitter_highlights@.len() == 0
        &&& self.hi_lnum is None
        &&& self.scrollbar is None
    }

    /// A preview of the given lines and nothing else.
    pub fn new(lines: Vec<String>) -> (r: Self)
        ensures
            r.lines@ == lines@,
            r.is_plain(),
            r.wf(),
    {
        Preview {
            lines,
            vim_syntax_info: VimSyntaxInfo::empty(),
            sublime_syntax_highlights: Vec::new(),
            tree_sitter_highlights: Vec::new(),
            hi_lnum: None,
            scrollbar: None,
        }
    }

    /// A preview of a file's first lines, with its scrollbar and syntax hint.
    pub fn new_file_preview(
        lines: Vec<String>,
        scrollbar: Option<(usize, usize)>,
        vim_syntax_info: VimSyntaxInfo,
    ) -> (r: Self)
        requires
            !(vim_syntax_info.syntax@.len() > 0 && vim_syntax_info.fname@.len() > 0),
        ensures
            r.lines@ == lines@,
            r.scrollbar == scrollbar,
            r.vim_syntax_info == vim_syntax_info,
            r.sublime_syntax_highlights@.len() == 0,
            r.tree_sitter_highlights@.len() == 0,
            r.hi_lnum is None,
            r.wf(),
    {
        Preview {
            lines,
            vim_syntax_info,
            sublime_syntax_highlights: Vec::new(),
            tree_sitter_highlights: Vec::new(),
            hi_lnum: None,
            scrollbar,
        }
    }

    /// Attaches the spans of whichever engine produced them; with neither,
    /// the syntax name when one is known, else the file name.
    pub fn attach_highlights(
        &mut self,
        outcome: HighlightOutcome,
        syntax: Option<String>,
        fname: String,
    )
        requires
            old(self).sublime_syntax_highlights@.len() == 0,
            old(self).tree_sitter_highlights@.len() == 0,
            old(self).vim_syntax_info.syntax@.len() == 0,
            old(self).vim_syntax_info.fname@.len() == 0,
        ensures
            final(self).lines == old(self).lines,
            final(self).hi_lnum == old(self).hi_lnum,
            final(self).scrollbar == old(self).scrollbar,
            final(self).wf(),
            match outcome {
                HighlightOutcome::Sublime(v) => final(self).sublime_syntax_highlights == v
                    && final(self).tree_sitter_highlights@.len() == 0
                    && final(self).vim_syntax_info.syntax@.len() == 0
                    && final(self).vim_syntax_info.fname@.len() == 0,
                HighlightOutcome::TreeSitter(v) => final(self).tree_sitter_highlights == v
                    && final(self).sublime_syntax_highlights@.len() == 0
                    && final(self).vim_syntax_info.syntax@.len() == 0
                    && final(self).vim_syntax_info.fname@.len() == 0,
                HighlightOutcome::Neither => final(self).sublime_syntax_highlights@.len() == 0
                    && final(self).tree_sitter_highlights@.len() == 0 && match syntax {
                    Some(s) if s@.len() > 0 => final(self).vim_syntax_info.syntax@ == s@
                        && final(self).vim_syntax_info.fname@.len() == 0,
                    _ => final(self).vim_syntax_info.syntax@.len() == 0
                        && final(self).vim_syntax_info.fname@ == fname@,
                },
            },
    {
        match outcome {
            HighlightOutcome::Sublime(v) => {
                self.sublime_syntax_highlights = v;
            },
            HighlightOutcome::TreeSitter(v) => {
                self.tree_sitter_highlights = v;
            },
            HighlightOutcome::Neither => {
                match syntax {
                    Some(s) => {
                        if s.as_str().is_empty() {
                            self.vim_syntax_info = VimSyntaxInfo::fname(fname);
                        } else {
                            self.vim_syntax_info = VimSyntaxInfo::syntax(s);
                        }
                    },
                    None => {
                        self.vim_syntax_info = VimSyntaxInfo::fname(fname);
                    },
                }
            },
        }
    }
}

} // verus!
