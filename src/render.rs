//! Assembling a preview from what was read for its target.
use vstd::prelude::*;
use crate::context::lines_view;
use crate::preview::{HighlightOutcome, Preview, VimSyntaxInfo};
use crate::scrollbar::{
    as_nat_pair, file_scrollbar, line_scrollbar, spec_file_scrollbar, spec_line_scrollbar,
};
use crate::target::cwd_relative_provider;
use crate::text::{
    chars_of, dec_chars, decimal, is_truncated_line, push_char, push_chars, replace_first,
    replace_first_occurrence, truncate_line,
};

verus! {

/// The widest a preview line may be, in bytes: twice the display width.
pub fn max_line_width(display_line_width: usize) -> (r: usize)
    ensures
        r as nat == if 2 * display_line_width <= usize::MAX {
            2 * display_line_width as nat
        } else {
            usize::MAX as nat
        },
{
    if display_line_width <= usize::MAX / 2 {
        2 * display_line_width
    } else {
        usize::MAX
    }
}

/// Whether the header shows the path relative to the working directory: the
/// host titles the window itself, and the provider lists such paths.
pub fn header_uses_cwd_relative(is_nvim: bool, has_nvim_09: bool, provider_id: &str) -> (r: bool)
    ensures
        r == ((!is_nvim || has_nvim_09) && cwd_relative_provider(provider_id@)),
{
    (!is_nvim || has_nvim_09) && crate::target::should_truncate_cwd_relative(provider_id)
}

/// Room for the absolute path in the header: the container less the colon and
/// the line number's digits.
pub fn header_path_budget(container_width: usize, lnum: usize) -> (r: usize)
    ensures
        r as int == if container_width >= 1 + dec_chars(lnum as nat).len() {
            container_width - 1 - dec_chars(lnum as nat).len()
        } else {
            0
        },
{
    let digits = decimal(lnum);
    let d = chars_of(digits.as_str()).len();
    if container_width >= 1 && container_width - 1 >= d {
        container_width - 1 - d
    } else {
        0
    }
}

pub open spec fn spec_header(
    fname: Seq<char>,
    cwd: Seq<char>,
    lnum: nat,
    cwd_relative: bool,
    truncated_path: Seq<char>,
) -> Seq<char> {
    (if cwd_relative {
        replace_first(fname, cwd, seq!['.'])
    } else {
        truncated_path
    }) + seq![':'] + dec_chars(lnum)
}

/// The header of a windowed preview, `<path>:<line>`: the path relative to the
/// working directory, or the absolute path cut to fit.
pub fn preview_header(
    fname: &str,
    cwd: &str,
    lnum: usize,
    cwd_relative: bool,
    truncated_path: &str,
) -> (r: String)
    ensures
        r@ == spec_header(fname@, cwd@, lnum as nat, cwd_relative, truncated_path@),
{
    let mut r = if cwd_relative {
        replace_first_occurrence(fname, cwd, ".")
    } else {
        truncated_path.to_owned()
    };
    proof {
        assert("."@ =~= seq!['.']) by {
            reveal_strlit(".");
        }
    }
    push_char(&mut r, ':');
    let d = decimal(lnum);
    let dc = chars_of(d.as_str());
    push_chars(&mut r, dc.as_slice());
    r
}

pub open spec fn dir_title(path: Seq<char>) -> Seq<char> {
    (if path.len() > 0 && path.last() == '/' {
        path.drop_last()
    } else {
        path
    }) + seq![':']
}

pub open spec fn empty_dir_line() -> Seq<char> {
    "<Empty directory>"@
}

/// A directory listing: a title line `<path>:` over the entries, or over a
/// placeholder when there are none.
pub fn directory_preview(path: &str, entries: Vec<String>) -> (r: Preview)
    ensures
        r.lines_view() == seq![dir_title(path@)] + if entries@.len() == 0 {
            seq![empty_dir_line()]
        } else {
            lines_view(entries@)
        },
        r.is_plain(),
        r.wf(),
{
    let cs = chars_of(path);
    let mut title = String::new();
    let n: usize = if cs.len() > 0 && cs[cs.len() - 1] == '/' { cs.len() - 1 } else { cs.len() };
    push_chars(&mut title, vstd::slice::slice_subrange(cs.as_slice(), 0, n));
    push_char(&mut title, ':');
    assert(title@ =~= dir_title(path@));
    let mut lines: Vec<String> = Vec::new();
    lines.push(title);
    let ghost body = if entries@.len() == 0 { seq![empty_dir_line()] } else { lines_view(entries@) };
    if entries.len() == 0 {
        lines.push(String::from_str("<Empty directory>"));
    } else {
        let mut entries = entries;
        lines.append(&mut entries);
    }
    assert(lines_view(lines@) =~= seq![dir_title(path@)] + body);
    Preview::new(lines)
}

pub open spec fn help_missing_line() -> Seq<char> {
    "Can not find the preview help lines"@
}

/// A help subject: the source file's name over its lines, the first line
/// emphasised and the help syntax named; a placeholder line when the subject
/// was not found.
pub fn help_preview(found: Option<(String, Vec<String>)>) -> (r: Preview)
    ensures
        r.wf(),
        match found {
            Some((fname, lines)) => r.lines_view() == seq![fname@] + lines_view(lines@)
                && r.hi_lnum == Some(1usize) && r.vim_syntax_info.syntax@ == "help"@
                && r.vim_syntax_info.fname@.len() == 0 && r.sublime_syntax_highlights@.len() == 0
                && r.tree_sitter_highlights@.len() == 0 && r.scrollbar is None,
            None => r.lines_view() == seq![help_missing_line()] && r.is_plain(),
        },
{
    match found {
        Some((fname, lines)) => {
            let ghost fv = fname@;
            let ghost lv = lines_view(lines@);
            let mut all: Vec<String> = Vec::new();
            all.push(fname);
            let mut lines = lines;
            all.append(&mut lines);
            assert(lines_view(all@) =~= seq![fv] + lv);
            let mut p = Preview::new(all);
            p.hi_lnum = Some(1);
            p.vim_syntax_info = VimSyntaxInfo::syntax(String::from_str("help"));
            p
        },
        None => {
            let mut lines: Vec<String> = Vec::new();
            lines.push(String::from_str("Can not find the preview help lines"));
            assert(lines_view(lines@) =~= seq![help_missing_line()]);
            Preview::new(lines)
        },
    }
}

/// `s` cut at each newline.
pub open spec fn split_newlines(s: Seq<char>) -> Seq<Seq<char>>
    decreases s.len(),
{
    match crate::lines::index_of_from(s, '\n', 0) {
        Some(k) => if 0 <= k < s.len() {
            seq![s.take(k)] + split_newlines(s.skip(k + 1))
        } else {
            seq![s]
        },
        None => seq![s],
    }
}

proof fn lemma_index_bounds(s: Seq<char>, c: char, i: int)
    requires
        0 <= i,
    ensures
        crate::lines::index_of_from(s, c, i) matches Some(k) ==> i <= k < s.len() && s[k] == c,
    decreases s.len() - i,
{
    if i < s.len() && s[i] != c {
        lemma_index_bounds(s, c, i + 1);
    }
}

proof fn lemma_index_shift(s: Seq<char>, c: char, i: int, j: int)
    requires
        0 <= j <= i,
        forall|t: int| j <= t < i ==> s[t] != c,
        i <= s.len(),
    ensures
        crate::lines::index_of_from(s, c, j) == crate::lines::index_of_from(s, c, i),
    decreases i - j,
{
    if j < i {
        lemma_index_shift(s, c, i, j + 1);
    }
}

proof fn lemma_index_skip(s: Seq<char>, c: char, base: int, i: int)
    requires
        0 <= base <= s.len(),
        0 <= i,
    ensures
        crate::lines::index_of_from(s.skip(base), c, i) == match crate::lines::index_of_from(
            s,
            c,
            base + i,
        ) {
            Some(k) => Some(k - base),
            None => None::<int>,
        },
    decreases s.len() - base - i,
{
    if base + i < s.len() && s[base + i] != c {
        lemma_index_skip(s, c, base, i + 1);
    }
}

/// The output of `git show` cut into lines, the first `height` of them,
/// with the diff syntax named.
pub fn commit_preview(stdout: &str, height: usize) -> (r: Preview)
    ensures
        r.lines_view() == split_newlines(stdout@).take(
            if height < split_newlines(stdout@).len() {
                height as int
            } else {
                split_newlines(stdout@).len() as int
            },
        ),
        r.vim_syntax_info.syntax@ == "diff"@,
        r.vim_syntax_info.fname@.len() == 0,
        r.sublime_syntax_highlights@.len() == 0,
        r.tree_sitter_highlights@.len() == 0,
        r.hi_lnum is None,
        r.scrollbar is None,
        r.wf(),
{
    let cs = chars_of(stdout);
    let total_chars = cs.len();
    let ghost all = split_newlines(stdout@);
    let mut lines: Vec<String> = Vec::new();
    let mut start: usize = 0;
    let mut done = false;
    assert(stdout@.skip(0) =~= stdout@);
    assert(lines_view(lines@) + split_newlines(stdout@) =~= all);
    while !done && lines.len() < height
        invariant
            cs@ == stdout@,
            total_chars == cs@.len(),
            start <= cs@.len(),
            done ==> lines_view(lines@) == all,
            !done ==> all == lines_view(lines@) + split_newlines(stdout@.skip(start as int)),
            lines@.len() <= height,
        decreases cs@.len() - start + (if done { 0int } else { 1int }),
    {
        let ghost rest = stdout@.skip(start as int);
        proof {
            lemma_index_skip(stdout@, '\n', start as int, 0);
            lemma_index_bounds(stdout@, '\n', start as int);
        }
        match crate::lines::find_char(&cs, '\n', start) {
            Some(k) => {
                let mut piece = String::new();
                push_chars(&mut piece, vstd::slice::slice_subrange(cs.as_slice(), start, k));
                assert(piece@ =~= rest.take(k - start));
                assert(rest.skip(k - start + 1) =~= stdout@.skip(k + 1));
                lines.push(piece);
                assert(lines_view(lines@) + split_newlines(stdout@.skip(k + 1)) =~= all);
                start = k + 1;
            },
            None => {
                let mut piece = String::new();
                push_chars(&mut piece, vstd::slice::slice_subrange(cs.as_slice(), start, cs.len()));
                assert(piece@ =~= rest);
                lines.push(piece);
                assert(lines_view(lines@) =~= all);
                done = true;
            },
        }
    }
    proof {
        if !done {
            assert(lines@.len() == height);
        }
        assert(lines_view(lines@) =~= all.take(
            if height < all.len() { height as int } else { all.len() as int },
        ));
    }
    let mut p = Preview::new(lines);
    p.vim_syntax_info = VimSyntaxInfo::syntax(String::from_str("diff"));
    p
}

pub open spec fn empty_file_line() -> Seq<char> {
    "<Empty file>"@
}

/// The lines of a whole-file preview: the first line, which names the file,
/// becomes the path relative to the working directory where the host titles
/// the window; a placeholder follows when the file is empty.
pub open spec fn spec_file_lines(
    lines: Seq<Seq<char>>,
    abs_path: Seq<char>,
    cwd: Seq<char>,
    host_titles: bool,
    file_is_empty: bool,
) -> Seq<Seq<char>> {
    let titled = if host_titles && lines.len() > 0 {
        lines.update(0, replace_first(abs_path, cwd, seq!['.']))
    } else {
        lines
    };
    if file_is_empty {
        titled.push(empty_file_line())
    } else {
        titled
    }
}

/// A preview of a file from its start: `lines` as read, a scrollbar for them
/// out of `total` rows when one is wanted, and the syntax name when one is
/// known for a non-empty file, else the file name.
pub fn file_preview(
    lines: Vec<String>,
    abs_path: &str,
    cwd: &str,
    host_titles: bool,
    total: usize,
    file_is_empty: bool,
    syntax: Option<String>,
    fname: String,
    add_scrollbar: bool,
    winheight: usize,
    border: bool,
) -> (r: Preview)
    ensures
        r.lines_view() == spec_file_lines(lines_view(lines@), abs_path@, cwd@, host_titles, file_is_empty),
        as_nat_pair(r.scrollbar) == if add_scrollbar {
            spec_file_scrollbar(lines@.len() as nat, winheight as nat, total as nat, border)
        } else {
            None
        },
        match syntax {
            Some(s) if !file_is_empty && s@.len() > 0 => r.vim_syntax_info.syntax@ == s@
                && r.vim_syntax_info.fname@.len() == 0,
            _ => r.vim_syntax_info.syntax@.len() == 0 && r.vim_syntax_info.fname@ == fname@,
        },
        r.sublime_syntax_highlights@.len() == 0,
        r.tree_sitter_highlights@.len() == 0,
        r.hi_lnum is None,
        r.wf(),
{
    let mut lines = lines;
    let ghost orig = lines_view(lines@);
    if host_titles && lines.len() > 0 {
        let title = replace_first_occurrence(abs_path, cwd, ".");
        proof {
            assert("."@ =~= seq!['.']) by {
                reveal_strlit(".");
            }
        }
        lines.set(0, title);
    }
    assert(lines_view(lines@) =~= (if host_titles && orig.len() > 0 {
        orig.update(0, replace_first(abs_path@, cwd@, seq!['.']))
    } else {
        orig
    }));
    let end = lines.len();
    let scrollbar = if add_scrollbar {
        file_scrollbar(end, winheight, total, border)
    } else {
        None
    };
    let info = if file_is_empty {
        lines.push(String::from_str("<Empty file>"));
        VimSyntaxInfo::fname(fname)
    } else {
        match syntax {
            Some(s) => if s.as_str().is_empty() {
                VimSyntaxInfo::fname(fname)
            } else {
                VimSyntaxInfo::syntax(s)
            },
            None => VimSyntaxInfo::fname(fname),
        }
    };
    assert(lines_view(lines@) =~= spec_file_lines(orig, abs_path@, cwd@, host_titles, file_is_empty));
    Preview::new_file_preview(lines, scrollbar, info)
}

/// Each line of `window`, limited to `max` bytes.
pub fn truncate_lines(window: Vec<String>, max: usize) -> (r: Vec<String>)
    ensures
        r@.len() == window@.len(),
        forall|j: int| 0 <= j < r@.len() ==> is_truncated_line(#[trigger] r@[j]@, window@[j]@, max as nat),
{
    let mut out: Vec<String> = Vec::new();
    let mut i: usize = 0;
    while i < window.len()
        invariant
            i <= window@.len(),
            out@.len() == i,
            forall|j: int| 0 <= j < i ==> is_truncated_line(#[trigger] out@[j]@, window@[j]@, max as nat),
        decreases window@.len() - i,
    {
        out.push(truncate_line(window[i].as_str(), max));
        i = i + 1;
    }
    out
}

/// The lines of a windowed preview: the header, the context block, then the
/// window's lines limited to `max` bytes.
pub open spec fn is_windowed_lines(
    r: Seq<Seq<char>>,
    header: Seq<char>,
    context: Seq<Seq<char>>,
    window: Seq<Seq<char>>,
    max: nat,
) -> bool {
    &&& r.len() == 1 + context.len() + window.len()
    &&& r[0] == header
    &&& forall|j: int| 0 <= j < context.len() ==> r[1 + j] == #[trigger] context[j]
    &&& forall|j: int|
        0 <= j < window.len() ==> is_truncated_line(r[1 + context.len() + j], #[trigger] window[j], max)
}

/// A preview of the window `start..end` out of `total` rows, around the line
/// `highlight_lnum` of `window`: the header, the context block and the
/// window's lines; the matched line emphasised below the block; a scrollbar
/// when one is wanted; and the spans of whichever engine produced them, else a
/// syntax hint.
pub fn file_at_preview(
    header: String,
    context: Vec<String>,
    window: Vec<String>,
    highlight_lnum: usize,
    start: usize,
    end: usize,
    total: usize,
    max_width: usize,
    add_scrollbar: bool,
    winheight: usize,
    border: bool,
    outcome: HighlightOutcome,
    syntax: Option<String>,
    fname: String,
) -> (r: Preview)
    requires
        start <= end <= total,
        highlight_lnum + context@.len() <= usize::MAX,
    ensures
        is_windowed_lines(
            r.lines_view(),
            header@,
            lines_view(context@),
            lines_view(window@),
            max_width as nat,
        ),
        r.hi_lnum == Some((highlight_lnum + context@.len()) as usize),
        as_nat_pair(r.scrollbar) == if add_scrollbar {
            spec_line_scrollbar(
                start as nat,
                end as nat,
                winheight as nat,
                total as nat,
                border,
                context@.len() > 0,
            )
        } else {
            None
        },
        r.wf(),
        match outcome {
            HighlightOutcome::Sublime(v) => r.sublime_syntax_highlights == v
                && r.tree_sitter_highlights@.len() == 0 && r.vim_syntax_info.syntax@.len() == 0
                && r.vim_syntax_info.fname@.len() == 0,
            HighlightOutcome::TreeSitter(v) => r.tree_sitter_highlights == v
                && r.sublime_syntax_highlights@.len() == 0 && r.vim_syntax_info.syntax@.len() == 0
                && r.vim_syntax_info.fname@.len() == 0,
            HighlightOutcome::Neither => r.sublime_syntax_highlights@.len() == 0
                && r.tree_sitter_highlights@.len() == 0 && match syntax {
                Some(s) if s@.len() > 0 => r.vim_syntax_info.syntax@ == s@
                    && r.vim_syntax_info.fname@.len() == 0,
                _ => r.vim_syntax_info.syntax@.len() == 0 && r.vim_syntax_info.fname@ == fname@,
            },
        },
{
    let n_context = context.len();
    let has_context = n_context > 0;
    let ghost hv = header@;
    let ghost cv = lines_view(context@);
    let ghost wv = lines_view(window@);
    let truncated = truncate_lines(window, max_width);
    let mut lines: Vec<String> = Vec::new();
    lines.push(header);
    let mut context = context;
    lines.append(&mut context);
    let mut truncated = truncated;
    let ghost tv = truncated@;
    lines.append(&mut truncated);
    assert(is_windowed_lines(lines_view(lines@), hv, cv, wv, max_width as nat)) by {
        assert(lines_view(lines@).len() == 1 + cv.len() + wv.len());
        assert forall|j: int| 0 <= j < wv.len() implies is_truncated_line(
            lines_view(lines@)[1 + cv.len() + j],
            #[trigger] wv[j],
            max_width as nat,
        ) by {
            assert(lines@[1 + cv.len() + j] == tv[j]);
        }
    }
    let scrollbar = if add_scrollbar {
        line_scrollbar(start, end, winheight, total, border, has_context)
    } else {
        None
    };
    let mut p = Preview::new(lines);
    p.hi_lnum = Some(highlight_lnum + n_context);
    p.scrollbar = scrollbar;
    p.attach_highlights(outcome, syntax, fname);
    p
}

pub open spec fn error_line(path: Seq<char>, err: Seq<char>) -> Seq<char> {
    "Error while previewing "@ + path + ": "@ + err
}

/// What a windowed preview shows when the file could not be read: the header
/// and a line naming the path and the error, with the file name as the hint.
pub fn file_at_error_preview(header: String, path: &str, err: &str, fname: String) -> (r: Preview)
    ensures
        r.lines_view() == seq![header@, error_line(path@, err@)],
        r.vim_syntax_info.syntax@.len() == 0,
        r.vim_syntax_info.fname@ == fname@,
        r.sublime_syntax_highlights@.len() == 0,
        r.tree_sitter_highlights@.len() == 0,
        r.hi_lnum is None,
        r.scrollbar is None,
        r.wf(),
{
    let mut line = String::from_str("Error while previewing ");
    line.append(path);
    line.append(": ");
    line.append(err);
    let ghost hv = header@;
    let ghost lv = line@;
    let mut lines: Vec<String> = Vec::new();
    lines.push(header);
    lines.push(line);
    assert(lines_view(lines@) =~= seq![hv, lv]);
    Preview::new_file_preview(lines, None, VimSyntaxInfo::fname(fname))
}

} // verus!
