use maple_preview::cache::{CachedPreviewImpl, JobRegistry, PreviewCache};
use maple_preview::context::{border_line, context_block, needs_context_lookup, pattern_line, ContextTag};
use maple_preview::highlight::{
    grammar_input_lines, project_parser_highlights, select_highlights, select_theme, HighlightEngine,
};
use maple_preview::preview::{HighlightOutcome, Preview, VimSyntaxInfo};
use maple_preview::render::{
    commit_preview, directory_preview, file_at_error_preview, file_at_preview, file_preview,
    header_path_budget, header_uses_cwd_relative, help_preview, max_line_width, preview_header,
    truncate_lines,
};
use maple_preview::scrollbar::{file_scrollbar, line_scrollbar};
use maple_preview::target::PreviewTarget;
use maple_preview::text::{decimal, fitting_prefix, replace_first_occurrence, take_chars, truncate_line};

fn strings(v: &[&str]) -> Vec<String> {
    v.iter().map(|s| s.to_string()).collect()
}

#[test]
fn empty_file_ends_with_placeholder() {
    let p = file_preview(
        strings(&["/repo/empty.txt"]),
        "/repo/empty.txt",
        "/repo",
        true,
        0,
        true,
        Some("text".to_string()),
        "empty.txt".to_string(),
        false,
        20,
        false,
    );
    assert_eq!(p.lines, strings(&["./empty.txt", "<Empty file>"]));
    assert_eq!(p.vim_syntax_info, VimSyntaxInfo::fname("empty.txt".to_string()));
}

#[test]
fn file_preview_names_syntax_and_scrollbar() {
    let lines = strings(&["/repo/a.rs", "fn a() {}", "fn b() {}"]);
    let p = file_preview(lines, "/repo/a.rs", "/repo", true, 30, false, Some("rust".to_string()), "a.rs".to_string(), true, 20, true);
    assert_eq!(p.lines[0], "./a.rs");
    assert_eq!(p.vim_syntax_info.syntax, "rust");
    assert_eq!(p.vim_syntax_info.fname, "");
    // 3 * 20 / 30 = 2; a border puts the thumb one row down.
    assert_eq!(p.scrollbar, Some((1, 2)));
    let q = file_preview(strings(&["title: a.rs", "x"]), "/repo/a.rs", "/repo", false, 2, false, None, "a.rs".to_string(), false, 20, false);
    assert_eq!(q.lines, strings(&["title: a.rs", "x"]));
    assert_eq!(q.vim_syntax_info.fname, "a.rs");
    assert_eq!(q.scrollbar, None);
}

#[test]
fn missing_help_subject() {
    let p = help_preview(None);
    assert_eq!(p.lines, strings(&["Can not find the preview help lines"]));
    assert!(p.sublime_syntax_highlights.is_empty());
    assert!(p.tree_sitter_highlights.is_empty());
    assert_eq!(p.scrollbar, None);
    assert_eq!(p.hi_lnum, None);
}

#[test]
fn found_help_subject() {
    let p = help_preview(Some(("doc/clap.txt".to_string(), strings(&["*clap*", "intro"]))));
    assert_eq!(p.lines, strings(&["doc/clap.txt", "*clap*", "intro"]));
    assert_eq!(p.hi_lnum, Some(1));
    assert_eq!(p.vim_syntax_info.syntax, "help");
}

#[test]
fn directory_listing() {
    let p = directory_preview("/repo/src/", strings(&["a.rs", "b.rs"]));
    assert_eq!(p.lines, strings(&["/repo/src:", "a.rs", "b.rs"]));
    let q = directory_preview("/repo/empty", Vec::new());
    assert_eq!(q.lines, strings(&["/repo/empty:", "<Empty directory>"]));
}

#[test]
fn commit_lines_are_cut_to_height() {
    let p = commit_preview("commit 1a2b\nAuthor: x\n\ndiff --git a b\n", 3);
    assert_eq!(p.lines, strings(&["commit 1a2b", "Author: x", ""]));
    assert_eq!(p.vim_syntax_info.syntax, "diff");
    let q = commit_preview("one\ntwo", 10);
    assert_eq!(q.lines, strings(&["one", "two"]));
}

#[test]
fn scrollbar_geometry() {
    assert_eq!(file_scrollbar(10, 20, 100, false), Some((0, 2)));
    assert_eq!(file_scrollbar(4, 20, 100, false), None);
    assert_eq!(file_scrollbar(5, 20, 100, false), Some((0, 1)));
    assert_eq!(file_scrollbar(100, 20, 50, false), Some((0, 20)));
    assert_eq!(file_scrollbar(100, 20, 50, true), Some((1, 19)));
    // start 50 without context counts from 47: (60-47)*10/100 = 1, top 47*10/100 = 4.
    assert_eq!(line_scrollbar(50, 60, 10, 100, false, false), Some((4, 1)));
    assert_eq!(line_scrollbar(50, 60, 10, 100, false, true), Some((5, 1)));
    assert_eq!(line_scrollbar(0, 100, 10, 100, true, true), Some((1, 9)));
    assert_eq!(line_scrollbar(0, 2, 10, 100, false, true), None);
}

#[test]
fn scrollbar_bounds_hold_on_a_grid() {
    for total in 1..40usize {
        for h in 0..12usize {
            for visible in 0..=total {
                let r = file_scrollbar(visible, h, total, true);
                assert_eq!(r.is_none(), visible * h < total);
                if let Some((top, len)) = r {
                    assert!(top <= h && len <= h);
                }
                let s = line_scrollbar(visible / 2, visible, h, total, true, false);
                if let Some((top, len)) = s {
                    assert!(top <= h && len <= h);
                }
            }
        }
    }
}

#[test]
fn context_pattern_cut_on_characters() {
    let pattern = "fn 日本語の関数名がとても長い場合(x: usize) -> usize";
    let line = pattern_line(pattern, 20);
    assert!(line.ends_with("..  💡"));
    assert_eq!(line.chars().count(), 15);
    assert!(line.chars().count() <= 20);
    assert_eq!(pattern_line("fn a()", 20), "fn a()  💡");
}

#[test]
fn context_block_only_above_the_window() {
    let tag = ContextTag { line_number: 10, pattern: "fn outer() {".to_string() };
    let block = context_block(Some(tag.clone()), 40, 30, true);
    assert_eq!(block.len(), 3);
    assert_eq!(block[0], "─".repeat(30));
    assert_eq!(block[1], "fn outer() {  💡");
    assert_eq!(block[2], block[0]);
    assert_eq!(border_line(12, false), "─".repeat(10));
    let narrow = context_block(Some(tag.clone()), 40, 12, true);
    assert_eq!(narrow[1], "fn..  💡");
    assert!(context_block(Some(tag), 10, 12, true).is_empty());
    assert!(context_block(None, 40, 12, true).is_empty());
}

#[test]
fn context_lookup_is_skipped_for_denied_files_and_comments() {
    assert!(needs_context_lookup(true, Some("rs"), false));
    assert!(!needs_context_lookup(true, Some("toml"), false));
    assert!(!needs_context_lookup(true, Some("log"), false));
    assert!(!needs_context_lookup(true, Some("rs"), true));
    assert!(!needs_context_lookup(true, None, false));
    assert!(!needs_context_lookup(false, Some("rs"), false));
}

#[test]
fn windowed_preview_shifts_emphasis_below_context() {
    let context = strings(&["──", "fn f()  💡", "──"]);
    let window = strings(&["a", "bbbbbbbbbb"]);
    let spans = vec![(2usize, vec![(0usize, 1usize, "Keyword".to_string())])];
    let p = file_at_preview(
        "./a.rs:5".to_string(),
        context,
        window,
        2,
        4,
        6,
        100,
        4,
        true,
        10,
        false,
        HighlightOutcome::Sublime(spans.clone()),
        Some("rust".to_string()),
        "/repo/a.rs".to_string(),
    );
    assert_eq!(p.lines, strings(&["./a.rs:5", "──", "fn f()  💡", "──", "a", "bbbb……"]));
    assert_eq!(p.hi_lnum, Some(5));
    assert_eq!(p.sublime_syntax_highlights, spans);
    assert!(p.tree_sitter_highlights.is_empty());
    assert_eq!(p.vim_syntax_info, VimSyntaxInfo::empty());
    assert_eq!(p.scrollbar, None);
}

#[test]
fn windowed_preview_falls_back_to_syntax_hint() {
    let p = file_at_preview(
        "h".to_string(), Vec::new(), strings(&["x"]), 1, 0, 1, 1, 100, false, 10, false,
        HighlightOutcome::Neither, None, "/repo/a.zz".to_string(),
    );
    assert_eq!(p.vim_syntax_info, VimSyntaxInfo::fname("/repo/a.zz".to_string()));
    assert!(p.sublime_syntax_highlights.is_empty() && p.tree_sitter_highlights.is_empty());
}

#[test]
fn highlight_fields_are_exclusive() {
    let spans = vec![(1usize, vec![(0usize, 2usize, "String".to_string())])];
    for outcome in [HighlightOutcome::Sublime(spans.clone()), HighlightOutcome::TreeSitter(spans.clone()), HighlightOutcome::Neither] {
        let p = file_at_preview("h".to_string(), Vec::new(), strings(&["ab"]), 1, 0, 1, 1, 100, false, 10, false, outcome, Some("rust".to_string()), "f".to_string());
        assert!(p.sublime_syntax_highlights.is_empty() || p.tree_sitter_highlights.is_empty());
    }
}

#[test]
fn error_preview() {
    let p = file_at_error_preview("./gone.rs:3".to_string(), "/repo/gone.rs", "No such file", "/repo/gone.rs".to_string());
    assert_eq!(p.lines, strings(&["./gone.rs:3", "Error while previewing /repo/gone.rs: No such file"]));
    assert_eq!(p.vim_syntax_info.fname, "/repo/gone.rs");
}

#[test]
fn header_lines() {
    assert_eq!(preview_header("/repo/src/a.rs", "/repo", 42, true, ""), "./src/a.rs:42");
    assert_eq!(preview_header("/repo/src/a.rs", "/repo", 7, false, "…/a.rs"), "…/a.rs:7");
    assert!(header_uses_cwd_relative(false, false, "grep"));
    assert!(!header_uses_cwd_relative(true, false, "grep"));
    assert!(!header_uses_cwd_relative(true, true, "blines"));
    assert_eq!(header_path_budget(80, 123), 76);
    assert_eq!(header_path_budget(2, 123), 0);
    assert_eq!(max_line_width(40), 80);
    assert_eq!(max_line_width(usize::MAX), usize::MAX);
}

#[test]
fn text_helpers() {
    assert_eq!(decimal(0), "0");
    assert_eq!(decimal(90210), "90210");
    assert_eq!(fitting_prefix("héllo", 2), "h");
    assert_eq!(fitting_prefix("héllo", 3), "hé");
    assert_eq!(truncate_line("short", 10), "short");
    assert_eq!(truncate_line("日本語", 4), "日……");
    assert_eq!(truncate_lines(strings(&["abcdef", "ab"]), 3), strings(&["abc……", "ab"]));
    assert_eq!(take_chars("日本語", 2), "日本");
    assert_eq!(replace_first_occurrence("/a/b/a/b", "/a", "."), "./b/a/b");
    assert_eq!(replace_first_occurrence("xyz", "/a", "."), "xyz");
}

#[test]
fn parser_spans_move_into_the_window() {
    let raw = vec![
        (3usize, vec![(0usize, 2usize, "Keyword".to_string())]),
        (10usize, vec![(0usize, 4usize, "Function".to_string()), (5usize, 10usize, "Comment".to_string())]),
        (12usize, vec![(1usize, 1usize, "Type".to_string())]),
        (20usize, vec![(0usize, 1usize, "Type".to_string())]),
    ];
    let out = project_parser_highlights(raw, 10, 13, 8, 3);
    assert_eq!(
        out,
        vec![
            (4usize, vec![(0usize, 4usize, "Function".to_string())]),
            (6usize, vec![(1usize, 1usize, "Type".to_string())]),
        ]
    );
}

#[test]
fn engine_selection() {
    let spans = vec![(1usize, vec![(0usize, 1usize, "K".to_string())])];
    assert_eq!(select_highlights(HighlightEngine::SublimeSyntax, Some(spans.clone()), None, 0, 5, 80, 0), HighlightOutcome::Sublime(spans.clone()));
    assert_eq!(select_highlights(HighlightEngine::SublimeSyntax, None, Some(spans.clone()), 0, 5, 80, 0), HighlightOutcome::Neither);
    assert_eq!(select_highlights(HighlightEngine::Vim, Some(spans.clone()), Some(spans.clone()), 0, 5, 80, 0), HighlightOutcome::Neither);
    assert_eq!(
        select_highlights(HighlightEngine::TreeSitter, None, Some(spans), 0, 5, 80, 1),
        HighlightOutcome::TreeSitter(vec![(3usize, vec![(0usize, 1usize, "K".to_string())])])
    );
    assert_eq!(select_theme(Some("Nord"), true), "Nord");
    assert_eq!(select_theme(Some("Missing"), false), "Visual Studio Dark+");
    assert_eq!(select_theme(None, true), "Visual Studio Dark+");
    assert_eq!(grammar_input_lines(&strings(&["abcdef", "日本"]), 4), strings(&["abcd", "日"]));
}

#[test]
fn cache_round_trip_computes_once() {
    let mut cache = PreviewCache::new();
    let item = CachedPreviewImpl::with_preview_target(PreviewTarget::File("/repo/a.rs".to_string()), 10, "files");
    let mut reads = 0;
    let mut show = |cache: &mut PreviewCache| -> Preview {
        if let Some((_, p)) = item.get_preview(cache) {
            return p.clone();
        }
        reads += 1;
        let p = Preview::new(strings(&["a.rs", "fn main() {}"]));
        item.store_preview(cache, p.clone());
        p
    };
    let first = show(&mut cache);
    let second = show(&mut cache);
    assert_eq!(first, second);
    assert_eq!(reads, 1);
    let other = PreviewTarget::File("/repo/b.rs".to_string());
    assert!(cache.cached_preview(&other).is_none());
    cache.insert_preview(PreviewTarget::File("/repo/a.rs".to_string()), Preview::new(strings(&["new"])));
    assert_eq!(cache.cached_preview(&item.preview_target).unwrap().lines, strings(&["new"]));
}

#[test]
fn reservation_conflict_skips_second_refresh() {
    let mut jobs = JobRegistry::new();
    assert!(jobs.reserve(42));
    assert!(!jobs.reserve(42));
    assert!(jobs.is_reserved(42));
    assert!(jobs.reserve(7));
    jobs.unreserve(42);
    assert!(!jobs.is_reserved(42));
    assert!(jobs.is_reserved(7));
    assert!(jobs.reserve(42));
}

#[test]
fn stale_grep_line_reserves_one_refresh() {
    let env = maple_preview::target::ResolveEnv {
        cwd: "/repo".to_string(),
        home: "/home/me".to_string(),
        start_buffer_path: String::new(),
    };
    let item = CachedPreviewImpl::new("a.rs:1:1:old text", 10, "grep", &env).unwrap();
    let mut jobs = JobRegistry::new();
    assert!(!item.try_refresh_cache("old text", &mut jobs, 9));
    assert!(item.try_refresh_cache("new text", &mut jobs, 9));
    assert!(!item.try_refresh_cache("new text", &mut jobs, 9));
    let live = CachedPreviewImpl::new("a.rs:1:1:old text", 10, "live_grep", &env).unwrap();
    assert!(!live.is_cache_outdated("new text"));
}
