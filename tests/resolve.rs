use maple_preview::cache::CachedPreviewImpl;
use maple_preview::target::{
    lookup_provider, parse_preview_target, should_truncate_cwd_relative, PreviewTarget,
    ProviderKind, ResolveEnv, ResolveError,
};

fn env() -> ResolveEnv {
    ResolveEnv {
        cwd: "/repo".to_string(),
        home: "/home/me".to_string(),
        start_buffer_path: "/repo/src/lib.rs".to_string(),
    }
}

fn line_in_file(path: &str, line_number: usize) -> PreviewTarget {
    PreviewTarget::LineInFile { path: path.to_string(), line_number }
}

#[test]
fn grep_line_resolves_to_line_in_file() {
    let (target, seen) = parse_preview_target("src/main.rs:42:5:    let x = 1;", "grep", &env()).unwrap();
    assert_eq!(target, line_in_file("/repo/src/main.rs", 42));
    assert_eq!(seen, Some("    let x = 1;".to_string()));
}

#[test]
fn grep_family_strips_leading_dot_slash() {
    for id in ["live_grep", "igrep", "coc_location"] {
        let (target, seen) = parse_preview_target("./a/b.rs:7:1:fn main() {", id, &env()).unwrap();
        assert_eq!(target, line_in_file("/repo/a/b.rs", 7));
        assert_eq!(seen, Some("fn main() {".to_string()));
    }
}

#[test]
fn grep_path_may_hold_a_colon() {
    let (target, _) = parse_preview_target("a:b.rs:3:4:x:1:2:", "grep", &env()).unwrap();
    assert_eq!(target, line_in_file("/repo/a:b.rs", 3));
}

#[test]
fn malformed_grep_line_is_an_error_naming_provider_and_line() {
    let err = parse_preview_target("no position here", "grep", &env()).unwrap_err();
    assert_eq!(
        err,
        ResolveError::MalformedLine {
            provider_id: "grep".to_string(),
            line: "no position here".to_string()
        }
    );
    assert_eq!(
        err.message(),
        "Failed to parse PreviewTarget for provider_id: grep from `no position here`"
    );
}

#[test]
fn unknown_provider_is_an_error_naming_it_and_the_line() {
    let err = parse_preview_target("whatever line", "frobnicate", &env()).unwrap_err();
    assert_eq!(
        err,
        ResolveError::UnknownProvider {
            provider_id: "frobnicate".to_string(),
            line: "whatever line".to_string()
        }
    );
    let msg = err.message();
    assert!(msg.contains("frobnicate"));
    assert!(msg.contains("whatever line"));
}

#[test]
fn file_providers_join_the_working_directory() {
    for id in ["files", "git_files"] {
        let (target, seen) = parse_preview_target("src/lib.rs", id, &env()).unwrap();
        assert_eq!(target, PreviewTarget::File("/repo/src/lib.rs".to_string()));
        assert_eq!(seen, None);
    }
    let (target, _) = parse_preview_target("/abs/x.rs", "files", &env()).unwrap();
    assert_eq!(target, PreviewTarget::File("/abs/x.rs".to_string()));
}

#[test]
fn recent_files_take_the_line_as_it_stands() {
    let (target, _) = parse_preview_target("notes/plan.md", "recent_files", &env()).unwrap();
    assert_eq!(target, PreviewTarget::File("notes/plan.md".to_string()));
}

#[test]
fn history_expands_home() {
    let (t1, _) = parse_preview_target("~/.vimrc", "history", &env()).unwrap();
    assert_eq!(t1, PreviewTarget::File("/home/me/.vimrc".to_string()));
    let (t2, _) = parse_preview_target("src/a.rs", "history", &env()).unwrap();
    assert_eq!(t2, PreviewTarget::File("/repo/src/a.rs".to_string()));
    let (t3, _) = parse_preview_target("~other/x", "history", &env()).unwrap();
    assert_eq!(t3, PreviewTarget::File("~other/x".to_string()));
}

#[test]
fn dumb_jump_line() {
    let (target, seen) = parse_preview_target("[def]src/x.rs:12:3:fn x()", "dumb_jump", &env()).unwrap();
    assert_eq!(target, line_in_file("/repo/src/x.rs", 12));
    assert_eq!(seen, None);
    assert!(parse_preview_target("src/x.rs:12:3:fn x()", "dumb_jump", &env()).is_err());
}

#[test]
fn buffer_lines_and_tags_use_the_start_buffer() {
    let (t1, _) = parse_preview_target("  128   let y = 2;", "blines", &env()).unwrap();
    assert_eq!(t1, line_in_file("/repo/src/lib.rs", 128));
    let (t2, _) = parse_preview_target("parse_line:57  [function]", "tags", &env()).unwrap();
    assert_eq!(t2, line_in_file("/repo/src/lib.rs", 57));
    assert!(parse_preview_target("no number", "blines", &env()).is_err());
    assert!(parse_preview_target("no number", "tags", &env()).is_err());
}

#[test]
fn project_tags_line() {
    let (target, _) =
        parse_preview_target("Preview:56 [struct@crates/core/src/a.rs] pub struct", "proj_tags", &env())
            .unwrap();
    assert_eq!(target, line_in_file("/repo/crates/core/src/a.rs", 56));
}

#[test]
fn commits_line() {
    for id in ["commits", "bcommits"] {
        let (target, _) =
            parse_preview_target("* 2023-04-01 1a2b3c4 Fix the parser (someone)", id, &env()).unwrap();
        assert_eq!(target, PreviewTarget::GitCommit("1a2b3c4".to_string()));
    }
    assert!(parse_preview_target("no date here", "commits", &env()).is_err());
}

#[test]
fn line_number_overflow_is_malformed() {
    let line = "a.rs:99999999999999999999999999:1:x";
    assert!(parse_preview_target(line, "grep", &env()).is_err());
}

#[test]
fn resolution_is_deterministic() {
    let a = parse_preview_target("src/main.rs:42:5:x", "grep", &env());
    let b = parse_preview_target("src/main.rs:42:5:x", "grep", &env());
    assert_eq!(a, b);
}

#[test]
fn provider_table() {
    assert_eq!(lookup_provider("grep"), Some(ProviderKind::GrepRecord));
    assert_eq!(lookup_provider("history"), Some(ProviderKind::HistoryFile));
    assert_eq!(lookup_provider("frobnicate"), None);
    assert!(should_truncate_cwd_relative("proj_tags"));
    assert!(!should_truncate_cwd_relative("blines"));
}

#[test]
fn target_path() {
    let t = line_in_file("/a/b", 3);
    assert_eq!(t.path(), Some(&"/a/b".to_string()));
    assert_eq!(PreviewTarget::GitCommit("abc".to_string()).path(), None);
    assert!(t.same_as(&t.duplicate()));
    assert!(!t.same_as(&line_in_file("/a/b", 4)));
}

#[test]
fn cached_preview_impl_new() {
    let p = CachedPreviewImpl::new("src/main.rs:42:5:    let x = 1;", 30, "grep", &env()).unwrap();
    assert_eq!(p.preview_target, line_in_file("/repo/src/main.rs", 42));
    assert_eq!(p.cache_line, Some("    let x = 1;".to_string()));
    assert_eq!(p.preview_height, 30);
    let q = CachedPreviewImpl::with_preview_target(PreviewTarget::File("/x".to_string()), 5, "files");
    assert_eq!(q.cache_line, None);
}
