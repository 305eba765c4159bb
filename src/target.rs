//! Preview targets and their resolution from a provider's result line.
use vstd::prelude::*;
use crate::lines::{
    blines_lnum, commit_rev, first_colon_number, grep_position, jump_line, proj_tags,
    spec_blines_lnum, spec_buf_tags_lnum, spec_commit_rev, spec_grep_position, spec_jump_line,
    spec_proj_tags,
};
use crate::text::{chars_of, push_chars, text_eq};

verus! {

/// What a preview shows.
#[derive(Debug, Clone, PartialEq, Eq, Hash)]
pub enum PreviewTarget {
    /// List the entries under a directory.
    Directory(String),
    /// Start from the beginning of a file.
    File(String),
    /// A line of a file, identified by its path and 1-based line number.
    LineInFile { path: String, line_number: usize },
    /// A git revision.
    GitCommit(String),
    /// A subject of the editor's help documentation.
    HelpTags { subject: String, doc_filename: String, runtimepath: String },
}

/// The value of a `PreviewTarget`, as character sequences.
pub enum TargetView {
    Directory(Seq<char>),
    File(Seq<char>),
    LineInFile { path: Seq<char>, line_number: nat },
    GitCommit(Seq<char>),
    HelpTags { subject: Seq<char>, doc_filename: Seq<char>, runtimepath: Seq<char> },
}

impl View for PreviewTarget {
    type V = TargetView;

    open spec fn view(&self) -> TargetView {
        match self {
            PreviewTarget::Directory(p) => TargetView::Directory(p@),
            PreviewTarget::File(p) => TargetView::File(p@),
            PreviewTarget::LineInFile { path, line_number } => TargetView::LineInFile {
                path: path@,
                line_number: *line_number as nat,
            },
            PreviewTarget::GitCommit(r) => TargetView::GitCommit(r@),
            PreviewTarget::HelpTags { subject, doc_filename, runtimepath } => TargetView::HelpTags {
                subject: subject@,
                doc_filename: doc_filename@,
                runtimepath: runtimepath@,
            },
        }
    }
}

/// The filesystem path that a target carries, if any.
pub open spec fn target_path(t: TargetView) -> Option<Seq<char>> {
    match t {
        TargetView::Directory(p) => Some(p),
        TargetView::File(p) => Some(p),
        TargetView::LineInFile { path, .. } => Some(path),
        _ => None,
    }
}

impl PreviewTarget {
    /// Returns the path associated with the target, or `None` if it has none.
    pub fn path(&self) -> (r: Option<&String>)
        ensures
            match target_path(self@) {
                Some(p) => r matches Some(s) && s@ == p,
                None => r is None,
            },
    {
        match self {
            PreviewTarget::File(path) => Some(path),
            PreviewTarget::Directory(path) => Some(path),
            PreviewTarget::LineInFile { path, .. } => Some(path),
            _ => None,
        }
    }

    /// Whether two targets denote the same thing.
    pub fn same_as(&self, other: &PreviewTarget) -> (r: bool)
        ensures
            r == (self@ == other@),
    {
        match (self, other) {
            (PreviewTarget::Directory(a), PreviewTarget::Directory(b)) => text_eq(a, b),
            (PreviewTarget::File(a), PreviewTarget::File(b)) => text_eq(a, b),
            (
                PreviewTarget::LineInFile { path: a, line_number: m },
                PreviewTarget::LineInFile { path: b, line_number: n },
            ) => *m == *n && text_eq(a, b),
            (PreviewTarget::GitCommit(a), PreviewTarget::GitCommit(b)) => text_eq(a, b),
            (
                PreviewTarget::HelpTags { subject: s1, doc_filename: d1, runtimepath: r1 },
                PreviewTarget::HelpTags { subject: s2, doc_filename: d2, runtimepath: r2 },
            ) => text_eq(s1, s2) && text_eq(d1, d2) && text_eq(r1, r2),
            _ => false,
        }
    }

    /// A copy of the target.
    pub fn duplicate(&self) -> (r: PreviewTarget)
        ensures
            r@ == self@,
    {
        match self {
            PreviewTarget::Directory(p) => PreviewTarget::Directory(p.clone()),
            PreviewTarget::File(p) => PreviewTarget::File(p.clone()),
            PreviewTarget::LineInFile { path, line_number } => PreviewTarget::LineInFile {
                path: path.clone(),
                line_number: *line_number,
            },
            PreviewTarget::GitCommit(r) => PreviewTarget::GitCommit(r.clone()),
            PreviewTarget::HelpTags { subject, doc_filename, runtimepath } => PreviewTarget::HelpTags {
                subject: subject.clone(),
                doc_filename: doc_filename.clone(),
                runtimepath: runtimepath.clone(),
            },
        }
    }
}

/// How each provider's result lines are read.
#[derive(PartialEq, Eq, Structural, Clone, Copy, Debug)]
pub enum ProviderKind {
    /// A path relative to the working directory.
    RelativeFile,
    /// A path taken as it stands.
    PlainFile,
    /// A path relative to the working directory, or to home after `~/`.
    HistoryFile,
    /// A grep record `path:line:column:text`.
    GrepRecord,
    /// A jump listing `[kind]path:line:column:...`.
    JumpRecord,
    /// A line number of the buffer that was open when the session started.
    BufferLine,
    /// A tag of that buffer, `name:line ...`.
    BufferTag,
    /// A project tag, `name:line ... [kind@path]`.
    ProjectTag,
    /// A commit listing with a revision after a date.
    Commit,
}

/// The provider table: which providers can be previewed, and how their lines read.
pub open spec fn provider_kind(id: Seq<char>) -> Option<ProviderKind> {
    if id == "files"@ || id == "git_files"@ {
        Some(ProviderKind::RelativeFile)
    } else if id == "recent_files"@ {
        Some(ProviderKind::PlainFile)
    } else if id == "history"@ {
        Some(ProviderKind::HistoryFile)
    } else if id == "coc_location"@ || id == "grep"@ || id == "live_grep"@ || id == "igrep"@ {
        Some(ProviderKind::GrepRecord)
    } else if id == "dumb_jump"@ {
        Some(ProviderKind::JumpRecord)
    } else if id == "blines"@ {
        Some(ProviderKind::BufferLine)
    } else if id == "tags"@ {
        Some(ProviderKind::BufferTag)
    } else if id == "proj_tags"@ {
        Some(ProviderKind::ProjectTag)
    } else if id == "commits"@ || id == "bcommits"@ {
        Some(ProviderKind::Commit)
    } else {
        None
    }
}

/// Looks a provider up in the table.
pub fn lookup_provider(id: &str) -> (r: Option<ProviderKind>)
    ensures
        r == provider_kind(id@),
{
    if text_eq(id, "files") || text_eq(id, "git_files") {
        Some(ProviderKind::RelativeFile)
    } else if text_eq(id, "recent_files") {
        Some(ProviderKind::PlainFile)
    } else if text_eq(id, "history") {
        Some(ProviderKind::HistoryFile)
    } else if text_eq(id, "coc_location") || text_eq(id, "grep") || text_eq(id, "live_grep")
        || text_eq(id, "igrep") {
        Some(ProviderKind::GrepRecord)
    } else if text_eq(id, "dumb_jump") {
        Some(ProviderKind::JumpRecord)
    } else if text_eq(id, "blines") {
        Some(ProviderKind::BufferLine)
    } else if text_eq(id, "tags") {
        Some(ProviderKind::BufferTag)
    } else if text_eq(id, "proj_tags") {
        Some(ProviderKind::ProjectTag)
    } else if text_eq(id, "commits") || text_eq(id, "bcommits") {
        Some(ProviderKind::Commit)
    } else {
        None
    }
}

/// Providers whose preview header shows the path relative to the working
/// directory when the host can title the preview window itself.
pub open spec fn cwd_relative_provider(id: Seq<char>) -> bool {
    id == "files"@ || id == "git_files"@ || id == "grep"@ || id == "live_grep"@
        || id == "coc_location"@ || id == "dumb_jump"@ || id == "proj_tags"@
}

/// Returns `true` if the previewed path should be shown relative to the working directory.
pub fn should_truncate_cwd_relative(provider_id: &str) -> (r: bool)
    ensures
        r == cwd_relative_provider(provider_id@),
{
    text_eq(provider_id, "files") || text_eq(provider_id, "git_files") || text_eq(
        provider_id,
        "grep",
    ) || text_eq(provider_id, "live_grep") || text_eq(provider_id, "coc_location") || text_eq(
        provider_id,
        "dumb_jump",
    ) || text_eq(provider_id, "proj_tags")
}

/// `base` joined with `p`: `p` itself when it is absolute or `base` is empty,
/// else the two with one separator between them.
pub open spec fn join_path(base: Seq<char>, p: Seq<char>) -> Seq<char> {
    if p.len() > 0 && p[0] == '/' {
        p
    } else if base.len() == 0 {
        p
    } else if base.last() == '/' {
        base + p
    } else {
        base + seq!['/'] + p
    }
}

pub fn join(base: &str, p: &[char]) -> (r: String)
    ensures
        r@ == join_path(base@, p@),
{
    if p.len() > 0 && p[0] == '/' {
        let mut r = String::new();
        push_chars(&mut r, p);
        assert(r@ =~= p@);
        return r;
    }
    let b = chars_of(base);
    let mut r = String::new();
    push_chars(&mut r, b.as_slice());
    if b.len() > 0 && b[b.len() - 1] != '/' {
        crate::text::push_char(&mut r, '/');
    }
    push_chars(&mut r, p);
    assert(r@ =~= join_path(base@, p@));
    r
}

/// A path from the history: under home when it starts with `~/`, as it
/// stands otherwise when it starts with `~`, else under the working directory.
pub open spec fn history_path(line: Seq<char>, cwd: Seq<char>, home: Seq<char>) -> Seq<char> {
    if line.len() > 0 && line[0] == '~' {
        if line.len() > 1 && line[1] == '/' {
            join_path(home, line.skip(2))
        } else {
            line
        }
    } else {
        join_path(cwd, line)
    }
}

/// A grep path without a leading `./`.
pub open spec fn strip_dot_slash(p: Seq<char>) -> Seq<char> {
    if p.len() >= 2 && p[0] == '.' && p[1] == '/' {
        p.skip(2)
    } else {
        p
    }
}

/// What resolution reads from the session besides the line.
#[derive(Debug, Clone)]
pub struct ResolveEnv {
    pub cwd: String,
    pub home: String,
    /// The buffer that was open when the session started.
    pub start_buffer_path: String,
}

/// Why a line could not be resolved into a target.
#[derive(Debug, Clone, PartialEq, Eq)]
pub enum ResolveError {
    /// The provider is not in the table.
    UnknownProvider { provider_id: String, line: String },
    /// The line does not have the shape that the provider writes.
    MalformedLine { provider_id: String, line: String },
}

pub enum ResolveErrorView {
    UnknownProvider { provider_id: Seq<char>, line: Seq<char> },
    MalformedLine { provider_id: Seq<char>, line: Seq<char> },
}

impl View for ResolveError {
    type V = ResolveErrorView;

    open spec fn view(&self) -> ResolveErrorView {
        match self {
            ResolveError::UnknownProvider { provider_id, line } => ResolveErrorView::UnknownProvider {
                provider_id: provider_id@,
                line: line@,
            },
            ResolveError::MalformedLine { provider_id, line } => ResolveErrorView::MalformedLine {
                provider_id: provider_id@,
                line: line@,
            },
        }
    }
}

/// The target that a provider's line denotes, with the line text that the
/// result showed, kept to notice a stale cache; `None` where the line does not
/// have the provider's shape.
pub open spec fn spec_target_of(
    kind: ProviderKind,
    line: Seq<char>,
    cwd: Seq<char>,
    home: Seq<char>,
    buffer: Seq<char>,
) -> Option<(TargetView, Option<Seq<char>>)> {
    match kind {
        ProviderKind::RelativeFile => Some((TargetView::File(join_path(cwd, line)), None)),
        ProviderKind::PlainFile => Some((TargetView::File(line), None)),
        ProviderKind::HistoryFile => Some((TargetView::File(history_path(line, cwd, home)), None)),
        ProviderKind::GrepRecord => match spec_grep_position(line) {
            Some(f) => Some(
                (
                    TargetView::LineInFile {
                        path: join_path(cwd, strip_dot_slash(f.path)),
                        line_number: f.line,
                    },
                    Some(f.text),
                ),
            ),
            None => None,
        },
        ProviderKind::JumpRecord => match spec_jump_line(line) {
            Some((_kind, f)) => Some(
                (TargetView::LineInFile { path: join_path(cwd, f.path), line_number: f.line }, None),
            ),
            None => None,
        },
        ProviderKind::BufferLine => match spec_blines_lnum(line) {
            Some(n) => Some((TargetView::LineInFile { path: buffer, line_number: n }, None)),
            None => None,
        },
        ProviderKind::BufferTag => match spec_buf_tags_lnum(line) {
            Some(n) => Some((TargetView::LineInFile { path: buffer, line_number: n }, None)),
            None => None,
        },
        ProviderKind::ProjectTag => match spec_proj_tags(line) {
            Some((n, p)) => Some(
                (TargetView::LineInFile { path: join_path(cwd, p), line_number: n }, None),
            ),
            None => None,
        },
        ProviderKind::Commit => match spec_commit_rev(line) {
            Some(rev) => Some((TargetView::GitCommit(rev), None)),
            None => None,
        },
    }
}

/// Resolution of a line of the provider `id`.
pub open spec fn spec_resolve(
    id: Seq<char>,
    line: Seq<char>,
    cwd: Seq<char>,
    home: Seq<char>,
    buffer: Seq<char>,
) -> Result<(TargetView, Option<Seq<char>>), ResolveErrorView> {
    match provider_kind(id) {
        None => Err(ResolveErrorView::UnknownProvider { provider_id: id, line }),
        Some(kind) => match spec_target_of(kind, line, cwd, home, buffer) {
            Some(r) => Ok(r),
            None => Err(ResolveErrorView::MalformedLine { provider_id: id, line }),
        },
    }
}

pub open spec fn resolved_view(r: Result<(PreviewTarget, Option<String>), ResolveError>) -> Result<
    (TargetView, Option<Seq<char>>),
    ResolveErrorView,
> {
    match r {
        Ok((t, Some(s))) => Ok((t@, Some(s@))),
        Ok((t, None)) => Ok((t@, None)),
        Err(e) => Err(e@),
    }
}

pub open spec fn env_resolve(
    id: Seq<char>,
    line: Seq<char>,
    env: ResolveEnv,
) -> Result<(TargetView, Option<Seq<char>>), ResolveErrorView> {
    spec_resolve(id, line, env.cwd@, env.home@, env.start_buffer_path@)
}

fn string_of(cs: &[char]) -> (r: String)
    ensures
        r@ == cs@,
{
    let mut r = String::new();
    push_chars(&mut r, cs);
    assert(r@ =~= cs@);
    r
}

fn target_of(kind: ProviderKind, line: &str, env: &ResolveEnv) -> (r: Option<
    (PreviewTarget, Option<String>),
>)
    ensures
        match spec_target_of(kind, line@, env.cwd@, env.home@, env.start_buffer_path@) {
            Some((t, c)) => r matches Some((rt, rc)) && rt@ == t && match c {
                Some(x) => rc matches Some(y) && y@ == x,
                None => rc is None,
            },
            None => r is None,
        },
{
    let cs = chars_of(line);
    match kind {
        ProviderKind::RelativeFile => Some(
            (PreviewTarget::File(join(env.cwd.as_str(), cs.as_slice())), None),
        ),
        ProviderKind::PlainFile => Some((PreviewTarget::File(line.to_owned()), None)),
        ProviderKind::HistoryFile => {
            let p = if cs.len() > 0 && cs[0] == '~' {
                if cs.len() > 1 && cs[1] == '/' {
                    let rest = vstd::slice::slice_subrange(cs.as_slice(), 2, cs.len());
                    assert(rest@ =~= line@.skip(2));
                    join(env.home.as_str(), rest)
                } else {
                    line.to_owned()
                }
            } else {
                join(env.cwd.as_str(), cs.as_slice())
            };
            Some((PreviewTarget::File(p), None))
        },
        ProviderKind::GrepRecord => match grep_position(&cs) {
            Some(pos) => {
                let path = vstd::slice::slice_subrange(cs.as_slice(), 0, pos.path_end);
                let path = if path.len() >= 2 && path[0] == '.' && path[1] == '/' {
                    vstd::slice::slice_subrange(path, 2, path.len())
                } else {
                    path
                };
                assert(path@ =~= strip_dot_slash(line@.take(pos.path_end as int)));
                let text = vstd::slice::slice_subrange(cs.as_slice(), pos.text_start, cs.len());
                assert(text@ =~= line@.skip(pos.text_start as int));
                Some(
                    (
                        PreviewTarget::LineInFile {
                            path: join(env.cwd.as_str(), path),
                            line_number: pos.line,
                        },
                        Some(string_of(text)),
                    ),
                )
            },
            None => None,
        },
        ProviderKind::JumpRecord => match jump_line(&cs) {
            Some((_q, rest, pos)) => {
                let path = vstd::slice::slice_subrange(rest.as_slice(), 0, pos.path_end);
                assert(path@ =~= rest@.take(pos.path_end as int));
                Some(
                    (
                        PreviewTarget::LineInFile {
                            path: join(env.cwd.as_str(), path),
                            line_number: pos.line,
                        },
                        None,
                    ),
                )
            },
            None => None,
        },
        ProviderKind::BufferLine => match blines_lnum(&cs) {
            Some(n) => Some(
                (
                    PreviewTarget::LineInFile {
                        path: env.start_buffer_path.clone(),
                        line_number: n,
                    },
                    None,
                ),
            ),
            None => None,
        },
        ProviderKind::BufferTag => match first_colon_number(&cs) {
            Some((n, _e)) => Some(
                (
                    PreviewTarget::LineInFile {
                        path: env.start_buffer_path.clone(),
                        line_number: n,
                    },
                    None,
                ),
            ),
            None => None,
        },
        ProviderKind::ProjectTag => match proj_tags(&cs) {
            Some((n, p)) => Some(
                (
                    PreviewTarget::LineInFile {
                        path: join(env.cwd.as_str(), p.as_slice()),
                        line_number: n,
                    },
                    None,
                ),
            ),
            None => None,
        },
        ProviderKind::Commit => match commit_rev(&cs) {
            Some(rev) => Some((PreviewTarget::GitCommit(string_of(rev.as_slice())), None)),
            None => None,
        },
    }
}

/// Resolves a provider's result line into the target to preview, and the
/// line text that the result showed where the provider reports one.
pub fn parse_preview_target(curline: &str, provider_id: &str, env: &ResolveEnv) -> (r: Result<
    (PreviewTarget, Option<String>),
    ResolveError,
>)
    ensures
        resolved_view(r) == env_resolve(provider_id@, curline@, *env),
{
    match lookup_provider(provider_id) {
        None => Err(
            ResolveError::UnknownProvider {
                provider_id: provider_id.to_owned(),
                line: curline.to_owned(),
            },
        ),
        Some(kind) => match target_of(kind, curline, env) {
            Some(r) => Ok(r),
            None => Err(
                ResolveError::MalformedLine {
                    provider_id: provider_id.to_owned(),
                    line: curline.to_owned(),
                },
            ),
        },
    }
}

/// Resolution is a function of its inputs: two resolutions of the same line,
/// provider and session agree. A provider outside the table always fails,
/// naming the provider and the line; one that reads paths never fails.
pub proof fn lemma_resolution_deterministic(
    r1: Result<(PreviewTarget, Option<String>), ResolveError>,
    r2: Result<(PreviewTarget, Option<String>), ResolveError>,
    provider_id: Seq<char>,
    line: Seq<char>,
    env: ResolveEnv,
)
    requires
        resolved_view(r1) == env_resolve(provider_id, line, env),
        resolved_view(r2) == env_resolve(provider_id, line, env),
    ensures
        resolved_view(r1) == resolved_view(r2),
        provider_kind(provider_id) is None ==> resolved_view(r1) == Err::<
            (TargetView, Option<Seq<char>>),
            ResolveErrorView,
        >(ResolveErrorView::UnknownProvider { provider_id, line }),
        provider_kind(provider_id) matches Some(k) && (k == ProviderKind::RelativeFile || k
            == ProviderKind::PlainFile || k == ProviderKind::HistoryFile) ==> resolved_view(
            r1,
        ) is Ok,
{
}

pub open spec fn unknown_prefix() -> Seq<char> {
    "Failed to parse PreviewTarget, you probably forget to add an implementation for this provider: "@
}

pub open spec fn malformed_prefix() -> Seq<char> {
    "Failed to parse PreviewTarget for provider_id: "@
}

pub open spec fn error_message(e: ResolveErrorView) -> Seq<char> {
    match e {
        ResolveErrorView::UnknownProvider { provider_id, line } => unknown_prefix() + provider_id
            + " from `"@ + line + "`"@,
        ResolveErrorView::MalformedLine { provider_id, line } => malformed_prefix() + provider_id
            + " from `"@ + line + "`"@,
    }
}

impl ResolveError {
    /// A sentence that names the provider and the line.
    pub fn message(&self) -> (r: String)
        ensures
            r@ == error_message(self@),
    {
        let (mut s, id, line) = match self {
            ResolveError::UnknownProvider { provider_id, line } => (
                String::from_str(
                    "Failed to parse PreviewTarget, you probably forget to add an implementation for this provider: ",
                ),
                provider_id,
                line,
            ),
            ResolveError::MalformedLine { provider_id, line } => (
                String::from_str("Failed to parse PreviewTarget for provider_id: "),
                provider_id,
                line,
            ),
        };
        s.append(id.as_str());
        s.append(" from `");
        s.append(line.as_str());
        s.append("`");
        s
    }
}

} // verus!
