//! The grammar of provider result lines: the numbers, paths and revisions
//! that each provider writes into the lines it produces.
use vstd::prelude::*;

verus! {

pub open spec fn is_digit(c: char) -> bool {
    '0' <= c && c <= '9'
}

pub open spec fn digit_value(c: char) -> nat {
    (c as u32 - '0' as u32) as nat
}

/// Length of the run of decimal digits that starts at `i`.
pub open spec fn digit_run(s: Seq<char>, i: int) -> nat
    decreases s.len() - i,
{
    if 0 <= i < s.len() && is_digit(s[i]) {
        1 + digit_run(s, i + 1)
    } else {
        0
    }
}

/// Value of a sequence of decimal digits.
pub open spec fn digits_value(d: Seq<char>) -> nat
    decreases d.len(),
{
    if d.len() == 0 {
        0
    } else {
        digits_value(d.drop_last()) * 10 + digit_value(d.last())
    }
}

/// The number written at `i`, and the index just past it: at least one digit,
/// and a value that fits in `usize`.
pub open spec fn number_at(s: Seq<char>, i: int) -> Option<(nat, int)> {
    let n = digit_run(s, i);
    let v = digits_value(s.subrange(i, i + n));
    if n == 0 || v > usize::MAX {
        None
    } else {
        Some((v, i + n))
    }
}

proof fn lemma_digit_run_step(s: Seq<char>, i: int)
    requires
        0 <= i < s.len(),
        is_digit(s[i]),
    ensures
        digit_run(s, i) == 1 + digit_run(s, i + 1),
{
}

proof fn lemma_digit_run_bound(s: Seq<char>, i: int)
    requires
        0 <= i <= s.len(),
    ensures
        i + digit_run(s, i) <= s.len(),
    decreases s.len() - i,
{
    if i < s.len() && is_digit(s[i]) {
        lemma_digit_run_bound(s, i + 1);
    }
}

/// The number written at `i` of `cs`.
pub fn parse_number_at(cs: &Vec<char>, i: usize) -> (r: Option<(usize, usize)>)
    ensures
        match number_at(cs@, i as int) {
            Some((v, e)) => r == Some((v as usize, e as usize)) && e <= cs@.len(),
            None => r is None,
        },
        r matches Some((v, e)) ==> i < e <= cs@.len(),
{
    let ghost s = cs@;
    if i > cs.len() {
        return None;
    }
    let mut j: usize = i;
    let mut v: usize = 0;
    let mut overflow = false;
    proof {
        assert(s.subrange(i as int, i as int) =~= Seq::<char>::empty());
    }
    while j < cs.len() && '0' <= cs[j] && cs[j] <= '9'
        invariant
            i <= j <= s.len(),
            cs@ == s,
            digit_run(s, i as int) == (j - i) + digit_run(s, j as int),
            !overflow ==> v as nat == digits_value(s.subrange(i as int, j as int)),
            overflow ==> digits_value(s.subrange(i as int, j as int)) > usize::MAX,
        decreases s.len() - j,
    {
        proof {
            lemma_digit_run_step(s, j as int);
            assert(s.subrange(i as int, j + 1) =~= s.subrange(i as int, j as int).push(s[j as int]));
            assert(s.subrange(i as int, j + 1).drop_last() =~= s.subrange(i as int, j as int));
        }
        let d = (cs[j] as u32 - '0' as u32) as usize;
        if !overflow {
            if v > (usize::MAX - d) / 10 {
                overflow = true;
                assert(v * 10 + d > usize::MAX) by (nonlinear_arith)
                    requires v > (usize::MAX - d) / 10, d <= 9;
            } else {
                assert(v * 10 + d <= usize::MAX) by (nonlinear_arith)
                    requires v <= (usize::MAX - d) / 10, d <= 9;
                v = v * 10 + d;
            }
        }
        j = j + 1;
    }
    proof {
        lemma_digit_run_bound(s, i as int);
    }
    if j == i || overflow {
        None
    } else {
        Some((v, j))
    }
}

/// Where a grep-shaped record `path:line:column:text` is found in a line.
pub struct GrepFields {
    pub path: Seq<char>,
    pub line: nat,
    pub column: nat,
    pub text: Seq<char>,
}

/// The record read when the path ends at the colon at `i`.
pub open spec fn grep_at(s: Seq<char>, i: int) -> Option<GrepFields> {
    if 0 <= i < s.len() && s[i] == ':' {
        match number_at(s, i + 1) {
            Some((line, j)) => if j < s.len() && s[j] == ':' {
                match number_at(s, j + 1) {
                    Some((column, k)) => if k < s.len() && s[k] == ':' {
                        Some(GrepFields { path: s.take(i), line, column, text: s.skip(k + 1) })
                    } else {
                        None
                    },
                    None => None,
                }
            } else {
                None
            },
            None => None,
        }
    } else {
        None
    }
}

/// The grep record of `s` whose path is the shortest, searching from `i` on.
pub open spec fn first_grep_from(s: Seq<char>, i: int) -> Option<GrepFields>
    decreases s.len() - i,
{
    if i < 0 || i >= s.len() {
        None
    } else if grep_at(s, i) is Some {
        grep_at(s, i)
    } else {
        first_grep_from(s, i + 1)
    }
}

pub open spec fn spec_grep_position(s: Seq<char>) -> Option<GrepFields> {
    first_grep_from(s, 0)
}

/// Exec form of a grep record, as indices into the line.
pub struct GrepPosition {
    pub path_end: usize,
    pub line: usize,
    pub column: usize,
    pub text_start: usize,
}

pub open spec fn grep_matches(p: GrepPosition, s: Seq<char>, f: GrepFields) -> bool {
    &&& p.path_end <= p.text_start <= s.len()
    &&& f.path == s.take(p.path_end as int)
    &&& f.text == s.skip(p.text_start as int)
    &&& f.line == p.line as nat
    &&& f.column == p.column as nat
}

fn grep_record_at(cs: &Vec<char>, i: usize) -> (r: Option<GrepPosition>)
    requires
        i < cs@.len(),
    ensures
        match grep_at(cs@, i as int) {
            Some(f) => r matches Some(p) && grep_matches(p, cs@, f),
            None => r is None,
        },
{
    let n = cs.len();
    if cs[i] != ':' {
        return None;
    }
    match parse_number_at(cs, i + 1) {
        Some((line, j)) => {
            if j < cs.len() && cs[j] == ':' {
                match parse_number_at(cs, j + 1) {
                    Some((column, k)) => {
                        if k < cs.len() && cs[k] == ':' {
                            Some(GrepPosition { path_end: i, line, column, text_start: k + 1 })
                        } else {
                            None
                        }
                    },
                    None => None,
                }
            } else {
                None
            }
        },
        None => None,
    }
}

/// The first grep record of the line `cs`.
pub fn grep_position(cs: &Vec<char>) -> (r: Option<GrepPosition>)
    ensures
        match spec_grep_position(cs@) {
            Some(f) => r matches Some(p) && grep_matches(p, cs@, f),
            None => r is None,
        },
{
    let mut i: usize = 0;
    while i < cs.len()
        invariant
            i <= cs@.len(),
            spec_grep_position(cs@) == first_grep_from(cs@, i as int),
        decreases cs@.len() - i,
    {
        let r = grep_record_at(cs, i);
        if r.is_some() {
            return r;
        }
        i = i + 1;
    }
    None
}

/// Index of the first `c` at or after `i`.
pub open spec fn index_of_from(s: Seq<char>, c: char, i: int) -> Option<int>
    decreases s.len() - i,
{
    if i < 0 || i >= s.len() {
        None
    } else if s[i] == c {
        Some(i)
    } else {
        index_of_from(s, c, i + 1)
    }
}

pub fn find_char(cs: &Vec<char>, c: char, from: usize) -> (r: Option<usize>)
    ensures
        match index_of_from(cs@, c, from as int) {
            Some(k) => r == Some(k as usize) && from <= k < cs@.len(),
            None => r is None,
        },
{
    let mut i: usize = from;
    while i < cs.len()
        invariant
            from <= i,
            index_of_from(cs@, c, from as int) == index_of_from(cs@, c, i as int),
        decreases cs@.len() - i,
    {
        if cs[i] == c {
            return Some(i);
        }
        i = i + 1;
    }
    None
}

/// Index of the first character at or after `i` that is not a space.
pub open spec fn skip_spaces(s: Seq<char>, i: int) -> int
    decreases s.len() - i,
{
    if 0 <= i < s.len() && s[i] == ' ' {
        skip_spaces(s, i + 1)
    } else {
        i
    }
}

pub fn skip_spaces_from(cs: &Vec<char>, from: usize) -> (r: usize)
    requires
        from <= cs@.len(),
    ensures
        r as int == skip_spaces(cs@, from as int),
        from <= r <= cs@.len(),
{
    let mut i: usize = from;
    while i < cs.len() && cs[i] == ' '
        invariant
            from <= i <= cs@.len(),
            skip_spaces(cs@, from as int) == skip_spaces(cs@, i as int),
        decreases cs@.len() - i,
    {
        i = i + 1;
    }
    i
}

/// A jump-listing line: `[kind]` directly followed by a grep record.
pub open spec fn spec_jump_line(s: Seq<char>) -> Option<(Seq<char>, GrepFields)> {
    if s.len() > 0 && s[0] == '[' {
        match index_of_from(s, ']', 1) {
            Some(q) => match spec_grep_position(s.skip(q + 1)) {
                Some(f) => Some((s.subrange(1, q), f)),
                None => None,
            },
            None => None,
        }
    } else {
        None
    }
}

/// Exec form of a jump-listing line: where the kind ends, and the grep record
/// of what follows it.
pub fn jump_line(cs: &Vec<char>) -> (r: Option<(usize, Vec<char>, GrepPosition)>)
    ensures
        match spec_jump_line(cs@) {
            Some((kind, f)) => r matches Some((q, rest, p)) && 1 <= q < cs@.len() && kind
                == cs@.subrange(1, q as int) && rest@ == cs@.skip(q + 1) && grep_matches(
                p,
                rest@,
                f,
            ),
            None => r is None,
        },
{
    if cs.len() == 0 || cs[0] != '[' {
        return None;
    }
    match find_char(cs, ']', 1) {
        Some(q) => {
            let rest = vstd::slice::slice_to_vec(
                vstd::slice::slice_subrange(cs.as_slice(), q + 1, cs.len()),
            );
            assert(rest@ =~= cs@.skip(q + 1));
            match grep_position(&rest) {
                Some(p) => Some((q, rest, p)),
                None => None,
            }
        },
        None => None,
    }
}

/// The line number of a buffer-lines entry: the number after any leading spaces.
pub open spec fn spec_blines_lnum(s: Seq<char>) -> Option<nat> {
    match number_at(s, skip_spaces(s, 0)) {
        Some((v, _e)) => Some(v),
        None => None,
    }
}

pub fn blines_lnum(cs: &Vec<char>) -> (r: Option<usize>)
    ensures
        match spec_blines_lnum(cs@) {
            Some(v) => r == Some(v as usize),
            None => r is None,
        },
{
    let i = skip_spaces_from(cs, 0);
    match parse_number_at(cs, i) {
        Some((v, _e)) => Some(v),
        None => None,
    }
}

/// The first number that directly follows a colon, searching from `i` on,
/// with the index just past it.
pub open spec fn colon_number_from(s: Seq<char>, i: int) -> Option<(nat, int)>
    decreases s.len() - i,
{
    if i < 0 || i >= s.len() {
        None
    } else if s[i] == ':' && number_at(s, i + 1) is Some {
        number_at(s, i + 1)
    } else {
        colon_number_from(s, i + 1)
    }
}

pub fn first_colon_number(cs: &Vec<char>) -> (r: Option<(usize, usize)>)
    ensures
        match colon_number_from(cs@, 0) {
            Some((v, e)) => r == Some((v as usize, e as usize)) && 0 <= e <= cs@.len() && v
                <= usize::MAX,
            None => r is None,
        },
{
    let mut i: usize = 0;
    while i < cs.len()
        invariant
            i <= cs@.len(),
            colon_number_from(cs@, 0) == colon_number_from(cs@, i as int),
        decreases cs@.len() - i,
    {
        if cs[i] == ':' {
            let r = parse_number_at(cs, i + 1);
            if r.is_some() {
                return r;
            }
        }
        i = i + 1;
    }
    None
}

/// The line number of a buffer-tags entry: the first number after a colon.
pub open spec fn spec_buf_tags_lnum(s: Seq<char>) -> Option<nat> {
    match colon_number_from(s, 0) {
        Some((v, _e)) => Some(v),
        None => None,
    }
}

/// A project-tags entry `name:line ... [kind@path]`: the line number, and the
/// path between the first `@` after it and the next `]`.
pub open spec fn spec_proj_tags(s: Seq<char>) -> Option<(nat, Seq<char>)> {
    match colon_number_from(s, 0) {
        Some((v, e)) => match index_of_from(s, '@', e) {
            Some(a) => match index_of_from(s, ']', a + 1) {
                Some(b) => Some((v, s.subrange(a + 1, b))),
                None => None,
            },
            None => None,
        },
        None => None,
    }
}

pub fn proj_tags(cs: &Vec<char>) -> (r: Option<(usize, Vec<char>)>)
    ensures
        match spec_proj_tags(cs@) {
            Some((v, p)) => r matches Some((lnum, path)) && lnum as nat == v && path@ == p,
            None => r is None,
        },
{
    let n = cs.len();
    match first_colon_number(cs) {
        Some((v, e)) => match find_char(cs, '@', e) {
            Some(a) => match find_char(cs, ']', a + 1) {
                Some(b) => {
                    let path = vstd::slice::slice_to_vec(
                        vstd::slice::slice_subrange(cs.as_slice(), a + 1, b),
                    );
                    Some((v, path))
                },
                None => None,
            },
            None => None,
        },
        None => None,
    }
}

pub open spec fn is_rev_char(c: char) -> bool {
    is_digit(c) || ('a' <= c && c <= 'z')
}

/// Length of the run of revision characters that starts at `i`.
pub open spec fn rev_run(s: Seq<char>, i: int) -> nat
    decreases s.len() - i,
{
    if 0 <= i < s.len() && is_rev_char(s[i]) {
        1 + rev_run(s, i + 1)
    } else {
        0
    }
}

/// A date `dddd-dd-dd` written at `i`.
pub open spec fn date_at(s: Seq<char>, i: int) -> bool {
    &&& 0 <= i && i + 10 <= s.len()
    &&& is_digit(s[i]) && is_digit(s[i + 1]) && is_digit(s[i + 2]) && is_digit(s[i + 3])
    &&& s[i + 4] == '-' && is_digit(s[i + 5]) && is_digit(s[i + 6])
    &&& s[i + 7] == '-' && is_digit(s[i + 8]) && is_digit(s[i + 9])
}

/// The revision written after a date at `i`: one or more spaces, then a run of
/// digits and lower-case letters that a space ends.
pub open spec fn rev_after_date(s: Seq<char>, i: int) -> Option<Seq<char>> {
    if date_at(s, i) && i + 10 < s.len() && s[i + 10] == ' ' {
        let r = skip_spaces(s, i + 10);
        let n = rev_run(s, r);
        if n > 0 && r + n < s.len() && s[r + n] == ' ' {
            Some(s.subrange(r, r + n))
        } else {
            None
        }
    } else {
        None
    }
}

pub open spec fn commit_rev_from(s: Seq<char>, i: int) -> Option<Seq<char>>
    decreases s.len() - i,
{
    if i < 0 || i >= s.len() {
        None
    } else if rev_after_date(s, i) is Some {
        rev_after_date(s, i)
    } else {
        commit_rev_from(s, i + 1)
    }
}

/// The revision of a commit-listing line: the one after the first date.
pub open spec fn spec_commit_rev(s: Seq<char>) -> Option<Seq<char>> {
    commit_rev_from(s, 0)
}

fn is_digit_char(c: char) -> (r: bool)
    ensures
        r == is_digit(c),
{
    '0' <= c && c <= '9'
}

fn date_here(cs: &Vec<char>, i: usize) -> (r: bool)
    ensures
        r == date_at(cs@, i as int),
{
    if i > cs.len() || cs.len() - i < 10 {
        return false;
    }
    is_digit_char(cs[i]) && is_digit_char(cs[i + 1]) && is_digit_char(cs[i + 2])
        && is_digit_char(cs[i + 3]) && cs[i + 4] == '-' && is_digit_char(cs[i + 5])
        && is_digit_char(cs[i + 6]) && cs[i + 7] == '-' && is_digit_char(cs[i + 8])
        && is_digit_char(cs[i + 9])
}

fn rev_run_from(cs: &Vec<char>, from: usize) -> (r: usize)
    requires
        from <= cs@.len(),
    ensures
        r as nat == rev_run(cs@, from as int),
        from + r <= cs@.len(),
{
    let mut i: usize = from;
    while i < cs.len() && (is_digit_char(cs[i]) || ('a' <= cs[i] && cs[i] <= 'z'))
        invariant
            from <= i <= cs@.len(),
            rev_run(cs@, from as int) == (i - from) + rev_run(cs@, i as int),
        decreases cs@.len() - i,
    {
        i = i + 1;
    }
    i - from
}

fn rev_here(cs: &Vec<char>, i: usize) -> (r: Option<(usize, usize)>)
    ensures
        match rev_after_date(cs@, i as int) {
            Some(rev) => r matches Some((a, b)) && a <= b <= cs@.len() && rev == cs@.subrange(
                a as int,
                b as int,
            ),
            None => r is None,
        },
{
    let n = cs.len();
    if !date_here(cs, i) || i + 10 >= cs.len() || cs[i + 10] != ' ' {
        return None;
    }
    let r = skip_spaces_from(cs, i + 10);
    let n = rev_run_from(cs, r);
    if n > 0 && r + n < cs.len() && cs[r + n] == ' ' {
        Some((r, r + n))
    } else {
        None
    }
}

pub fn commit_rev(cs: &Vec<char>) -> (r: Option<Vec<char>>)
    ensures
        match spec_commit_rev(cs@) {
            Some(rev) => r matches Some(v) && v@ == rev,
            None => r is None,
        },
{
    let mut i: usize = 0;
    while i < cs.len()
        invariant
            i <= cs@.len(),
            spec_commit_rev(cs@) == commit_rev_from(cs@, i as int),
        decreases cs@.len() - i,
    {
        match rev_here(cs, i) {
            Some((a, b)) => {
                let v = vstd::slice::slice_to_vec(vstd::slice::slice_subrange(cs.as_slice(), a, b));
                return Some(v);
            },
            None => {},
        }
        i = i + 1;
    }
    None
}

} // verus!
