//! Reading the host target triple out of the compiler's `-vV` self-report.

use vstd::prelude::*;

verus! {

/// The key that starts the line of the self-report that names the host.
pub open spec fn host_key() -> Seq<char> {
    seq!['h', 'o', 's', 't', ':', ' ']
}

/// The text split into lines at each `'\n'`, as `str::split("\n")` does:
/// the empty text is one empty line, and a trailing `'\n'` ends in an empty line.
pub open spec fn split_lines(s: Seq<char>) -> Seq<Seq<char>>
    decreases s.len(),
{
    if s.len() == 0 {
        seq![Seq::<char>::empty()]
    } else {
        let init = split_lines(s.drop_last());
        if s.last() == '\n' {
            init.push(Seq::<char>::empty())
        } else {
            init.update(init.len() - 1, init.last().push(s.last()))
        }
    }
}

/// A line that starts with `host: `.
pub open spec fn is_host_line(line: Seq<char>) -> bool {
    line.len() >= host_key().len() && line.subrange(0, host_key().len() as int) == host_key()
}

/// What follows `host: ` on the last host line of `lines`, if there is one.
pub open spec fn last_host_value(lines: Seq<Seq<char>>) -> Option<Seq<char>>
    decreases lines.len(),
{
    if lines.len() == 0 {
        None
    } else if is_host_line(lines.last()) {
        Some(lines.last().subrange(host_key().len() as int, lines.last().len() as int))
    } else {
        last_host_value(lines.drop_last())
    }
}

/// The host triple that a self-report names: the rest of its last host line.
pub open spec fn host_triple_of(report: Seq<char>) -> Option<Seq<char>> {
    last_host_value(split_lines(report))
}

/// Why no target triple could be read from a self-report.
#[derive(Debug, Clone, Copy, PartialEq, Eq)]
pub enum ProbeError {
    /// No line of the report starts with `host: `.
    MissingHostLine,
    /// The last host line names no triple.
    EmptyTriple,
}

proof fn lemma_split_lines_nonempty(s: Seq<char>)
    ensures
        split_lines(s).len() >= 1,
    decreases s.len(),
{
    if s.len() > 0 {
        lemma_split_lines_nonempty(s.drop_last());
    }
}

/// Whether the characters `start..end` of `s` begin with `host: `.
fn starts_with_host_key(s: &str, start: usize, end: usize) -> (r: bool)
    requires
        start <= end <= s@.len(),
    ensures
        r == is_host_line(s@.subrange(start as int, end as int)),
{
    if end - start < 6 {
        return false;
    }
    let ok = s.get_char(start) == 'h' && s.get_char(start + 1) == 'o' && s.get_char(start + 2) == 's'
        && s.get_char(start + 3) == 't' && s.get_char(start + 4) == ':' && s.get_char(start + 5)
        == ' ';
    let ghost line = s@.subrange(start as int, end as int);
    if ok {
        assert(line.subrange(0, 6) =~= host_key());
    } else {
        assert(line.subrange(0, 6) != host_key()) by {
            if line.subrange(0, 6) == host_key() {
                assert(line.subrange(0, 6)[0] == 'h');
                assert(line.subrange(0, 6)[1] == 'o');
                assert(line.subrange(0, 6)[2] == 's');
                assert(line.subrange(0, 6)[3] == 't');
                assert(line.subrange(0, 6)[4] == ':');
                assert(line.subrange(0, 6)[5] == ' ');
            }
        }
    }
    ok
}

/// Reads the host target triple out of the text that `rustc -vV` prints.
///
/// The triple is what follows `host: ` on the last line that starts so.
/// A report with no such line, or whose last such line is bare, is an error:
/// an empty triple is never handed back.
pub fn parse_host_triple(report: &str) -> (r: Result<String, ProbeError>)
    ensures
        match host_triple_of(report@) {
            None => r == Err::<String, ProbeError>(ProbeError::MissingHostLine),
            Some(t) => if t.len() == 0 {
                r == Err::<String, ProbeError>(ProbeError::EmptyTriple)
            } else {
                r is Ok && r->Ok_0@ == t
            },
        },
{
    let n = report.unicode_len();
    let mut start: usize = 0;
    let mut i: usize = 0;
    let mut found: Option<(usize, usize)> = None;
    while i < n
        invariant
            n == report@.len(),
            start <= i <= n,
            split_lines(report@.take(i as int)).last() == report@.subrange(start as int, i as int),
            match found {
                None => last_host_value(split_lines(report@.take(i as int)).drop_last()) is None,
                Some((a, b)) => a <= b <= n && last_host_value(
                    split_lines(report@.take(i as int)).drop_last(),
                ) == Some(report@.subrange(a as int, b as int)),
            },
        decreases n - i,
    {
        let ghost before = split_lines(report@.take(i as int));
        proof {
            lemma_split_lines_nonempty(report@.take(i as int));
            assert(report@.take(i + 1).drop_last() =~= report@.take(i as int));
        }
        if report.get_char(i) == '\n' {
            if starts_with_host_key(report, start, i) {
                found = Some((start + 6, i));
                assert(report@.subrange(start as int, i as int).subrange(6, i - start)
                    =~= report@.subrange(start + 6, i as int));
            }
            proof {
                assert(split_lines(report@.take(i + 1)).drop_last() =~= before);
            }
            start = i + 1;
        } else {
            proof {
                assert(split_lines(report@.take(i + 1)).drop_last() =~= before.drop_last());
            }
        }
        i = i + 1;
        assert(split_lines(report@.take(i as int)).last() =~= report@.subrange(start as int, i as int));
    }
    proof {
        assert(report@.take(n as int) =~= report@);
        lemma_split_lines_nonempty(report@);
    }
    if starts_with_host_key(report, start, n) {
        assert(report@.subrange(start as int, n as int).subrange(6, n - start)
            =~= report@.subrange(start + 6, n as int));
        found = Some((start + 6, n));
    }
    match found {
        None => Err(ProbeError::MissingHostLine),
        Some((a, b)) => {
            if a == b {
                Err(ProbeError::EmptyTriple)
            } else {
                Ok(String::from_str(report.substring_char(a, b)))
            }
        },
    }
}

} // verus!
