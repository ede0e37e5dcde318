use vstd::prelude::*;
use vstd::string::StrSliceExecFns;
use crate::strutil::contains_seq;
use crate::strutil::str_contains;

verus! {

/// A line with a carriage return dropped from its end, so that `\r\n`
/// endings read like plain `\n` endings.
pub open spec fn strip_cr(line: Seq<char>) -> Seq<char> {
    if line.len() > 0 && line.last() == '\r' {
        line.drop_last()
    } else {
        line
    }
}

/// Walks the text one character at a time: a newline closes the line built
/// so far, and a final line without a newline still counts unless empty.
pub open spec fn lines_acc(s: Seq<char>, cur: Seq<char>, acc: Seq<Seq<char>>) -> Seq<Seq<char>>
    decreases s.len(),
{
    if s.len() == 0 {
        if cur.len() == 0 {
            acc
        } else {
            acc.push(cur)
        }
    } else if s[0] == '\n' {
        lines_acc(s.drop_first(), Seq::empty(), acc.push(strip_cr(cur)))
    } else {
        lines_acc(s.drop_first(), cur.push(s[0]), acc)
    }
}

/// The lines of a text: split at `\n`, a `\r` before the split dropped, and
/// no empty final line for a text that ends in a line ending.
pub open spec fn spec_split_lines(s: Seq<char>) -> Seq<Seq<char>> {
    lines_acc(s, Seq::empty(), Seq::empty())
}

/// Splits fetched log text into its lines, the form the diagnosis engine
/// scans.
pub fn split_log_lines(text: &str) -> (r: Vec<String>)
    ensures
        r.deep_view() == spec_split_lines(text@),
{
    let n = text.unicode_len();
    let mut out: Vec<String> = Vec::new();
    let mut start: usize = 0;
    let mut i: usize = 0;
    proof {
        assert(text@.skip(0) =~= text@);
        assert(text@.subrange(0, 0) =~= Seq::<char>::empty());
        assert(out.deep_view() =~= Seq::<Seq<char>>::empty());
    }
    while i < n
        invariant
            n == text@.len(),
            start <= i <= n,
            lines_acc(text@.skip(i as int), text@.subrange(start as int, i as int), out.deep_view())
                == spec_split_lines(text@),
        decreases n - i,
    {
        let c = text.get_char(i);
        proof {
            assert(text@.skip(i as int)[0] == text@[i as int]);
            assert(text@.skip(i as int).drop_first() =~= text@.skip(i + 1));
        }
        if c == '\n' {
            let line_end = if i > start && text.get_char(i - 1) == '\r' {
                i - 1
            } else {
                i
            };
            let line = text.substring_char(start, line_end);
            proof {
                assert(strip_cr(text@.subrange(start as int, i as int)) =~= text@.subrange(
                    start as int,
                    line_end as int,
                ));
            }
            let ghost prev = out.deep_view();
            out.push(String::from_str(line));
            proof {
                assert(out.deep_view() =~= prev.push(line@));
            }
            start = i + 1;
            i = i + 1;
            proof {
                assert(text@.subrange(start as int, i as int) =~= Seq::<char>::empty());
            }
        } else {
            i = i + 1;
            proof {
                assert(text@.subrange(start as int, i as int) =~= text@.subrange(
                    start as int,
                    i - 1,
                ).push(text@[i - 1]));
            }
        }
    }
    proof {
        assert(text@.skip(n as int) =~= Seq::<char>::empty());
    }
    if start < n {
        let line = text.substring_char(start, n);
        let ghost prev = out.deep_view();
        out.push(String::from_str(line));
        proof {
            assert(out.deep_view() =~= prev.push(line@));
        }
    } else {
        proof {
            assert(text@.subrange(start as int, n as int).len() == 0);
        }
    }
    out
}

/// Whether a log locator points at the GitHub host, which decides whether a
/// bearer token is attached to the fetch.
pub fn logs_host_is_github(logs_uri: &str) -> (r: bool)
    ensures
        r == contains_seq(logs_uri@, "github.com"@),
{
    str_contains(logs_uri, "github.com")
}

} // verus!
