//! The enrichment table format: newline-delimited, tab-separated
//! `key<TAB>value` records.  A line without a tab is skipped; a third and
//! later field is ignored; a trailing carriage return is removed.

use vstd::prelude::*;

verus! {

/// The index of the first occurrence of `c` in `s`, or `s.len()` when `s`
/// does not contain it.
pub open spec fn find_char(s: Seq<char>, c: char) -> nat
    decreases s.len(),
{
    if s.len() == 0 {
        0
    } else if s.first() == c {
        0
    } else {
        1 + find_char(s.drop_first(), c)
    }
}

proof fn lemma_find_char_bounds(s: Seq<char>, c: char)
    ensures
        0 <= find_char(s, c) <= s.len(),
        forall|i: int| 0 <= i < find_char(s, c) ==> s[i] != c,
        find_char(s, c) < s.len() ==> s[find_char(s, c) as int] == c,
    decreases s.len(),
{
    if s.len() > 0 && s.first() != c {
        lemma_find_char_bounds(s.drop_first(), c);
        assert forall|i: int| 0 <= i < find_char(s, c) implies s[i] != c by {
            if i > 0 {
                assert(s.drop_first()[i - 1] == s[i]);
            }
        }
    }
}

proof fn lemma_find_char_step(s: Seq<char>, c: char)
    requires
        s.len() > 0,
        s.first() != c,
    ensures
        find_char(s, c) == 1 + find_char(s.drop_first(), c),
{
}

/// The line with a trailing carriage return removed.
pub open spec fn strip_cr(line: Seq<char>) -> Seq<char> {
    if line.len() > 0 && line.last() == '\r' {
        line.drop_last()
    } else {
        line
    }
}

/// The record a line yields: its first two tab-separated fields, when the
/// line has a tab at all; nothing otherwise.
pub open spec fn record_of_line(line: Seq<char>) -> Seq<(Seq<char>, Seq<char>)> {
    let t = find_char(line, '\t');
    if t < line.len() {
        let rest = line.skip(t + 1 as int);
        let t2 = find_char(rest, '\t');
        seq![(line.take(t as int), rest.take(t2 as int))]
    } else {
        Seq::empty()
    }
}

/// All records of the text: each newline-terminated line (a trailing
/// carriage return removed) contributes its record, in order.
pub open spec fn tsv_records(s: Seq<char>) -> Seq<(Seq<char>, Seq<char>)>
    decreases s.len(),
{
    if s.len() == 0 {
        Seq::empty()
    } else {
        let k = find_char(s, '\n');
        let rest = if k < s.len() {
            s.skip(k + 1 as int)
        } else {
            Seq::<char>::empty()
        };
        record_of_line(strip_cr(s.take(k as int))) + tsv_records(rest)
    }
}

/// The index of the first occurrence of `sep` in `s@` at or after `from`
/// and before `to`, or `to` when that region does not contain it.
fn find_in_range(s: &str, from: usize, to: usize, sep: char) -> (k: usize)
    requires
        from <= to <= s@.len(),
    ensures
        from <= k <= to,
        k - from == find_char(s@.subrange(from as int, to as int), sep),
{
    let mut i = from;
    while i < to
        invariant
            from <= i <= to,
            to <= s@.len(),
            find_char(s@.subrange(from as int, to as int), sep) == i - from + find_char(
                s@.subrange(i as int, to as int),
                sep,
            ),
        decreases to - i,
    {
        let c = s.get_char(i);
        if c == sep {
            proof {
                assert(s@.subrange(i as int, to as int).first() == s@[i as int]);
            }
            return i;
        }
        proof {
            let region = s@.subrange(i as int, to as int);
            assert(region.first() == s@[i as int]);
            lemma_find_char_step(region, sep);
            assert(region.drop_first() =~= s@.subrange(i + 1, to as int));
        }
        i += 1;
    }
    proof {
        assert(s@.subrange(to as int, to as int).len() == 0);
    }
    to
}

/// The record of one line of text, as owned strings.
fn record_of_line_exec(s: &str, from: usize, to: usize) -> (r: Option<(String, String)>)
    requires
        from <= to <= s@.len(),
    ensures
        match r {
            Some(kv) => record_of_line(s@.subrange(from as int, to as int)) == seq![
                (kv.0@, kv.1@),
            ],
            None => record_of_line(s@.subrange(from as int, to as int)) == Seq::<(
                Seq<char>,
                Seq<char>,
            )>::empty(),
        },
{
    let ghost line = s@.subrange(from as int, to as int);
    let t = find_in_range(s, from, to, '\t');
    if t < to {
        let key = String::from_str(s.substring_char(from, t));
        proof {
            assert(key@ =~= line.take(t - from));
            lemma_find_char_bounds(line, '\t');
        }
        let t2 = find_in_range(s, t + 1, to, '\t');
        let val = String::from_str(s.substring_char(t + 1, t2));
        proof {
            assert(line.skip(t - from + 1) =~= s@.subrange(t + 1, to as int));
            assert(val@ =~= line.skip(t - from + 1).take(t2 - (t + 1)));
        }
        Some((key, val))
    } else {
        None
    }
}

/// Every `key<TAB>value` record of the text, in order.  Lines without a
/// tab are skipped; a trailing carriage return on a line is removed.
pub fn parse_tsv(content: &str) -> (r: Vec<(String, String)>)
    ensures
        r.deep_view() == tsv_records(content@),
{
    let n = content.unicode_len();
    let mut out: Vec<(String, String)> = Vec::new();
    let mut pos: usize = 0;
    proof {
        assert(content@.skip(0) =~= content@);
        assert(out.deep_view() + tsv_records(content@) =~= tsv_records(content@));
    }
    while pos < n
        invariant
            pos <= n,
            n == content@.len(),
            out.deep_view() + tsv_records(content@.skip(pos as int)) =~= tsv_records(content@),
        decreases n - pos,
    {
        let ghost region = content@.skip(pos as int);
        let k = find_in_range(content, pos, n, '\n');
        proof {
            assert(region =~= content@.subrange(pos as int, n as int));
            lemma_find_char_bounds(region, '\n');
        }
        let mut line_end = k;
        if line_end > pos && content.get_char(line_end - 1) == '\r' {
            line_end = line_end - 1;
        }
        proof {
            let line = region.take(k - pos);
            assert(line.len() > 0 ==> line.last() == content@[k - 1]);
            assert(strip_cr(line) =~= content@.subrange(pos as int, line_end as int));
        }
        let rec = record_of_line_exec(content, pos, line_end);
        let ghost pre = out.deep_view();
        if let Some(kv) = rec {
            out.push(kv);
        }
        proof {
            let line = region.take(k - pos);
            assert(out.deep_view() =~= pre + record_of_line(strip_cr(line)));
            if k < n {
                assert(region.skip(k - pos + 1) =~= content@.skip(k + 1));
            } else {
                assert(tsv_records(region) == record_of_line(strip_cr(line)) + tsv_records(
                    Seq::<char>::empty(),
                ));
            }
        }
        if k < n {
            pos = k + 1;
        } else {
            pos = n;
            proof {
                assert(content@.skip(n as int).len() == 0);
            }
        }
    }
    proof {
        assert(content@.skip(n as int).len() == 0);
        assert(out.deep_view() + tsv_records(content@.skip(n as int)) =~= out.deep_view());
    }
    out
}

} // verus!
