use vstd::prelude::*;
use vstd::string::StrSliceExecFns;
use vstd::string::StringExecFns;

use crate::strs::str_eq;
use crate::urls::spec_valid_file_url;
use crate::urls::try_file_url;
use crate::urls::url_str_of;

verus! {

/// Position of the first newline at or after `start`, or the length of the
/// text when there is none.
pub open spec fn next_nl(s: Seq<char>, start: int) -> int
    decreases s.len() - start when 0 <= start <= s.len()
{
    if start >= s.len() {
        s.len() as int
    } else if s[start] == '\n' {
        start
    } else {
        next_nl(s, start + 1)
    }
}

pub proof fn lemma_next_nl(s: Seq<char>, start: int)
    requires
        0 <= start <= s.len(),
    ensures
        start <= next_nl(s, start) <= s.len(),
        forall|j: int| start <= j < next_nl(s, start) ==> s[j] != '\n',
        next_nl(s, start) < s.len() ==> s[next_nl(s, start)] == '\n',
    decreases s.len() - start,
{
    if start < s.len() && s[start] != '\n' {
        lemma_next_nl(s, start + 1);
    }
}

/// `next_nl` is the one position that has no newline before it within the
/// line and a newline (or the end of the text) at it.
pub proof fn lemma_next_nl_unique(s: Seq<char>, start: int, j: int)
    requires
        0 <= start <= j <= s.len(),
        forall|k: int| start <= k < j ==> s[k] != '\n',
        j < s.len() ==> s[j] == '\n',
    ensures
        next_nl(s, start) == j,
    decreases j - start,
{
    if start < j {
        lemma_next_nl_unique(s, start + 1, j);
    }
}

/// One trailing carriage return is dropped from a line, as the original
/// line-oriented format allows Windows-style endings.
pub open spec fn strip_cr(l: Seq<char>) -> Seq<char> {
    if l.len() > 0 && l.last() == '\r' {
        l.drop_last()
    } else {
        l
    }
}

/// The lines of the text from position `start` on: split at newlines, one
/// trailing carriage return removed per line, no final empty line when the
/// text ends with a newline.
pub open spec fn spec_lines(s: Seq<char>, start: int) -> Seq<Seq<char>>
    decreases s.len() - start when 0 <= start via spec_lines_dec
{
    if start >= s.len() {
        seq![]
    } else {
        let nl = next_nl(s, start);
        if nl >= s.len() {
            seq![strip_cr(s.subrange(start, s.len() as int))]
        } else {
            seq![strip_cr(s.subrange(start, nl))] + spec_lines(s, nl + 1)
        }
    }
}

#[via_fn]
proof fn spec_lines_dec(s: Seq<char>, start: int) {
    if 0 <= start && start < s.len() {
        lemma_next_nl(s, start);
    }
}

/// The views of a sequence of strings.
pub open spec fn str_views(s: Seq<String>) -> Seq<Seq<char>> {
    s.map_values(|l: String| l@)
}

/// Split a text into its lines: at newlines, dropping one trailing carriage
/// return per line; a trailing newline does not open a final empty line.
pub fn split_lines(data: &str) -> (r: Vec<String>)
    ensures
        str_views(r@) == spec_lines(data@, 0),
{
    let ghost s = data@;
    let n = data.unicode_len();
    let mut out: Vec<String> = Vec::new();
    let mut start: usize = 0;
    proof {
        assert(str_views(out@) + spec_lines(s, 0) =~= spec_lines(s, 0));
    }
    while start < n
        invariant
            s == data@,
            n == s.len(),
            start <= n + 1,
            str_views(out@) + spec_lines(s, start as int) =~= spec_lines(s, 0),
        decreases n - start,
    {
        let mut j = start;
        while j < n && data.get_char(j) != '\n'
            invariant
                s == data@,
                n == s.len(),
                start <= j <= n,
                forall|k: int| start <= k < j ==> s[k] != '\n',
            decreases n - j,
        {
            j += 1;
        }
        proof {
            lemma_next_nl_unique(s, start as int, j as int);
        }
        let mut end = j;
        if end > start && data.get_char(end - 1) == '\r' {
            end -= 1;
        }
        let line = data.substring_char(start, end);
        proof {
            let raw = s.subrange(start as int, j as int);
            if j > start && s[j - 1] == '\r' {
                assert(raw.last() == s[j - 1]);
                assert(raw.drop_last() =~= s.subrange(start as int, end as int));
            } else {
                if raw.len() > 0 {
                    assert(raw.last() == s[j - 1]);
                }
                assert(raw =~= s.subrange(start as int, end as int));
            }
            assert(strip_cr(raw) == s.subrange(start as int, end as int));
        }
        let owned = String::from_str(line);
        proof {
            let ghost old_out = out@;
            assert(str_views(old_out.push(owned)) =~= str_views(old_out).push(owned@));
            if j < n {
                assert(spec_lines(s, start as int) =~= seq![strip_cr(
                    s.subrange(start as int, j as int),
                )] + spec_lines(s, j + 1));
            } else {
                assert(spec_lines(s, start as int) =~= seq![strip_cr(
                    s.subrange(start as int, j as int),
                )]);
                assert(spec_lines(s, j + 1) =~= Seq::<Seq<char>>::empty());
            }
        }
        out.push(owned);
        if j < n {
            start = j + 1;
        } else {
            start = n;
        }
        proof {
            if j >= n {
                assert(spec_lines(s, start as int) =~= Seq::<Seq<char>>::empty());
            }
            assert(str_views(out@) + spec_lines(s, start as int) =~= spec_lines(s, 0));
        }
    }
    proof {
        assert(spec_lines(s, start as int) =~= Seq::<Seq<char>>::empty());
        assert(str_views(out@) =~= spec_lines(s, 0));
    }
    out
}

/// The first line of a copied-files payload must be exactly this action token.
pub open spec fn spec_is_action(l: Seq<char>) -> bool {
    l == "copy"@ || l == "cut"@
}

/// The first valid local-file URL among the candidate lines from index `k`
/// on, as normalized URL text.
pub open spec fn spec_first_valid(ls: Seq<Seq<char>>, k: int) -> Option<Seq<char>>
    decreases ls.len() - k when 0 <= k
{
    if k >= ls.len() {
        None
    } else if spec_valid_file_url(ls[k]) {
        Some(url_str_of(ls[k]))
    } else {
        spec_first_valid(ls, k + 1)
    }
}

/// All valid local-file URLs among the candidate lines from index `k` on, in
/// input order, as normalized URL text.
pub open spec fn spec_valid_urls(ls: Seq<Seq<char>>, k: int) -> Seq<Seq<char>>
    decreases ls.len() - k when 0 <= k
{
    if k >= ls.len() {
        seq![]
    } else if spec_valid_file_url(ls[k]) {
        seq![url_str_of(ls[k])] + spec_valid_urls(ls, k + 1)
    } else {
        spec_valid_urls(ls, k + 1)
    }
}

/// The first valid entry is the head of the valid-entry list.
pub proof fn lemma_first_valid_is_head(ls: Seq<Seq<char>>, k: int)
    requires
        0 <= k,
    ensures
        spec_valid_urls(ls, k).len() == 0 <==> spec_first_valid(ls, k) is None,
        spec_valid_urls(ls, k).len() > 0 ==> spec_first_valid(ls, k) == Some(
            spec_valid_urls(ls, k)[0],
        ),
    decreases ls.len() - k,
{
    if k < ls.len() {
        lemma_first_valid_is_head(ls, k + 1);
    }
}

/// What the files-as-text fix parses from a copied-files payload: when the
/// first line is exactly `copy` or `cut`, the valid local-file URLs of the
/// remaining lines in input order, and otherwise nothing.
pub open spec fn spec_nautilus_urls(s: Seq<char>) -> Seq<Seq<char>> {
    let ls = spec_lines(s, 0);
    if ls.len() == 0 {
        seq![]
    } else if !spec_is_action(ls[0]) {
        seq![]
    } else {
        spec_valid_urls(ls, 1)
    }
}

/// What the files-as-text fix synthesizes from a copied-files payload: the
/// first of the parsed URLs, when there is one.
pub open spec fn spec_nautilus_url(s: Seq<char>) -> Option<Seq<char>> {
    let ls = spec_lines(s, 0);
    if ls.len() == 0 {
        None
    } else if !spec_is_action(ls[0]) {
        None
    } else {
        spec_first_valid(ls, 1)
    }
}

/// The synthesized entry is the head of the parsed URL list.
pub proof fn lemma_nautilus_url_is_head(s: Seq<char>)
    ensures
        spec_nautilus_urls(s).len() == 0 <==> spec_nautilus_url(s) is None,
        spec_nautilus_urls(s).len() > 0 ==> spec_nautilus_url(s) == Some(spec_nautilus_urls(s)[0]),
{
    lemma_first_valid_is_head(spec_lines(s, 0), 1);
}

/// Parse a copied-files payload: when the first line is exactly `copy` or
/// `cut`, return the normalized URL text of every following line that is a
/// valid local-file URL, in input order; lines that fail to parse, use
/// another scheme, or do not convert to a local path are silently skipped,
/// and any other first line makes the whole payload a no-op.  Whether the
/// referenced paths exist on disk is not consulted: the rule is pure, and the
/// receiving application resolves the URLs later.
pub fn parse_nautilus_clipboard(data: &str) -> (r: Vec<String>)
    ensures
        str_views(r@) == spec_nautilus_urls(data@),
{
    let ghost lv = spec_lines(data@, 0);
    let mut out: Vec<String> = Vec::new();
    let lines = split_lines(data);
    if lines.len() == 0 {
        proof {
            assert(str_views(out@) =~= spec_nautilus_urls(data@));
        }
        return out;
    }
    let is_action = str_eq(lines[0].as_str(), "copy") || str_eq(lines[0].as_str(), "cut");
    proof {
        assert(lines@[0]@ == lv[0]);
    }
    if !is_action {
        proof {
            assert(str_views(out@) =~= spec_nautilus_urls(data@));
        }
        return out;
    }
    let mut k: usize = 1;
    while k < lines.len()
        invariant
            lv == spec_lines(data@, 0),
            str_views(lines@) == lv,
            spec_is_action(lv[0]),
            0 < lv.len(),
            1 <= k <= lines@.len(),
            str_views(out@) + spec_valid_urls(lv, k as int) =~= spec_valid_urls(lv, 1),
        decreases lines@.len() - k,
    {
        proof {
            assert(lines@[k as int]@ == lv[k as int]);
        }
        match try_file_url(lines[k].as_str()) {
            Some(u) => {
                let ghost old_out = out@;
                out.push(u);
                proof {
                    assert(str_views(old_out.push(u)) =~= str_views(old_out).push(u@));
                }
            },
            None => {},
        }
        k += 1;
    }
    proof {
        assert(spec_valid_urls(lv, k as int) =~= Seq::<Seq<char>>::empty());
        assert(str_views(out@) =~= spec_valid_urls(lv, 1));
    }
    out
}

} // verus!
