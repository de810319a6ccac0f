//! Text operations on configuration values: path segments, placeholder
//! substitution, line splitting and the filtering of directory listings.

use vstd::prelude::*;
use vstd::string::*;

verus! {

/// The part of `s` after its last `/` (all of `s` when it holds none).
pub open spec fn last_segment(s: Seq<char>) -> Seq<char>
    decreases s.len(),
{
    if s.len() == 0 {
        s
    } else if s.last() == '/' {
        Seq::empty()
    } else {
        last_segment(s.drop_last()).push(s.last())
    }
}

/// `s` without a trailing `.zip`, where it has one.
pub open spec fn strip_zip(s: Seq<char>) -> Seq<char> {
    if s.len() >= 4 && s.subrange(s.len() - 4, s.len() as int) == ".zip"@ {
        s.subrange(0, s.len() - 4)
    } else {
        s
    }
}

/// The name of a font archive: the last segment of its URL, without `.zip`.
pub open spec fn archive_name_of(url: Seq<char>) -> Seq<char> {
    strip_zip(last_segment(url))
}

proof fn lemma_last_segment_step(s: Seq<char>, j: int)
    requires
        0 < j <= s.len(),
        s[j - 1] != '/',
    ensures
        last_segment(s.take(j)) == last_segment(s.take(j - 1)).push(s[j - 1]),
{
    assert(s.take(j).drop_last() =~= s.take(j - 1));
}

/// The part of `s` after its last `/`.
pub fn last_path_segment(s: &str) -> (r: String)
    ensures
        r@ == last_segment(s@),
{
    let n = s.unicode_len();
    let mut j: usize = n;
    proof {
        assert(s@.take(n as int) =~= s@);
        assert(s@ + s@.subrange(n as int, n as int) =~= s@);
    }
    while j > 0 && s.get_char(j - 1) != '/'
        invariant
            n == s@.len(),
            j <= n,
            last_segment(s@) == last_segment(s@.take(j as int)) + s@.subrange(j as int, n as int),
        decreases j,
    {
        proof {
            lemma_last_segment_step(s@, j as int);
            assert(last_segment(s@.take(j as int - 1)).push(s@[j - 1]) + s@.subrange(
                j as int,
                n as int,
            ) =~= last_segment(s@.take(j as int - 1)) + s@.subrange(j - 1, n as int));
        }
        j = j - 1;
    }
    proof {
        if j > 0 {
            assert(s@.take(j as int).last() == '/');
        } else {
            assert(s@.take(0) =~= Seq::<char>::empty());
        }
        assert(last_segment(s@.take(j as int)) =~= Seq::<char>::empty());
        assert(last_segment(s@) =~= s@.subrange(j as int, n as int));
    }
    String::from_str(s.substring_char(j, n))
}

/// Whether `pat` occurs in `s` starting at position `i`.
pub open spec fn occurs_at(s: Seq<char>, pat: Seq<char>, i: int) -> bool {
    0 <= i && i + pat.len() <= s.len() && s.subrange(i, i + pat.len()) == pat
}

/// Whether `pat` occurs anywhere in `s`.
pub open spec fn occurs_in(s: Seq<char>, pat: Seq<char>) -> bool {
    exists|i: int| occurs_at(s, pat, i)
}

/// `s` with each occurrence of `pat`, read from left to right without
/// overlap, replaced by `rep`.
pub open spec fn replace_all(s: Seq<char>, pat: Seq<char>, rep: Seq<char>) -> Seq<char>
    decreases s.len(),
{
    if pat.len() == 0 || s.len() < pat.len() {
        s
    } else if s.take(pat.len() as int) == pat {
        rep + replace_all(s.skip(pat.len() as int), pat, rep)
    } else {
        seq![s[0]] + replace_all(s.skip(1), pat, rep)
    }
}

/// Whether `pat` occurs in `s` starting at position `i`.
pub fn matches_at(s: &str, pat: &str, i: usize) -> (r: bool)
    ensures
        r == occurs_at(s@, pat@, i as int),
{
    let n = s.unicode_len();
    let m = pat.unicode_len();
    if i > n || m > n - i {
        return false;
    }
    let mut k: usize = 0;
    while k < m
        invariant
            n == s@.len(),
            m == pat@.len(),
            i + m <= n,
            k <= m,
            forall|t: int| 0 <= t < k ==> s@[i + t] == pat@[t],
        decreases m - k,
    {
        if s.get_char(i + k) != pat.get_char(k) {
            assert(s@.subrange(i as int, i + m)[k as int] != pat@[k as int]);
            return false;
        }
        k = k + 1;
    }
    assert(s@.subrange(i as int, i + m) =~= pat@);
    true
}

/// Whether `pat` occurs anywhere in `s`.
pub fn contains_text(s: &str, pat: &str) -> (r: bool)
    ensures
        r == occurs_in(s@, pat@),
{
    let n = s.unicode_len();
    let m = pat.unicode_len();
    if m > n {
        assert forall|i: int| !occurs_at(s@, pat@, i) by {}
        return false;
    }
    if m == 0 {
        assert(s@.subrange(0, 0) =~= pat@);
        assert(occurs_at(s@, pat@, 0));
        return true;
    }
    let mut i: usize = 0;
    while i <= n - m
        invariant
            n == s@.len(),
            m == pat@.len(),
            0 < m <= n,
            i <= n - m + 1,
            forall|t: int| 0 <= t < i ==> !occurs_at(s@, pat@, t),
        decreases n - m + 1 - i,
    {
        if matches_at(s, pat, i) {
            return true;
        }
        i = i + 1;
    }
    assert forall|t: int| !occurs_at(s@, pat@, t) by {
        if 0 <= t && t + m <= n {
            assert(t < i);
        }
    }
    false
}

/// `s` with each occurrence of the non-empty `pat` replaced by `rep`.
pub fn replace_text(s: &str, pat: &str, rep: &str) -> (r: String)
    requires
        pat@.len() > 0,
    ensures
        r@ == replace_all(s@, pat@, rep@),
{
    let n = s.unicode_len();
    let m = pat.unicode_len();
    let mut out = String::new();
    let mut i: usize = 0;
    proof {
        assert(s@.subrange(0, n as int) =~= s@);
    }
    while i < n && m <= n - i
        invariant
            n == s@.len(),
            m == pat@.len(),
            m > 0,
            i <= n,
            replace_all(s@, pat@, rep@) == out@ + replace_all(
                s@.subrange(i as int, n as int),
                pat@,
                rep@,
            ),
        decreases n - i,
    {
        let ghost t = s@.subrange(i as int, n as int);
        if matches_at(s, pat, i) {
            proof {
                assert(t.take(m as int) =~= s@.subrange(i as int, i + m));
                assert(t.skip(m as int) =~= s@.subrange(i + m, n as int));
                assert(out@ + rep@ + replace_all(t.skip(m as int), pat@, rep@) =~= out@ + (rep@
                    + replace_all(t.skip(m as int), pat@, rep@)));
            }
            out.append(rep);
            i = i + m;
        } else {
            proof {
                assert(t.take(m as int) =~= s@.subrange(i as int, i + m));
                assert(t.skip(1) =~= s@.subrange(i + 1, n as int));
                assert(s@.subrange(i as int, i + 1) =~= seq![t[0]]);
                assert(out@ + seq![t[0]] + replace_all(t.skip(1), pat@, rep@) =~= out@ + (seq![
                    t[0],
                ] + replace_all(t.skip(1), pat@, rep@)));
            }
            out.append(s.substring_char(i, i + 1));
            i = i + 1;
        }
    }
    out.append(s.substring_char(i, n));
    out
}

/// `s` without a trailing `.zip`, where it has one.
pub fn strip_zip_suffix(s: &str) -> (r: String)
    ensures
        r@ == strip_zip(s@),
{
    let n = s.unicode_len();
    let suffix = ".zip";
    proof {
        reveal_strlit(".zip");
    }
    if n >= 4 && matches_at(s, suffix, n - 4) {
        String::from_str(s.substring_char(0, n - 4))
    } else {
        String::from_str(s)
    }
}

/// The name of a font archive: the last segment of its URL, without `.zip`.
pub fn archive_name(url: &str) -> (r: String)
    ensures
        r@ == archive_name_of(url@),
{
    let segment = last_path_segment(url);
    strip_zip_suffix(segment.as_str())
}

/// The views of a sequence of strings.
pub open spec fn views(v: Seq<String>) -> Seq<Seq<char>> {
    v.map_values(|a: String| a@)
}

/// A line read from a terminal without its terminator (`\n` or `\r\n`).
pub open spec fn line_content(s: Seq<char>) -> Seq<char> {
    if s.len() >= 2 && s[s.len() - 1] == '\n' && s[s.len() - 2] == '\r' {
        s.take(s.len() - 2)
    } else if s.len() >= 1 && s[s.len() - 1] == '\n' {
        s.drop_last()
    } else {
        s
    }
}

/// The pieces of `s` between its newlines; there is one more piece than there
/// are newlines.
pub open spec fn pieces(s: Seq<char>) -> Seq<Seq<char>>
    decreases s.len(),
{
    if s.len() == 0 {
        seq![Seq::empty()]
    } else if s.last() == '\n' {
        pieces(s.drop_last()).push(Seq::empty())
    } else {
        let p = pieces(s.drop_last());
        p.update(p.len() - 1, p.last().push(s.last()))
    }
}

/// The lines of `s`: a final newline ends the last line and starts none.
pub open spec fn lines_of(s: Seq<char>) -> Seq<Seq<char>> {
    let p = pieces(s);
    if p.last().len() == 0 {
        p.drop_last()
    } else {
        p
    }
}

/// Whether a listed entry names a document rather than a directory.
pub open spec fn is_document(entry: Seq<char>) -> bool {
    occurs_in(entry, ".md"@)
}

/// The entries of a listing that are not documents, in listed order.
pub open spec fn directories_of(entries: Seq<Seq<char>>) -> Seq<Seq<char>>
    decreases entries.len(),
{
    if entries.len() == 0 {
        Seq::empty()
    } else if is_document(entries.last()) {
        directories_of(entries.drop_last())
    } else {
        directories_of(entries.drop_last()).push(entries.last())
    }
}

/// A line read from a terminal without its terminator.
pub fn secret_from_line(line: &str) -> (r: String)
    ensures
        r@ == line_content(line@),
{
    let n = line.unicode_len();
    if n >= 2 && line.get_char(n - 1) == '\n' && line.get_char(n - 2) == '\r' {
        String::from_str(line.substring_char(0, n - 2))
    } else if n >= 1 && line.get_char(n - 1) == '\n' {
        String::from_str(line.substring_char(0, n - 1))
    } else {
        String::from_str(line)
    }
}

/// The lines of `text`, without their newlines.
pub fn split_lines(text: &str) -> (r: Vec<String>)
    ensures
        views(r@) == lines_of(text@),
{
    let n = text.unicode_len();
    let mut out: Vec<String> = Vec::new();
    let mut cur = String::new();
    let mut i: usize = 0;
    proof {
        assert(text@.take(0) =~= Seq::<char>::empty());
        assert(views(out@).push(cur@) =~= seq![Seq::<char>::empty()]);
    }
    while i < n
        invariant
            n == text@.len(),
            i <= n,
            pieces(text@.take(i as int)) == views(out@).push(cur@),
        decreases n - i,
    {
        let c = text.get_char(i);
        proof {
            assert(text@.take(i + 1).drop_last() =~= text@.take(i as int));
            assert(text@.take(i + 1).last() == c);
        }
        if c == '\n' {
            proof {
                assert(views(out@.push(cur)) =~= views(out@).push(cur@));
            }
            out.push(cur);
            cur = String::new();
        } else {
            let ghost before = cur@;
            cur.append(text.substring_char(i, i + 1));
            proof {
                assert(cur@ =~= before.push(c));
                assert(views(out@).push(before).update(out@.len() as int, before.push(c))
                    =~= views(out@).push(cur@));
            }
        }
        i = i + 1;
    }
    proof {
        assert(text@.take(n as int) =~= text@);
    }
    if cur.unicode_len() > 0 {
        proof {
            assert(views(out@.push(cur)) =~= views(out@).push(cur@));
        }
        out.push(cur);
    } else {
        assert(views(out@).push(cur@).drop_last() =~= views(out@));
    }
    out
}

/// The entries of a directory listing (one per line) that are not documents,
/// in listed order.
pub fn listed_directories(listing: &str) -> (r: Vec<String>)
    ensures
        views(r@) == directories_of(lines_of(listing@)),
{
    let lines = split_lines(listing);
    let ghost entries = lines_of(listing@);
    let mut out: Vec<String> = Vec::new();
    let mut i: usize = 0;
    let marker = ".md";
    proof {
        assert(entries.take(0) =~= Seq::<Seq<char>>::empty());
        assert(views(out@) =~= Seq::<Seq<char>>::empty());
    }
    while i < lines.len()
        invariant
            views(lines@) == entries,
            marker@ == ".md"@,
            i <= lines.len(),
            views(out@) == directories_of(entries.take(i as int)),
        decreases lines.len() - i,
    {
        proof {
            assert(entries.take(i + 1).drop_last() =~= entries.take(i as int));
            assert(entries[i as int] == views(lines@)[i as int]);
            assert(entries.take(i + 1).last() == lines@[i as int]@);
        }
        let doc = contains_text(lines[i].as_str(), marker);
        if !doc {
            proof {
                assert(views(out@.push(lines@[i as int])) =~= views(out@).push(lines@[i as int]@));
            }
            out.push(lines[i].clone());
        }
        i = i + 1;
    }
    proof {
        assert(entries.take(lines.len() as int) =~= entries);
    }
    out
}

} // verus!
