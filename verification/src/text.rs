//! Character-level helpers over `&str` and `String` with exact models.

use vstd::prelude::*;

verus! {

/// The ASCII lowercase of one character; every other character is unchanged.
pub open spec fn ascii_lower_char(c: char) -> char {
    if 'A' <= c && c <= 'Z' {
        ((c as u32) + 32) as char
    } else {
        c
    }
}

/// The ASCII lowercase of a character sequence, character by character.
pub open spec fn ascii_lower(s: Seq<char>) -> Seq<char> {
    s.map_values(|c: char| ascii_lower_char(c))
}

/// The characters of `s`, in order.
pub fn chars_of(s: &str) -> (res: Vec<char>)
    ensures
        res@ == s@,
{
    let mut out: Vec<char> = Vec::new();
    for c in it: s.chars()
        invariant
            out@ == it.seq().take(it.index() as int),
            it.seq() == s@,
    {
        out.push(c);
    }
    out
}

/// Lowers the ASCII letters of one character.
pub fn lower_char(c: char) -> (res: char)
    ensures
        res == ascii_lower_char(c),
{
    if 'A' <= c && c <= 'Z' {
        let b: u8 = c as u8;
        (b + 32) as char
    } else {
        c
    }
}

/// The ASCII lowercase of `s`, as characters.
pub fn ascii_lowercase_chars(s: &str) -> (res: Vec<char>)
    ensures
        res@ == ascii_lower(s@),
{
    let mut out: Vec<char> = Vec::new();
    for c in it: s.chars()
        invariant
            it.seq() == s@,
            out@ == ascii_lower(it.seq().take(it.index() as int)),
    {
        proof {
            assert(it.seq().take(it.index() + 1) =~= it.seq().take(it.index() as int).push(c));
        }
        out.push(lower_char(c));
        proof {
            assert(ascii_lower(it.seq().take(it.index() + 1)) =~= ascii_lower(
                it.seq().take(it.index() as int),
            ).push(ascii_lower_char(c)));
        }
    }
    out
}

/// `needle` occurs in `hay` starting at index `i`.
pub open spec fn occurs_at(hay: Seq<char>, needle: Seq<char>, i: int) -> bool {
    &&& 0 <= i
    &&& i + needle.len() <= hay.len()
    &&& hay.subrange(i, i + needle.len()) == needle
}

/// `needle` occurs somewhere in `hay` (the empty needle occurs in every sequence).
pub open spec fn has_substring(hay: Seq<char>, needle: Seq<char>) -> bool {
    exists|i: int| occurs_at(hay, needle, i)
}

/// Whether `needle` occurs in `hay` at index `i`.
fn matches_at(hay: &Vec<char>, needle: &Vec<char>, i: usize) -> (res: bool)
    requires
        i + needle@.len() <= hay@.len(),
    ensures
        res == occurs_at(hay@, needle@, i as int),
{
    let n = needle.len();
    let h = hay.len();
    let mut j: usize = 0;
    while j < n
        invariant
            n == needle@.len(),
            h == hay@.len(),
            j <= n,
            i + n <= hay@.len(),
            forall|k: int| 0 <= k < j ==> hay@[i + k] == needle@[k],
        decreases n - j,
    {
        if hay[i + j] != needle[j] {
            proof {
                assert(hay@.subrange(i as int, i + n)[j as int] != needle@[j as int]);
            }
            return false;
        }
        j = j + 1;
    }
    proof {
        assert(hay@.subrange(i as int, i + n) =~= needle@);
    }
    true
}

/// Whether `needle` occurs anywhere in `hay`.
pub fn contains_chars(hay: &Vec<char>, needle: &Vec<char>) -> (res: bool)
    ensures
        res == has_substring(hay@, needle@),
{
    let h = hay.len();
    let n = needle.len();
    if n > h {
        proof {
            assert forall|i: int| !occurs_at(hay@, needle@, i) by {}
        }
        return false;
    }
    let mut i: usize = 0;
    loop
        invariant
            h == hay@.len(),
            n == needle@.len(),
            n <= h,
            i <= h - n,
            forall|k: int| 0 <= k < i ==> !occurs_at(hay@, needle@, k),
        decreases h - n - i,
    {
        if matches_at(hay, needle, i) {
            return true;
        }
        if i == h - n {
            proof {
                assert forall|k: int| !occurs_at(hay@, needle@, k) by {
                    if 0 <= k <= i {
                    }
                }
            }
            return false;
        }
        i = i + 1;
    }
}

/// Whether two character vectors hold the same characters.
pub fn chars_equal(a: &Vec<char>, b: &Vec<char>) -> (res: bool)
    ensures
        res == (a@ == b@),
{
    if a.len() != b.len() {
        return false;
    }
    let r = matches_at(a, b, 0);
    proof {
        assert(a@.subrange(0, b@.len() as int) =~= a@);
    }
    r
}

/// `String::push`: appends one character.
#[verifier::external_body]
pub(crate) fn push_char(s: &mut String, c: char)
    ensures
        final(s)@ == old(s)@.push(c),
{
    s.push(c);
}

/// Appends the first `n` characters of `v` to `s`.
pub fn push_chars(s: &mut String, v: &Vec<char>, n: usize)
    requires
        n <= v@.len(),
    ensures
        final(s)@ == old(s)@ + v@.take(n as int),
{
    let mut i: usize = 0;
    while i < n
        invariant
            i <= n,
            n <= v@.len(),
            s@ == old(s)@ + v@.take(i as int),
        decreases n - i,
    {
        push_char(s, v[i]);
        proof {
            assert(v@.take(i + 1) =~= v@.take(i as int).push(v@[i as int]));
        }
        i = i + 1;
    }
}

/// A fresh string holding the characters of `v`.
pub fn string_of_chars(v: &Vec<char>) -> (res: String)
    ensures
        res@ == v@,
{
    let mut s = String::new();
    push_chars(&mut s, v, v.len());
    proof {
        assert(v@.take(v@.len() as int) =~= v@);
    }
    s
}

/// A line without the carriage return of a `\r\n` line ending.
pub open spec fn strip_cr(line: Seq<char>) -> Seq<char> {
    if line.len() > 0 && line.last() == '\r' {
        line.drop_last()
    } else {
        line
    }
}

/// Splitting `s` into lines, read left to right: the lines already ended by a
/// `\n` (each without its `\n`, and without a `\r` just before it), and the
/// characters of the line not yet ended.
pub open spec fn line_scan(s: Seq<char>) -> (Seq<Seq<char>>, Seq<char>)
    decreases s.len(),
{
    if s.len() == 0 {
        (seq![], seq![])
    } else {
        let (done, cur) = line_scan(s.drop_last());
        if s.last() == '\n' {
            (done.push(strip_cr(cur)), seq![])
        } else {
            (done, cur.push(s.last()))
        }
    }
}

/// The lines of `s` as `str::lines` yields them: split at `\n` or `\r\n`, the
/// final line ending optional, no empty line after a final line ending.
pub open spec fn text_lines(s: Seq<char>) -> Seq<Seq<char>> {
    let (done, cur) = line_scan(s);
    if cur.len() == 0 {
        done
    } else {
        done.push(cur)
    }
}

/// The first `n` items, or all of them when there are fewer.
pub open spec fn take_at_most<A>(s: Seq<A>, n: nat) -> Seq<A> {
    if s.len() <= n {
        s
    } else {
        s.take(n as int)
    }
}

/// Lines joined with a single `\n` between neighbours.
pub open spec fn join_lines(lines: Seq<Seq<char>>) -> Seq<char>
    decreases lines.len(),
{
    if lines.len() == 0 {
        seq![]
    } else if lines.len() == 1 {
        lines[0]
    } else {
        join_lines(lines.drop_last()) + seq!['\n'] + lines.last()
    }
}

/// The first `max` lines of `s`, joined with `\n`.
pub open spec fn first_lines(s: Seq<char>, max: nat) -> Seq<char> {
    join_lines(take_at_most(text_lines(s), max))
}

/// How many times `c` occurs in `s`.
pub open spec fn count_char(s: Seq<char>, c: char) -> nat
    decreases s.len(),
{
    if s.len() == 0 {
        0
    } else {
        count_char(s.drop_last(), c) + if s.last() == c {
            1nat
        } else {
            0nat
        }
    }
}

/// Occurrences add up over a concatenation.
proof fn lemma_count_concat(a: Seq<char>, b: Seq<char>, c: char)
    ensures
        count_char(a + b, c) == count_char(a, c) + count_char(b, c),
    decreases b.len(),
{
    if b.len() == 0 {
        assert(a + b =~= a);
    } else {
        assert((a + b).drop_last() =~= a + b.drop_last());
        lemma_count_concat(a, b.drop_last(), c);
    }
}

/// No line found by the scan holds a `\n`, and there is one ended line per `\n`.
proof fn lemma_scan_lines_have_no_newline(s: Seq<char>)
    ensures
        line_scan(s).0.len() == count_char(s, '\n'),
        count_char(line_scan(s).1, '\n') == 0,
        forall|i: int|
            0 <= i < line_scan(s).0.len() ==> count_char(#[trigger] line_scan(s).0[i], '\n') == 0,
    decreases s.len(),
{
    if s.len() > 0 {
        lemma_scan_lines_have_no_newline(s.drop_last());
        let (done, cur) = line_scan(s.drop_last());
        if s.last() != '\n' {
            assert(cur.push(s.last()).drop_last() =~= cur);
        }
    }
}

/// No line of `text_lines(s)` holds a `\n`, and there is at most one more line
/// than there are `\n`s (none at all for the empty text).
proof fn lemma_text_lines_count(s: Seq<char>)
    ensures
        text_lines(s).len() <= count_char(s, '\n') + 1,
        s.len() == 0 ==> text_lines(s).len() == 0,
        forall|i: int|
            0 <= i < text_lines(s).len() ==> count_char(#[trigger] text_lines(s)[i], '\n') == 0,
{
    lemma_scan_lines_have_no_newline(s);
}

/// A text has no more occurrences of a character than characters.
proof fn lemma_count_at_most_len(s: Seq<char>, c: char)
    ensures
        count_char(s, c) <= s.len(),
    decreases s.len(),
{
    if s.len() > 0 {
        lemma_count_at_most_len(s.drop_last(), c);
    }
}

/// A text of `n` characters has at most `n + 1` lines.
pub proof fn lemma_text_lines_at_most_len(s: Seq<char>)
    ensures
        text_lines(s).len() <= s.len() + 1,
{
    lemma_text_lines_count(s);
    lemma_count_at_most_len(s, '\n');
}

/// Joining `k >= 1` lines without `\n` gives a text with `k - 1` of them.
proof fn lemma_join_count(lines: Seq<Seq<char>>)
    requires
        lines.len() >= 1,
        forall|i: int| 0 <= i < lines.len() ==> count_char(#[trigger] lines[i], '\n') == 0,
    ensures
        count_char(join_lines(lines), '\n') == lines.len() - 1,
    decreases lines.len(),
{
    if lines.len() > 1 {
        let init = lines.drop_last();
        assert forall|i: int| 0 <= i < init.len() implies count_char(#[trigger] init[i], '\n')
            == 0 by {
            assert(init[i] == lines[i]);
        }
        lemma_join_count(init);
        let nl: Seq<char> = seq!['\n'];
        lemma_count_concat(join_lines(init), nl, '\n');
        lemma_count_concat(join_lines(init) + nl, lines.last(), '\n');
        assert(count_char(nl, '\n') == 1) by {
            assert(nl.drop_last() =~= Seq::<char>::empty());
            assert(count_char(Seq::<char>::empty(), '\n') == 0);
            assert(nl.last() == '\n');
        }
        assert(count_char(lines.last(), '\n') == 0) by {
            assert(lines.last() == lines[lines.len() - 1]);
        }
    }
}

/// The first `max` lines, joined, read back as at most `max` lines: the output
/// of a search is never longer than its line cap.
pub proof fn lemma_first_lines_within_cap(s: Seq<char>, max: nat)
    ensures
        text_lines(first_lines(s, max)).len() <= max,
{
    lemma_text_lines_count(s);
    let ls = take_at_most(text_lines(s), max);
    assert forall|i: int| 0 <= i < ls.len() implies count_char(#[trigger] ls[i], '\n') == 0 by {
        assert(ls[i] == text_lines(s)[i]);
    }
    if ls.len() == 0 {
        lemma_text_lines_count(join_lines(ls));
    } else {
        lemma_join_count(ls);
        lemma_text_lines_count(join_lines(ls));
    }
}

/// The cap keeps lines, and only the cap drops them: with at most `max` lines
/// the text's lines all come back, joined; with more, exactly `max` lines are
/// joined (`max - 1` line breaks), and they are the first `max`.
pub proof fn lemma_first_lines_keeps_up_to_cap(s: Seq<char>, max: nat)
    ensures
        text_lines(s).len() <= max ==> first_lines(s, max) == join_lines(text_lines(s)),
        text_lines(s).len() > max ==> first_lines(s, max) == join_lines(
            text_lines(s).take(max as int),
        ),
        text_lines(s).len() > max >= 1 ==> count_char(first_lines(s, max), '\n') == max - 1,
{
    lemma_text_lines_count(s);
    if text_lines(s).len() > max >= 1 {
        let ls = text_lines(s).take(max as int);
        assert forall|i: int| 0 <= i < ls.len() implies count_char(#[trigger] ls[i], '\n')
            == 0 by {
            assert(ls[i] == text_lines(s)[i]);
        }
        lemma_join_count(ls);
    }
}

/// Joining one more line onto a joined prefix.
proof fn lemma_join_push(lines: Seq<Seq<char>>, line: Seq<char>)
    ensures
        join_lines(lines.push(line)) == if lines.len() == 0 {
            line
        } else {
            join_lines(lines) + seq!['\n'] + line
        },
{
    assert(lines.push(line).drop_last() =~= lines);
}

/// Adding a line to a list that already has `max` or more leaves its first
/// `max` unchanged; otherwise the line is added to them.
proof fn lemma_take_at_most_push(lines: Seq<Seq<char>>, line: Seq<char>, max: nat)
    ensures
        take_at_most(lines.push(line), max) == if lines.len() < max {
            take_at_most(lines, max).push(line)
        } else {
            take_at_most(lines, max)
        },
{
    if lines.len() >= max {
        assert(lines.push(line).take(max as int) =~= take_at_most(lines, max));
    }
}

/// Appends `line` to a string holding the first `n_done` of some lines, joined,
/// when fewer than `max` are held.
fn append_line(out: &mut String, n_done: &mut usize, max: usize, line: &Vec<char>, len: usize)
    requires
        len <= line@.len(),
        *old(n_done) <= max,
        *old(n_done) == 0 ==> old(out)@.len() == 0,
    ensures
        *old(n_done) < max ==> *final(n_done) == *old(n_done) + 1 && final(out)@ == if *old(
            n_done,
        ) == 0 {
            line@.take(len as int)
        } else {
            old(out)@ + seq!['\n'] + line@.take(len as int)
        },
        *old(n_done) >= max ==> *final(n_done) == *old(n_done) && final(out)@ == old(out)@,
{
    if *n_done < max {
        if *n_done > 0 {
            push_char(out, '\n');
        }
        push_chars(out, line, len);
        *n_done = *n_done + 1;
    }
}

/// The first `max` lines of `s` (as `str::lines` splits them), joined with `\n`.
pub fn first_lines_joined(s: &str, max: usize) -> (res: String)
    ensures
        res@ == first_lines(s@, max as nat),
{
    let mut out = String::new();
    let mut n_done: usize = 0;
    let mut cur: Vec<char> = Vec::new();
    let ghost mut seen: Seq<char> = seq![];
    for c in it: s.chars()
        invariant
            it.seq() == s@,
            seen == it.seq().take(it.index() as int),
            n_done <= max,
            n_done as nat == if line_scan(it.seq().take(it.index() as int)).0.len() < max {
                line_scan(it.seq().take(it.index() as int)).0.len()
            } else {
                max as nat
            },
            cur@ == line_scan(it.seq().take(it.index() as int)).1,
            out@ == join_lines(take_at_most(line_scan(it.seq().take(it.index() as int)).0, max as nat)),
    {
        let ghost pre = it.seq().take(it.index() as int);
        let ghost post = it.seq().take(it.index() + 1);
        proof {
            assert(post.drop_last() =~= pre);
            assert(post.last() == c);
        }
        if c == '\n' {
            let len = cur.len();
            let keep = if len > 0 && cur[len - 1] == '\r' { len - 1 } else { len };
            proof {
                assert(cur@.take(keep as int) =~= strip_cr(cur@));
                lemma_join_push(take_at_most(line_scan(pre).0, max as nat), strip_cr(cur@));
                lemma_take_at_most_push(line_scan(pre).0, strip_cr(cur@), max as nat);
            }
            append_line(&mut out, &mut n_done, max, &cur, keep);
            cur = Vec::new();
        } else {
            cur.push(c);
        }
        proof {
            seen = seen.push(c);
        }
    }
    let ghost all = s@;
    assert(seen =~= all);
    if cur.len() > 0 {
        let len = cur.len();
        proof {
            assert(cur@.take(len as int) =~= cur@);
            lemma_join_push(take_at_most(line_scan(all).0, max as nat), cur@);
            lemma_take_at_most_push(line_scan(all).0, cur@, max as nat);
        }
        append_line(&mut out, &mut n_done, max, &cur, len);
    }
    out
}

} // verus!
