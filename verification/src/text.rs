//! Text helpers over the character view of strings.

use vstd::prelude::*;
use vstd::string::*;

verus! {

/// Whether `c` has the Unicode `White_Space` property, which is what
/// `char::is_whitespace` tests.
pub open spec fn is_white_space(c: char) -> bool {
    let n = c as u32;
    ||| 0x09 <= n <= 0x0D
    ||| n == 0x20
    ||| n == 0x85
    ||| n == 0xA0
    ||| n == 0x1680
    ||| 0x2000 <= n <= 0x200A
    ||| n == 0x2028
    ||| n == 0x2029
    ||| n == 0x202F
    ||| n == 0x205F
    ||| n == 0x3000
}

/// Tests the Unicode `White_Space` property of a character.
pub fn is_whitespace(c: char) -> (r: bool)
    ensures
        r == is_white_space(c),
{
    let n: u32 = c as u32;
    (0x09 <= n && n <= 0x0D) || n == 0x20 || n == 0x85 || n == 0xA0 || n == 0x1680 || (0x2000
        <= n && n <= 0x200A) || n == 0x2028 || n == 0x2029 || n == 0x202F || n == 0x205F || n
        == 0x3000
}

/// Character-wise equality of two string slices.
pub fn str_eq(a: &str, b: &str) -> (r: bool)
    ensures
        r == (a@ == b@),
{
    let n = a.unicode_len();
    if n != b.unicode_len() {
        return false;
    }
    let mut i: usize = 0;
    while i < n
        invariant
            n == a@.len(),
            n == b@.len(),
            i <= n,
            forall|j: int| 0 <= j < i ==> a@[j] == b@[j],
        decreases n - i,
    {
        if a.get_char(i) != b.get_char(i) {
            return false;
        }
        i = i + 1;
    }
    assert(a@ =~= b@);
    true
}


/// Reading `s` from left to right: the words already finished, and the word
/// still being read. A white-space character ends the word being read; any
/// other character extends it.
pub open spec fn scan_words(s: Seq<char>) -> (Seq<Seq<char>>, Seq<char>)
    decreases s.len(),
{
    if s.len() == 0 {
        (Seq::empty(), Seq::empty())
    } else {
        let (done, cur) = scan_words(s.drop_last());
        let c = s.last();
        if is_white_space(c) {
            if cur.len() > 0 {
                (done.push(cur), Seq::empty())
            } else {
                (done, Seq::empty())
            }
        } else {
            (done, cur.push(c))
        }
    }
}

/// The maximal runs of non-white-space characters of `s`, in order: what
/// `str::split_whitespace` yields.
pub open spec fn words(s: Seq<char>) -> Seq<Seq<char>> {
    let (done, cur) = scan_words(s);
    if cur.len() > 0 {
        done.push(cur)
    } else {
        done
    }
}

/// The words joined by single spaces: what `[String]::join(" ")` yields.
pub open spec fn join_words(ws: Seq<Seq<char>>) -> Seq<char>
    decreases ws.len(),
{
    if ws.len() == 0 {
        Seq::empty()
    } else if ws.len() == 1 {
        ws[0]
    } else {
        join_words(ws.drop_last()) + seq![' '] + ws.last()
    }
}

/// A word in the sense of `words`: not empty and free of white space.
pub open spec fn is_word(w: Seq<char>) -> bool {
    &&& w.len() > 0
    &&& forall|i: int| 0 <= i < w.len() ==> !is_white_space(#[trigger] w[i])
}

/// The views of a vector of strings.
pub open spec fn string_views(v: Seq<String>) -> Seq<Seq<char>> {
    v.map_values(|s: String| s@)
}

/// What follows the last `/` of `s`, or all of `s` where it holds none: the
/// first item of `str::rsplit('/')`.
pub open spec fn base_name(s: Seq<char>) -> Seq<char>
    decreases s.len(),
{
    if s.len() == 0 {
        s
    } else if s.last() == '/' {
        Seq::empty()
    } else {
        base_name(s.drop_last()).push(s.last())
    }
}

/// Splits `s` into its white-space separated words.
pub fn split_whitespace(s: &str) -> (r: Vec<String>)
    ensures
        string_views(r@) == words(s@),
{
    let n = s.unicode_len();
    let mut out: Vec<String> = Vec::new();
    let mut start: usize = 0;
    let mut in_word = false;
    let mut i: usize = 0;
    while i < n
        invariant
            n == s@.len(),
            i <= n,
            start <= i,
            in_word ==> start < i,
            scan_words(s@.take(i as int)) == (string_views(out@), if in_word {
                s@.subrange(start as int, i as int)
            } else {
                Seq::<char>::empty()
            }),
        decreases n - i,
    {
        let c = s.get_char(i);
        proof {
            assert(s@.take(i + 1).drop_last() =~= s@.take(i as int));
            assert(s@.take(i + 1).last() == c);
        }
        if is_whitespace(c) {
            if in_word {
                let w = s.substring_char(start, i).to_owned();
                let ghost before = out@;
                out.push(w);
                proof {
                    assert(string_views(out@) =~= string_views(before).push(w@));
                }
                in_word = false;
            }
        } else {
            if !in_word {
                start = i;
                in_word = true;
                assert(s@.subrange(start as int, i + 1) =~= Seq::<char>::empty().push(c));
            } else {
                assert(s@.subrange(start as int, i + 1) =~= s@.subrange(start as int, i as int).push(
                    c,
                ));
            }
        }
        i = i + 1;
    }
    assert(s@.take(n as int) =~= s@);
    if in_word {
        let w = s.substring_char(start, n).to_owned();
        let ghost before = out@;
        out.push(w);
        proof {
            assert(string_views(out@) =~= string_views(before).push(w@));
        }
    }
    out
}

/// Joins the strings with single spaces between them.
pub fn join_with_spaces(v: &Vec<String>) -> (r: String)
    ensures
        r@ == join_words(string_views(v@)),
{
    let mut out = String::new();
    let n = v.len();
    let mut i: usize = 0;
    while i < n
        invariant
            n == v@.len(),
            i <= n,
            out@ == join_words(string_views(v@.take(i as int))),
        decreases n - i,
    {
        let ghost before = out@;
        proof {
            reveal_strlit(" ");
            assert(" "@ =~= seq![' ']);
        }
        if i > 0 {
            out.append(" ");
        }
        out.append(v[i].as_str());
        proof {
            let ws = string_views(v@.take(i + 1));
            assert(ws.drop_last() =~= string_views(v@.take(i as int)));
            assert(ws.last() == v@[i as int]@);
            if i == 0 {
                assert(out@ =~= ws[0]);
            } else {
                assert(out@ =~= before + seq![' '] + ws.last());
            }
        }
        i = i + 1;
    }
    assert(v@.take(n as int) =~= v@);
    out
}

/// What follows the last `/` of `s` (all of `s` where it holds none).
pub fn base_name_of(s: &str) -> (r: &str)
    ensures
        r@ == base_name(s@),
{
    let n = s.unicode_len();
    let mut j: usize = n;
    while j > 0
        invariant_except_break
            j <= n,
            n == s@.len(),
            forall|k: int| j <= k < n ==> s@[k] != '/',
        ensures
            j <= n,
            n == s@.len(),
            forall|k: int| j <= k < n ==> s@[k] != '/',
            j == 0 || s@[j - 1] == '/',
        decreases j,
    {
        if s.get_char(j - 1) == '/' {
            break;
        }
        j = j - 1;
    }
    proof {
        lemma_base_name_from(s@, j as int);
    }
    s.substring_char(j, n)
}

/// Where `j` is one past the last `/` of `s` (or 0 where there is none),
/// the base name is what follows `j`.
pub proof fn lemma_base_name_from(s: Seq<char>, j: int)
    requires
        0 <= j <= s.len(),
        forall|k: int| j <= k < s.len() ==> s[k] != '/',
        j == 0 || s[j - 1] == '/',
    ensures
        base_name(s) == s.subrange(j, s.len() as int),
    decreases s.len(),
{
    if s.len() == 0 {
        assert(s.subrange(j, 0) =~= s);
    } else if j == s.len() {
        assert(s.subrange(j, s.len() as int) =~= Seq::<char>::empty());
    } else {
        let t = s.drop_last();
        assert(s.last() == s[s.len() - 1]);
        lemma_base_name_from(t, j);
        assert(s.subrange(j, s.len() as int) =~= t.subrange(j, t.len() as int).push(s.last()));
    }
}

/// Reading a word after `a` extends the word being read and finishes none.
proof fn lemma_scan_append_word(a: Seq<char>, t: Seq<char>)
    requires
        forall|i: int| 0 <= i < t.len() ==> !is_white_space(#[trigger] t[i]),
    ensures
        scan_words(a + t) == (scan_words(a).0, scan_words(a).1 + t),
    decreases t.len(),
{
    if t.len() == 0 {
        assert(a + t =~= a);
        assert(scan_words(a).1 + t =~= scan_words(a).1);
    } else {
        let t0 = t.drop_last();
        lemma_scan_append_word(a, t0);
        assert((a + t).drop_last() =~= a + t0);
        assert((a + t).last() == t[t.len() - 1]);
        assert(scan_words(a).1 + t =~= (scan_words(a).1 + t0).push(t.last()));
    }
}

/// Joining words with single spaces and splitting the result on white space
/// gives the words back.
pub proof fn lemma_words_of_joined(ws: Seq<Seq<char>>)
    requires
        forall|i: int| 0 <= i < ws.len() ==> is_word(#[trigger] ws[i]),
    ensures
        words(join_words(ws)) == ws,
{
    if ws.len() == 0 {
        assert(scan_words(Seq::<char>::empty()) == (Seq::<Seq<char>>::empty(), Seq::<char>::empty()));
    } else {
        lemma_scan_joined(ws);
        assert(is_word(ws[ws.len() - 1]));
        assert(ws.drop_last().push(ws.last()) =~= ws);
    }
}

/// Reading the joined words leaves all but the last finished and the last
/// being read.
proof fn lemma_scan_joined(ws: Seq<Seq<char>>)
    requires
        ws.len() > 0,
        forall|i: int| 0 <= i < ws.len() ==> is_word(#[trigger] ws[i]),
    ensures
        scan_words(join_words(ws)) == (ws.drop_last(), ws.last()),
    decreases ws.len(),
{
    let last = ws.last();
    assert(is_word(ws[ws.len() - 1]));
    assert forall|i: int| 0 <= i < last.len() implies !is_white_space(#[trigger] last[i]) by {
        assert(is_word(ws[ws.len() - 1]));
    }
    if ws.len() == 1 {
        let e = Seq::<char>::empty();
        lemma_scan_append_word(e, last);
        assert(e + last =~= ws[0]);
        assert(scan_words(e) == (Seq::<Seq<char>>::empty(), e));
        assert(ws.drop_last() =~= Seq::<Seq<char>>::empty());
        assert(e + last =~= last);
    } else {
        let init = ws.drop_last();
        assert forall|i: int| 0 <= i < init.len() implies is_word(#[trigger] init[i]) by {
            assert(init[i] == ws[i]);
        }
        lemma_scan_joined(init);
        let a = join_words(init);
        let sp = a + seq![' '];
        assert(sp.drop_last() =~= a);
        assert(sp.last() == ' ');
        assert(is_white_space(' '));
        assert(is_word(init[init.len() - 1]));
        assert(scan_words(sp) == (init.drop_last().push(init.last()), Seq::<char>::empty()));
        assert(init.drop_last().push(init.last()) =~= init);
        lemma_scan_append_word(sp, last);
        assert(Seq::<char>::empty() + last =~= last);
        assert(join_words(ws) == sp + last);
    }
}

/// The base name of a name free of `/` is the name itself.
pub proof fn lemma_base_name_plain(n: Seq<char>)
    requires
        forall|i: int| 0 <= i < n.len() ==> #[trigger] n[i] != '/',
    ensures
        base_name(n) == n,
{
    lemma_base_name_from(n, 0);
    assert(n.subrange(0, n.len() as int) =~= n);
}

/// Whatever directory stands before the last `/`, the base name is what
/// follows it.
pub proof fn lemma_base_name_in_dir(dir: Seq<char>, n: Seq<char>)
    requires
        forall|i: int| 0 <= i < n.len() ==> #[trigger] n[i] != '/',
    ensures
        base_name(dir + seq!['/'] + n) == n,
{
    let s = dir + seq!['/'] + n;
    let j: int = dir.len() as int + 1;
    assert forall|k: int| j <= k < s.len() implies s[k] != '/' by {
        assert(s[k] == n[k - j]);
    }
    assert(s[j - 1] == '/');
    lemma_base_name_from(s, j);
    assert(s.subrange(j, s.len() as int) =~= n);
}

/// No printable ASCII character other than the space is white space, and
/// the space, tab, line feed and carriage return are.
pub proof fn lemma_ascii_white_space(c: char)
    ensures
        0x21 <= (c as u32) <= 0x7E ==> !is_white_space(c),
        c == ' ' || c == '\t' || c == '\n' || c == '\r' ==> is_white_space(c),
{
}

/// After a text whose reading ends outside any word, the words of what
/// follows are read as on their own.
proof fn lemma_scan_after_break(p: Seq<char>, b: Seq<char>)
    requires
        scan_words(p).1.len() == 0,
    ensures
        scan_words(p + b) == (scan_words(p).0 + scan_words(b).0, scan_words(b).1),
    decreases b.len(),
{
    if b.len() == 0 {
        assert(p + b =~= p);
        assert(scan_words(p).0 + Seq::<Seq<char>>::empty() =~= scan_words(p).0);
        assert(scan_words(p).1 =~= Seq::<char>::empty());
    } else {
        let b0 = b.drop_last();
        lemma_scan_after_break(p, b0);
        assert((p + b).drop_last() =~= p + b0);
        assert((p + b).last() == b.last());
        let d = scan_words(p).0;
        let (d0, c0) = scan_words(b0);
        assert((d + d0).push(c0) =~= d + d0.push(c0));
    }
}

/// The words of a text: none in the empty text; a single word is its own
/// only word; and a white-space character splits a text into the words
/// before it followed by the words after it. These three determine `words`.
pub proof fn lemma_words_laws(a: Seq<char>, c: char, b: Seq<char>, w: Seq<char>)
    ensures
        words(Seq::<char>::empty()) == Seq::<Seq<char>>::empty(),
        is_word(w) ==> words(w) == seq![w],
        is_white_space(c) ==> words(a + seq![c] + b) == words(a) + words(b),
{
    assert(scan_words(Seq::<char>::empty()) == (Seq::<Seq<char>>::empty(), Seq::<char>::empty()));
    if is_word(w) {
        lemma_words_of_joined(seq![w]);
        assert(join_words(seq![w]) == w);
    }
    if is_white_space(c) {
        let p = a + seq![c];
        assert(p.drop_last() =~= a);
        assert(p.last() == c);
        assert(scan_words(p) == (words(a), Seq::<char>::empty()));
        lemma_scan_after_break(p, b);
    }
}

/// Joining: no words give the empty text, one word gives itself, and two
/// joined lists of words join with one space between them. These determine
/// `join_words`.
pub proof fn lemma_join_laws(w: Seq<char>, a: Seq<Seq<char>>, b: Seq<Seq<char>>)
    ensures
        join_words(Seq::<Seq<char>>::empty()) == Seq::<char>::empty(),
        join_words(seq![w]) == w,
        a.len() > 0 && b.len() > 0 ==> join_words(a + b) == join_words(a) + seq![' '] + join_words(
            b,
        ),
    decreases b.len(),
{
    if a.len() > 0 && b.len() > 0 {
        if b.len() == 1 {
            assert((a + b).drop_last() =~= a);
            assert((a + b).last() == b[0]);
        } else {
            let b0 = b.drop_last();
            lemma_join_laws(w, a, b0);
            assert((a + b).drop_last() =~= a + b0);
            assert((a + b).last() == b.last());
            assert(join_words(a + b) =~= join_words(a) + seq![' '] + (join_words(b0) + seq![' ']
                + b.last()));
        }
    }
}

} // verus!
