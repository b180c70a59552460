//! Text helpers shared by the protocol modules: comparison, whitespace
//! splitting of scope strings, joining, and prefix handling.
//!
//! Every function is stated over the sequence of characters that a string
//! holds (`s@`), and lists of strings over the sequence of those sequences
//! (`v.deep_view()`).

use vstd::prelude::*;
use vstd::std_specs::iter::IteratorSpec;

verus! {

/// Whether `c` is white space in the Unicode sense (the code points with the
/// `White_Space` property), which is what separates the words of a scope
/// string.
pub open spec fn is_space(c: char) -> bool {
    let n = c as u32;
    ||| 0x09 <= n <= 0x0D
    ||| n == 0x20
    ||| n == 0x85
    ||| n == 0xA0
    ||| n == 0x1680
    ||| 0x2000 <= n <= 0x200A
    ||| n == 0x2028
    ||| n == 0x2029
    ||| n == 0x202F
    ||| n == 0x205F
    ||| n == 0x3000
}

/// The words of `s`: its maximal runs of characters that are not white space,
/// in the order in which they occur.
///
/// Defined by the last character: white space adds nothing, a character that
/// follows a word character lengthens the last word, and any other character
/// starts a new word.
pub open spec fn words(s: Seq<char>) -> Seq<Seq<char>>
    decreases s.len(),
{
    if s.len() == 0 {
        Seq::empty()
    } else {
        let before = words(s.drop_last());
        let c = s.last();
        if is_space(c) {
            before
        } else if s.len() >= 2 && !is_space(s[s.len() - 2]) && before.len() > 0 {
            before.drop_last().push(before.last().push(c))
        } else {
            before.push(seq![c])
        }
    }
}

/// Whether `w` is a word: it is not empty and holds no white space.
pub open spec fn is_word(w: Seq<char>) -> bool {
    w.len() > 0 && forall|i: int| 0 <= i < w.len() ==> !is_space(#[trigger] w[i])
}

/// `parts` joined with one separator between neighbours.
pub open spec fn joined(parts: Seq<Seq<char>>, sep: Seq<char>) -> Seq<char>
    decreases parts.len(),
{
    if parts.len() == 0 {
        Seq::empty()
    } else if parts.len() == 1 {
        parts[0]
    } else {
        joined(parts.drop_last(), sep) + sep + parts.last()
    }
}

/// Whether `s` begins with `prefix`.
pub open spec fn has_prefix(s: Seq<char>, prefix: Seq<char>) -> bool {
    prefix.len() <= s.len() && s.subrange(0, prefix.len() as int) == prefix
}

/// `c` with the letters `A` to `Z` mapped to `a` to `z`.
pub open spec fn ascii_lower(c: char) -> char {
    if 'A' <= c <= 'Z' {
        ((c as u8) + 32) as char
    } else {
        c
    }
}

/// Whether `a` and `b` are equal up to the case of ASCII letters.
pub open spec fn eq_ignoring_ascii_case(a: Seq<char>, b: Seq<char>) -> bool {
    a.len() == b.len() && forall|i: int|
        0 <= i < a.len() ==> ascii_lower(#[trigger] a[i]) == ascii_lower(b[i])
}

/// `s` without the elements that occur earlier in it: each element once, at
/// the place of its first occurrence.
pub open spec fn distinct(s: Seq<Seq<char>>) -> Seq<Seq<char>>
    decreases s.len(),
{
    if s.len() == 0 {
        Seq::empty()
    } else {
        let before = distinct(s.drop_last());
        if s.drop_last().contains(s.last()) {
            before
        } else {
            before.push(s.last())
        }
    }
}

/// The elements of `s` that are not in `other`, in their order in `s`.
pub open spec fn without(s: Seq<Seq<char>>, other: Set<Seq<char>>) -> Seq<Seq<char>>
    decreases s.len(),
{
    if s.len() == 0 {
        Seq::empty()
    } else {
        let before = without(s.drop_last(), other);
        if other.contains(s.last()) {
            before
        } else {
            before.push(s.last())
        }
    }
}

/// Whether every element of `s` occurs in `other`.
pub open spec fn all_within(s: Seq<Seq<char>>, other: Seq<Seq<char>>) -> bool {
    forall|i: int| 0 <= i < s.len() ==> other.contains(#[trigger] s[i])
}

/// The elements of `list`, as a set.
pub open spec fn elements(list: Seq<Seq<char>>) -> Set<Seq<char>> {
    Set::new(|w: Seq<char>| list.contains(w))
}

/// Whether `list` holds exactly the elements of `set`.
pub open spec fn lists_all_of(list: Seq<Seq<char>>, set: Set<Seq<char>>) -> bool {
    forall|w: Seq<char>| list.contains(w) <==> set.contains(w)
}

/// Executable form of [`is_space`].
pub fn char_is_space(c: char) -> (b: bool)
    ensures
        b == is_space(c),
{
    let n: u32 = c as u32;
    (0x09 <= n && n <= 0x0D) || n == 0x20 || n == 0x85 || n == 0xA0 || n == 0x1680 || (0x2000 <= n
        && n <= 0x200A) || n == 0x2028 || n == 0x2029 || n == 0x202F || n == 0x205F || n == 0x3000
}

/// The characters of `s`, in order.
pub fn chars_of(s: &str) -> (v: Vec<char>)
    ensures
        v@ == s@,
{
    let mut v: Vec<char> = Vec::new();
    for c in it: s.chars()
        invariant
            it.seq() == s@,
            v@ == it.seq().take(it.index()),
    {
        v.push(c);
    }
    v
}

/// Whether two strings hold the same characters.
pub fn str_eq(a: &str, b: &str) -> (r: bool)
    ensures
        r == (a@ == b@),
{
    a.to_owned() == b.to_owned()
}

/// Whether two strings hold the same characters, found out in a time that
/// depends on their lengths alone: every position is looked at, wherever
/// the first difference is. This is the comparison for secrets.
pub fn str_eq_constant_time(a: &str, b: &str) -> (r: bool)
    ensures
        r == (a@ == b@),
{
    let x = chars_of(a);
    let y = chars_of(b);
    if x.len() != y.len() {
        return false;
    }
    let mut same = true;
    let mut i: usize = 0;
    assert(x@.take(0) =~= y@.take(0));
    while i < x.len()
        invariant
            i <= x.len(),
            x.len() == y.len(),
            x@ == a@,
            y@ == b@,
            same == (x@.take(i as int) == y@.take(i as int)),
        decreases x.len() - i,
    {
        let ghost before_x = x@.take(i as int);
        let ghost before_y = y@.take(i as int);
        let equal_here = x[i] == y[i];
        same = same && equal_here;
        proof {
            assert(x@.take(i + 1) =~= before_x.push(x@[i as int]));
            assert(y@.take(i + 1) =~= before_y.push(y@[i as int]));
            if x@.take(i + 1) == y@.take(i + 1) {
                assert(x@.take(i + 1).drop_last() =~= before_x);
                assert(y@.take(i + 1).drop_last() =~= before_y);
                assert(x@.take(i + 1).last() == x@[i as int]);
                assert(y@.take(i + 1).last() == y@[i as int]);
            }
        }
        i = i + 1;
    }
    assert(x@.take(i as int) =~= x@);
    assert(y@.take(i as int) =~= y@);
    same
}

/// A copy of an optional string.
pub fn opt_str_clone(a: &Option<String>) -> (r: Option<String>)
    ensures
        r == *a,
        r.deep_view() == a.deep_view(),
{
    match a {
        None => None,
        Some(x) => Some(x.clone()),
    }
}

/// A copy of a list of strings.
pub fn strings_clone(v: &Vec<String>) -> (r: Vec<String>)
    ensures
        r@ == v@,
        r.deep_view() == v.deep_view(),
{
    let mut r: Vec<String> = Vec::new();
    let mut i: usize = 0;
    while i < v.len()
        invariant
            i <= v.len(),
            r@ == v@.take(i as int),
        decreases v.len() - i,
    {
        r.push(v[i].clone());
        i = i + 1;
    }
    assert(r@ == v@);
    assert(r.deep_view() =~= v.deep_view());
    r
}

/// Whether `a` and `b` are equal up to the case of ASCII letters.
pub fn str_eq_ignore_ascii_case(a: &str, b: &str) -> (r: bool)
    ensures
        r == eq_ignoring_ascii_case(a@, b@),
{
    let x = chars_of(a);
    let y = chars_of(b);
    if x.len() != y.len() {
        return false;
    }
    let mut i: usize = 0;
    while i < x.len()
        invariant
            i <= x.len(),
            x.len() == y.len(),
            x@ == a@,
            y@ == b@,
            forall|j: int| 0 <= j < i ==> ascii_lower(#[trigger] x@[j]) == ascii_lower(y@[j]),
        decreases x.len() - i,
    {
        if char_lower(x[i]) != char_lower(y[i]) {
            assert(ascii_lower(a@[i as int]) != ascii_lower(b@[i as int]));
            return false;
        }
        i = i + 1;
    }
    true
}

/// Executable form of [`ascii_lower`].
pub fn char_lower(c: char) -> (r: char)
    ensures
        r == ascii_lower(c),
{
    if 'A' <= c && c <= 'Z' {
        ((c as u8) + 32) as char
    } else {
        c
    }
}

/// Whether `s` begins with `prefix`.
pub fn starts_with(s: &str, prefix: &str) -> (r: bool)
    ensures
        r == has_prefix(s@, prefix@),
{
    let n = s.unicode_len();
    let m = prefix.unicode_len();
    if m > n {
        return false;
    }
    str_eq(s.substring_char(0, m), prefix)
}

/// `s` from its character number `n` on.
pub fn skip_chars(s: &str, n: usize) -> (r: String)
    requires
        n <= s@.len(),
    ensures
        r@ == s@.skip(n as int),
{
    let len = s.unicode_len();
    let r = s.substring_char(n, len).to_owned();
    assert(s@.subrange(n as int, len as int) == s@.skip(n as int));
    r
}

/// `a` followed by `b`.
pub fn str_concat(a: &str, b: &str) -> (r: String)
    ensures
        r@ == a@ + b@,
{
    let mut r = a.to_owned();
    r.append(b);
    r
}

/// Splits `s` at white space into its words, as [`words`] defines them.
/// None of them is empty, and none holds white space.
pub fn split_whitespace(s: &str) -> (out: Vec<String>)
    ensures
        out.deep_view() == words(s@),
        forall|i: int| 0 <= i < out.len() ==> is_word(#[trigger] out.deep_view()[i]),
{
    proof {
        lemma_words_are_words(s@);
    }
    let cs = chars_of(s);
    let mut out: Vec<String> = Vec::new();
    let mut start: usize = 0;
    let mut in_word: bool = false;
    let mut i: usize = 0;
    assert(s@.take(0) =~= Seq::<char>::empty());
    while i < cs.len()
        invariant
            cs@ == s@,
            i <= cs.len(),
            in_word ==> start < i && !is_space(s@[i - 1]) && words(s@.take(i as int))
                == out.deep_view().push(s@.subrange(start as int, i as int)),
            !in_word ==> (i == 0 || is_space(s@[i - 1])) && words(s@.take(i as int))
                == out.deep_view(),
        decreases cs.len() - i,
    {
        let c = cs[i];
        let ghost prev = s@.take(i as int);
        let ghost next = s@.take(i + 1);
        let ghost done = out.deep_view();
        assert(next.drop_last() =~= prev);
        assert(next.last() == c);
        if char_is_space(c) {
            if in_word {
                let w = s.substring_char(start, i).to_owned();
                out.push(w);
                assert(out.deep_view() =~= done.push(s@.subrange(start as int, i as int)));
                in_word = false;
            }
        } else if in_word {
            assert(next[next.len() - 2] == s@[i - 1]);
            assert(words(prev).drop_last() =~= done);
            assert(s@.subrange(start as int, i as int).push(c) =~= s@.subrange(
                start as int,
                i + 1,
            ));
        } else {
            if i > 0 {
                assert(next[next.len() - 2] == s@[i - 1]);
            }
            assert(seq![c] =~= s@.subrange(i as int, i + 1));
            start = i;
            in_word = true;
        }
        i = i + 1;
    }
    assert(s@.take(i as int) =~= s@);
    if in_word {
        let ghost done = out.deep_view();
        let w = s.substring_char(start, i).to_owned();
        out.push(w);
        assert(out.deep_view() =~= done.push(s@.subrange(start as int, i as int)));
    }
    out
}

/// The elements of `a` followed by those of `b`.
pub fn concat_lists(a: &Vec<String>, b: &Vec<String>) -> (r: Vec<String>)
    ensures
        r.deep_view() == a.deep_view() + b.deep_view(),
{
    let mut r = strings_clone(a);
    let mut i: usize = 0;
    while i < b.len()
        invariant
            i <= b.len(),
            r.deep_view() == a.deep_view() + b.deep_view().take(i as int),
        decreases b.len() - i,
    {
        let ghost before = r.deep_view();
        r.push(b[i].clone());
        assert(r.deep_view() =~= before.push(b[i as int]@));
        assert(r.deep_view() =~= a.deep_view() + b.deep_view().take(i + 1));
        i = i + 1;
    }
    assert(b.deep_view().take(i as int) =~= b.deep_view());
    r
}

/// What [`words`] gives are words: none is empty, and none holds white
/// space.
pub proof fn lemma_words_are_words(s: Seq<char>)
    ensures
        forall|i: int| 0 <= i < words(s).len() ==> is_word(#[trigger] words(s)[i]),
    decreases s.len(),
{
    if s.len() > 0 {
        let before = words(s.drop_last());
        let c = s.last();
        lemma_words_are_words(s.drop_last());
        if is_space(c) {
        } else if s.len() >= 2 && !is_space(s[s.len() - 2]) && before.len() > 0 {
            let longer = before.last().push(c);
            assert(is_word(before[before.len() - 1]));
            assert(is_word(longer)) by {
                assert forall|j: int| 0 <= j < longer.len() implies !is_space(
                    #[trigger] longer[j],
                ) by {
                    if j < before.last().len() {
                        assert(longer[j] == before.last()[j]);
                    }
                }
            }
            assert forall|i: int| 0 <= i < words(s).len() implies is_word(
                #[trigger] words(s)[i],
            ) by {
                if i < before.len() - 1 {
                    assert(words(s)[i] == before[i]);
                } else {
                    assert(words(s)[i] == longer);
                }
            }
        } else {
            assert(is_word(seq![c]));
            assert forall|i: int| 0 <= i < words(s).len() implies is_word(
                #[trigger] words(s)[i],
            ) by {
                if i < before.len() {
                    assert(words(s)[i] == before[i]);
                } else {
                    assert(words(s)[i] == seq![c]);
                }
            }
        }
    }
}

/// A word that follows white space, or the beginning of the text, is one
/// more word of the text.
pub proof fn lemma_words_append_word(s: Seq<char>, w: Seq<char>)
    requires
        is_word(w),
        s.len() == 0 || is_space(s.last()),
    ensures
        words(s + w) == words(s).push(w),
    decreases w.len(),
{
    let c = w.last();
    let w0 = w.drop_last();
    assert(s + w =~= (s + w0).push(c));
    assert((s + w).drop_last() =~= s + w0);
    assert((s + w).last() == c);
    assert(w0.push(c) =~= w);
    if w.len() == 1 {
        assert(s + w0 =~= s);
        assert(seq![c] =~= w);
        if s.len() > 0 {
            assert((s + w)[(s + w).len() - 2] == s.last());
        }
    } else {
        assert(is_word(w0)) by {
            assert forall|i: int| 0 <= i < w0.len() implies !is_space(#[trigger] w0[i]) by {
                assert(w0[i] == w[i]);
            }
        }
        lemma_words_append_word(s, w0);
        assert((s + w)[(s + w).len() - 2] == w0.last());
        assert(w0.last() == w[w.len() - 2]);
        assert(words(s).push(w0).drop_last() =~= words(s));
    }
}

/// Words that are joined with single spaces are read back as they were:
/// splitting undoes joining.
pub proof fn lemma_words_of_joined(ws: Seq<Seq<char>>)
    requires
        forall|i: int| 0 <= i < ws.len() ==> is_word(#[trigger] ws[i]),
    ensures
        words(joined(ws, " "@)) == ws,
    decreases ws.len(),
{
    reveal_strlit(" ");
    let sep = " "@;
    assert(sep =~= seq![' ']);
    assert(words(Seq::<char>::empty()) =~= Seq::<Seq<char>>::empty());
    if ws.len() == 0 {
        assert(words(joined(ws, sep)) =~= ws);
    } else if ws.len() == 1 {
        lemma_words_append_word(Seq::empty(), ws[0]);
        assert(Seq::<char>::empty() + ws[0] =~= ws[0]);
        assert(Seq::<Seq<char>>::empty().push(ws[0]) =~= ws);
    } else {
        let init = ws.drop_last();
        assert forall|i: int| 0 <= i < init.len() implies is_word(#[trigger] init[i]) by {
            assert(init[i] == ws[i]);
        }
        lemma_words_of_joined(init);
        let head = joined(init, sep);
        let s = head + sep;
        assert(s =~= head.push(' '));
        assert(s.drop_last() =~= head);
        assert(s.last() == ' ');
        assert(is_space(' '));
        assert(words(s) == init);
        lemma_words_append_word(s, ws.last());
        assert(joined(ws, sep) =~= s + ws.last());
        assert(init.push(ws.last()) =~= ws);
    }
}

/// Every element of `s` occurs in `other` exactly where the elements of `s`
/// are a subset of those of `other`.
pub proof fn lemma_all_within(s: Seq<Seq<char>>, other: Seq<Seq<char>>)
    ensures
        all_within(s, other) <==> elements(s).subset_of(elements(other)),
{
    if all_within(s, other) {
        assert forall|w: Seq<char>| elements(s).contains(w) implies elements(other).contains(
            w,
        ) by {
            let k = choose|k: int| 0 <= k < s.len() && s[k] == w;
            assert(other.contains(s[k]));
        }
    }
    if elements(s).subset_of(elements(other)) {
        assert forall|i: int| 0 <= i < s.len() implies other.contains(#[trigger] s[i]) by {
            assert(s.contains(s[i]));
            assert(elements(s).contains(s[i]));
        }
    }
}

/// An element occurs in `distinct(s)` exactly where it occurs in `s`, and
/// `distinct(s)` holds nothing twice.
pub proof fn lemma_distinct(s: Seq<Seq<char>>)
    ensures
        forall|w: Seq<char>| distinct(s).contains(w) <==> s.contains(w),
        forall|i: int, j: int|
            0 <= i < j < distinct(s).len() ==> distinct(s)[i] != distinct(s)[j],
    decreases s.len(),
{
    if s.len() > 0 {
        let t = s.drop_last();
        lemma_distinct(t);
        assert(s =~= t.push(s.last()));
        assert forall|w: Seq<char>| distinct(s).contains(w) <==> s.contains(w) by {
            if s.contains(w) {
                let k = choose|k: int| 0 <= k < s.len() && s[k] == w;
                if k < t.len() {
                    assert(t[k] == w);
                    assert(t.contains(w));
                    assert(distinct(t).contains(w));
                    let m = choose|m: int| 0 <= m < distinct(t).len() && distinct(t)[m] == w;
                    assert(distinct(s)[m] == w);
                } else if t.contains(w) {
                    assert(distinct(t).contains(w));
                } else {
                    assert(distinct(s)[distinct(s).len() - 1] == w);
                }
            }
            if distinct(s).contains(w) {
                let m = choose|m: int| 0 <= m < distinct(s).len() && distinct(s)[m] == w;
                if m < distinct(t).len() {
                    assert(distinct(t)[m] == w);
                    assert(distinct(t).contains(w));
                    assert(t.contains(w));
                    let k = choose|k: int| 0 <= k < t.len() && t[k] == w;
                    assert(s[k] == w);
                } else {
                    assert(s[s.len() - 1] == w);
                }
            }
        }
        assert forall|i: int, j: int| 0 <= i < j < distinct(s).len() implies distinct(s)[i]
            != distinct(s)[j] by {
            if j >= distinct(t).len() {
                assert(distinct(t)[i] == distinct(s)[i]);
                assert(distinct(t).contains(distinct(s)[i]));
            }
        }
    }
}

/// An element occurs in `without(s, other)` exactly where it occurs in `s`
/// and not in `other`.
pub proof fn lemma_without(s: Seq<Seq<char>>, other: Set<Seq<char>>)
    ensures
        forall|w: Seq<char>| without(s, other).contains(w) <==> s.contains(w) && !other.contains(w),
    decreases s.len(),
{
    if s.len() > 0 {
        let t = s.drop_last();
        lemma_without(t, other);
        assert(s =~= t.push(s.last()));
        assert forall|w: Seq<char>|
            without(s, other).contains(w) <==> s.contains(w) && !other.contains(w) by {
            if s.contains(w) && !other.contains(w) {
                let k = choose|k: int| 0 <= k < s.len() && s[k] == w;
                if k < t.len() {
                    assert(t[k] == w);
                    assert(t.contains(w));
                    assert(without(t, other).contains(w));
                    let m = choose|m: int|
                        0 <= m < without(t, other).len() && without(t, other)[m] == w;
                    assert(without(s, other)[m] == w);
                } else {
                    assert(without(s, other)[without(s, other).len() - 1] == w);
                }
            }
            if without(s, other).contains(w) {
                let m = choose|m: int|
                    0 <= m < without(s, other).len() && without(s, other)[m] == w;
                if m < without(t, other).len() {
                    assert(without(t, other)[m] == w);
                    assert(without(t, other).contains(w));
                    assert(t.contains(w));
                    let k = choose|k: int| 0 <= k < t.len() && t[k] == w;
                    assert(s[k] == w);
                } else {
                    assert(s[s.len() - 1] == w);
                }
            }
        }
    }
}

/// Joins `parts` with `sep` between neighbours.
pub fn join(parts: &Vec<String>, sep: &str) -> (r: String)
    ensures
        r@ == joined(parts.deep_view(), sep@),
{
    let mut r = String::new();
    let mut i: usize = 0;
    assert(parts.deep_view().take(0) =~= Seq::<Seq<char>>::empty());
    while i < parts.len()
        invariant
            i <= parts.len(),
            r@ == joined(parts.deep_view().take(i as int), sep@),
        decreases parts.len() - i,
    {
        let ghost before = parts.deep_view().take(i as int);
        let ghost now = parts.deep_view().take(i + 1);
        assert(now.drop_last() =~= before);
        assert(now.last() == parts[i as int]@);
        if i > 0 {
            r.append(sep);
        }
        r.append(parts[i].as_str());
        assert(r@ =~= joined(now, sep@));
        i = i + 1;
    }
    assert(parts.deep_view().take(i as int) =~= parts.deep_view());
    r
}

/// Whether `col` holds `item`.
pub fn contains(col: &Vec<String>, item: &str) -> (r: bool)
    ensures
        r == col.deep_view().contains(item@),
{
    let mut i: usize = 0;
    while i < col.len()
        invariant
            i <= col.len(),
            forall|j: int| 0 <= j < i ==> col.deep_view()[j] != item@,
        decreases col.len() - i,
    {
        if str_eq(col[i].as_str(), item) {
            assert(col.deep_view()[i as int] == item@);
            return true;
        }
        i = i + 1;
    }
    false
}

/// Whether every element of `s` occurs in `other`.
pub fn is_subset(s: &Vec<String>, other: &Vec<String>) -> (r: bool)
    ensures
        r == all_within(s.deep_view(), other.deep_view()),
{
    let mut i: usize = 0;
    while i < s.len()
        invariant
            i <= s.len(),
            forall|j: int| 0 <= j < i ==> other.deep_view().contains(#[trigger] s.deep_view()[j]),
        decreases s.len() - i,
    {
        if !contains(other, s[i].as_str()) {
            assert(!other.deep_view().contains(s.deep_view()[i as int]));
            return false;
        }
        i = i + 1;
    }
    true
}

/// The elements of `s` that `other` does not hold, in their order in `s`.
pub fn difference(s: &Vec<String>, other: &Vec<String>) -> (r: Vec<String>)
    ensures
        r.deep_view() == without(s.deep_view(), elements(other.deep_view())),
{
    let mut r: Vec<String> = Vec::new();
    let mut i: usize = 0;
    assert(s.deep_view().take(0) =~= Seq::<Seq<char>>::empty());
    while i < s.len()
        invariant
            i <= s.len(),
            r.deep_view() == without(s.deep_view().take(i as int), elements(other.deep_view())),
        decreases s.len() - i,
    {
        let ghost before = s.deep_view().take(i as int);
        let ghost now = s.deep_view().take(i + 1);
        let ghost done = r.deep_view();
        assert(now.drop_last() =~= before);
        assert(now.last() == s[i as int]@);
        if !contains(other, s[i].as_str()) {
            r.push(s[i].clone());
            assert(r.deep_view() =~= done.push(s[i as int]@));
        }
        i = i + 1;
    }
    assert(s.deep_view().take(i as int) =~= s.deep_view());
    r
}

/// `s` with each element kept once, at the place of its first occurrence.
pub fn dedup(s: &Vec<String>) -> (r: Vec<String>)
    ensures
        r.deep_view() == distinct(s.deep_view()),
{
    let mut r: Vec<String> = Vec::new();
    let mut i: usize = 0;
    assert(s.deep_view().take(0) =~= Seq::<Seq<char>>::empty());
    while i < s.len()
        invariant
            i <= s.len(),
            r.deep_view() == distinct(s.deep_view().take(i as int)),
            forall|w: Seq<char>|
                r.deep_view().contains(w) <==> s.deep_view().take(i as int).contains(w),
        decreases s.len() - i,
    {
        let ghost before = s.deep_view().take(i as int);
        let ghost now = s.deep_view().take(i + 1);
        let ghost done = r.deep_view();
        assert(now.drop_last() =~= before);
        assert(now.last() == s[i as int]@);
        assert(now =~= before.push(s[i as int]@));
        if !contains(&r, s[i].as_str()) {
            r.push(s[i].clone());
            assert(r.deep_view() =~= done.push(s[i as int]@));
        }
        assert forall|w: Seq<char>| r.deep_view().contains(w) <==> now.contains(w) by {
            if now.contains(w) {
                let k = choose|k: int| 0 <= k < now.len() && now[k] == w;
                if k < i {
                    assert(before[k] == w);
                    assert(done.contains(w));
                    let m = choose|m: int| 0 <= m < done.len() && done[m] == w;
                    assert(r.deep_view()[m] == w);
                } else {
                    assert(w == s[i as int]@);
                    if done.contains(w) {
                        let m = choose|m: int| 0 <= m < done.len() && done[m] == w;
                        assert(r.deep_view()[m] == w);
                    } else {
                        assert(r.deep_view()[r.len() - 1] == w);
                    }
                }
            }
            if r.deep_view().contains(w) {
                let m = choose|m: int| 0 <= m < r.len() && r.deep_view()[m] == w;
                if m < done.len() {
                    assert(done[m] == w);
                    assert(done.contains(w));
                    assert(before.contains(w));
                    let k = choose|k: int| 0 <= k < before.len() && before[k] == w;
                    assert(now[k] == w);
                } else {
                    assert(now[i as int] == w);
                }
            }
        }
        i = i + 1;
    }
    assert(s.deep_view().take(i as int) =~= s.deep_view());
    r
}

/// The value of the decimal digit `c`, if it is one.
pub open spec fn digit_value(c: char) -> Option<int> {
    if '0' <= c <= '9' {
        Some(c as int - 48)
    } else {
        None
    }
}

/// The number that the decimal digits `s` denote; `None` where `s` is empty
/// or holds anything but digits.
pub open spec fn digits_value(s: Seq<char>) -> Option<int>
    decreases s.len(),
{
    if s.len() == 0 {
        None
    } else if s.len() == 1 {
        digit_value(s[0])
    } else {
        match (digits_value(s.drop_last()), digit_value(s.last())) {
            (Some(v), Some(d)) => Some(10 * v + d),
            _ => None,
        }
    }
}

/// The integer that `s` denotes in decimal: an optional sign, `+` or `-`,
/// and at least one digit, within the range of `i64`. `None` for any other
/// text.
pub open spec fn decimal_i64(s: Seq<char>) -> Option<int> {
    let negative = s.len() > 0 && s[0] == '-';
    let signed = s.len() > 0 && (s[0] == '-' || s[0] == '+');
    let digits = if signed {
        s.skip(1)
    } else {
        s
    };
    match digits_value(digits) {
        Some(v) => {
            let n = if negative {
                -v
            } else {
                v
            };
            if i64::MIN <= n <= i64::MAX {
                Some(n)
            } else {
                None
            }
        },
        None => None,
    }
}

/// Digits denote a number only where every beginning of them does, and no
/// smaller one than that beginning.
pub proof fn lemma_digits_prefix(s: Seq<char>, k: int)
    requires
        1 <= k <= s.len(),
        digits_value(s) is Some,
    ensures
        digits_value(s.take(k)) is Some,
        0 <= digits_value(s.take(k))->0 <= digits_value(s)->0,
    decreases s.len(),
{
    if k == s.len() {
        assert(s.take(k) =~= s);
        lemma_digits_not_negative(s);
    } else {
        let t = s.drop_last();
        assert(t.take(k) =~= s.take(k));
        lemma_digits_prefix(t, k);
    }
}

/// Digits denote no negative number.
pub proof fn lemma_digits_not_negative(s: Seq<char>)
    requires
        digits_value(s) is Some,
    ensures
        digits_value(s)->0 >= 0,
    decreases s.len(),
{
    if s.len() > 1 {
        lemma_digits_not_negative(s.drop_last());
    }
}

/// Reads `text` as a decimal integer, as [`decimal_i64`] defines it.
pub fn parse_decimal(text: &str) -> (r: Option<i64>)
    ensures
        match r {
            Some(n) => decimal_i64(text@) == Some(n as int),
            None => decimal_i64(text@) is None,
        },
{
    let cs = chars_of(text);
    let negative = cs.len() > 0 && cs[0] == '-';
    let start: usize = if cs.len() > 0 && (cs[0] == '-' || cs[0] == '+') {
        1
    } else {
        0
    };
    let ghost digits = cs@.skip(start as int);
    assert(cs@.skip(0) =~= cs@);
    if start >= cs.len() {
        assert(digits.len() == 0);
        return None;
    }
    let mut acc: i128 = 0;
    let mut i: usize = start;
    while i < cs.len()
        invariant
            start <= i <= cs.len(),
            start < cs.len(),
            cs@ == text@,
            negative == (cs@[0] == '-'),
            start == (if cs@[0] == '-' || cs@[0] == '+' {
                1int
            } else {
                0int
            }),
            digits == cs@.skip(start as int),
            0 <= acc <= 9223372036854775808,
            i > start ==> digits_value(digits.take(i - start)) == Some(acc as int),
            i == start ==> acc == 0,
        decreases cs.len() - i,
    {
        let c = cs[i];
        let ghost k = i - start + 1;
        let ghost before = digits.take(k - 1);
        let ghost now = digits.take(k);
        proof {
            assert(now.last() == c);
            assert(now.drop_last() =~= before);
            assert(cs@.skip(0) =~= cs@);
        }
        if !('0' <= c && c <= '9') {
            proof {
                assert(digits_value(now) is None);
                if digits_value(digits) is Some {
                    lemma_digits_prefix(digits, k);
                }
            }
            return None;
        }
        let d: i128 = (c as u8 - 48) as i128;
        acc = 10 * acc + d;
        assert(digits_value(now) == Some(acc as int));
        if acc > 9223372036854775808 {
            proof {
                if digits_value(digits) is Some {
                    lemma_digits_prefix(digits, k);
                }
            }
            return None;
        }
        i = i + 1;
    }
    assert(digits.take(i - start) =~= digits);
    assert(cs@.skip(0) =~= cs@);
    if negative {
        Some((-acc) as i64)
    } else if acc > 9223372036854775807 {
        None
    } else {
        Some(acc as i64)
    }
}

} // verus!
