//! Character sequences: the text operations that parsing and routing are
//! built from, each stated over `Seq<char>` and implemented over `[char]`.

use vstd::prelude::*;

verus! {

/// Taken on trust from the standard library, not proved here:
/// `String::push` leaves in `s` the characters it held, in their order, with
/// `c` added behind the last.
pub assume_specification[ String::push ](s: &mut String, c: char)
    ensures
        final(s)@ == old(s)@.push(c),
;

/// The characters Unicode classifies as white space.
pub open spec fn is_whitespace(c: char) -> bool {
    let u = c as u32;
    ||| 0x09 <= u <= 0x0d
    ||| u == 0x20
    ||| u == 0x85
    ||| u == 0xa0
    ||| u == 0x1680
    ||| 0x2000 <= u <= 0x200a
    ||| u == 0x2028
    ||| u == 0x2029
    ||| u == 0x202f
    ||| u == 0x205f
    ||| u == 0x3000
}

/// An ASCII upper-case letter becomes its lower-case form; every other
/// character stays as it is.
pub open spec fn lower(c: char) -> char {
    if 'A' <= c && c <= 'Z' {
        ((c as u8) + 32) as char
    } else {
        c
    }
}

/// `s` with every character folded by [`lower`].
pub open spec fn lower_seq(s: Seq<char>) -> Seq<char> {
    Seq::new(s.len(), |i: int| lower(s[i]))
}

/// The position of the first `c` in `s`, or `s.len()` where `s` holds none.
pub open spec fn index_of(s: Seq<char>, c: char) -> int
    decreases s.len(),
{
    if s.len() == 0 || s[0] == c {
        0
    } else {
        1 + index_of(s.drop_first(), c)
    }
}

/// `s` cut at every `sep`: the pieces between the separators, in order. A
/// sequence without a separator is one piece, so the result is never empty.
pub open spec fn split(s: Seq<char>, sep: char) -> Seq<Seq<char>>
    decreases s.len(),
{
    let i = index_of(s, sep);
    if 0 <= i < s.len() {
        seq![s.take(i)] + split(s.skip(i + 1), sep)
    } else {
        seq![s]
    }
}

/// The pieces joined again, with one `sep` between neighbours.
pub open spec fn join(parts: Seq<Seq<char>>, sep: char) -> Seq<char>
    decreases parts.len(),
{
    if parts.len() == 0 {
        Seq::empty()
    } else if parts.len() == 1 {
        parts[0]
    } else {
        parts[0] + seq![sep] + join(parts.drop_first(), sep)
    }
}

/// `s` without its trailing white space.
pub open spec fn trim_end(s: Seq<char>) -> Seq<char>
    decreases s.len(),
{
    if s.len() > 0 && is_whitespace(s.last()) {
        trim_end(s.drop_last())
    } else {
        s
    }
}

/// `s` without its leading white space.
pub open spec fn trim_start(s: Seq<char>) -> Seq<char>
    decreases s.len(),
{
    if s.len() > 0 && is_whitespace(s[0]) {
        trim_start(s.drop_first())
    } else {
        s
    }
}

/// `s` without the white space at either end.
pub open spec fn trim(s: Seq<char>) -> Seq<char> {
    trim_start(trim_end(s))
}

/// `s` without the run of `c` at its end.
pub open spec fn strip_end(s: Seq<char>, c: char) -> Seq<char>
    decreases s.len(),
{
    if s.len() > 0 && s.last() == c {
        strip_end(s.drop_last(), c)
    } else {
        s
    }
}

/// `s` without the run of `c` at its start.
pub open spec fn strip_start(s: Seq<char>, c: char) -> Seq<char>
    decreases s.len(),
{
    if s.len() > 0 && s[0] == c {
        strip_start(s.drop_first(), c)
    } else {
        s
    }
}

/// `s` without the runs of `c` at either end.
pub open spec fn strip(s: Seq<char>, c: char) -> Seq<char> {
    strip_start(strip_end(s, c), c)
}

/// The decimal digits of `n`, most significant first, without leading zeros.
pub open spec fn decimal(n: nat) -> Seq<char>
    decreases n,
{
    if n < 10 {
        seq![digit(n)]
    } else {
        decimal(n / 10).push(digit(n % 10))
    }
}

/// The character for a single decimal digit.
pub open spec fn digit(d: nat) -> char
    recommends
        d < 10,
{
    (('0' as u8) + (d as u8)) as char
}

/// [`index_of`] finds the first occurrence and nothing before it.
pub proof fn lemma_index_of(s: Seq<char>, c: char)
    ensures
        0 <= index_of(s, c) <= s.len(),
        forall|j: int| 0 <= j < index_of(s, c) ==> s[j] != c,
        index_of(s, c) < s.len() ==> s[index_of(s, c)] == c,
    decreases s.len(),
{
    if s.len() == 0 || s[0] == c {
    } else {
        let t = s.drop_first();
        lemma_index_of(t, c);
        assert forall|j: int| 0 <= j < index_of(s, c) implies s[j] != c by {
            if j > 0 {
                assert(s[j] == t[j - 1]);
            }
        }
    }
}

/// Whatever position is the first to hold `c` is the one [`index_of`] names.
pub proof fn lemma_index_of_is(s: Seq<char>, c: char, i: int)
    requires
        0 <= i <= s.len(),
        forall|j: int| 0 <= j < i ==> s[j] != c,
        i < s.len() ==> s[i] == c,
    ensures
        index_of(s, c) == i,
{
    lemma_index_of(s, c);
    let k = index_of(s, c);
    if k < i {
        assert(s[k] != c);
    } else if k > i {
        assert(s[i] != c);
    }
}

/// The characters of `s`, one element each.
pub fn chars_of(s: &str) -> (v: Vec<char>)
    ensures
        v@ == s@,
{
    broadcast use vstd::string::axiom_spec_iter;

    let mut v: Vec<char> = Vec::new();
    for c in it: s.chars()
        invariant
            it.seq() == s@,
            v@ == s@.take(it.index()),
    {
        v.push(c);
    }
    assert(s@.take(s@.len() as int) == s@);
    v
}

/// Appends the characters of `v` to `out`.
pub fn push_chars(out: &mut String, v: &[char])
    ensures
        final(out)@ == old(out)@ + v@,
{
    let mut i: usize = 0;
    while i < v.len()
        invariant
            i <= v.len(),
            out@ == old(out)@ + v@.take(i as int),
        decreases v.len() - i,
    {
        out.push(v[i]);
        assert(v@.take(i + 1) == v@.take(i as int).push(v@[i as int]));
        i += 1;
    }
    assert(v@.take(v@.len() as int) == v@);
}

/// A string made of the characters of `v`.
pub fn string_of(v: &[char]) -> (s: String)
    ensures
        s@ == v@,
{
    let mut s = String::new();
    push_chars(&mut s, v);
    s
}

/// Whether `c` is white space.
pub fn is_space(c: char) -> (r: bool)
    ensures
        r == is_whitespace(c),
{
    let u: u32 = c as u32;
    (0x09 <= u && u <= 0x0d) || u == 0x20 || u == 0x85 || u == 0xa0 || u == 0x1680 || (0x2000 <= u
        && u <= 0x200a) || u == 0x2028 || u == 0x2029 || u == 0x202f || u == 0x205f || u == 0x3000
}

/// `c` folded to lower case where it is an ASCII letter.
pub fn to_lower(c: char) -> (r: char)
    ensures
        r == lower(c),
{
    if c >= 'A' && c <= 'Z' {
        ((c as u8) + 32) as char
    } else {
        c
    }
}

/// The position of the first `c` in `v`, or `v.len()` where there is none.
pub fn find(v: &[char], c: char) -> (i: usize)
    ensures
        i == index_of(v@, c),
        i <= v.len(),
{
    let mut i: usize = 0;
    while i < v.len() && v[i] != c
        invariant
            i <= v.len(),
            forall|j: int| 0 <= j < i ==> v@[j] != c,
        decreases v.len() - i,
    {
        i += 1;
    }
    proof {
        lemma_index_of_is(v@, c, i as int);
    }
    i
}

/// Whether two character slices hold the same text.
pub fn same(a: &[char], b: &[char]) -> (r: bool)
    ensures
        r == (a@ == b@),
{
    if a.len() != b.len() {
        return false;
    }
    let mut i: usize = 0;
    while i < a.len()
        invariant
            i <= a.len(),
            a.len() == b.len(),
            forall|j: int| 0 <= j < i ==> a@[j] == b@[j],
        decreases a.len() - i,
    {
        if a[i] != b[i] {
            return false;
        }
        i += 1;
    }
    assert(a@ =~= b@);
    true
}

/// Whether `a` spells `word`.
pub fn spells(a: &[char], word: &str) -> (r: bool)
    ensures
        r == (a@ == word@),
{
    broadcast use vstd::string::axiom_spec_iter;

    let mut i: usize = 0;
    for c in it: word.chars()
        invariant
            it.seq() == word@,
            i == it.index(),
            i <= a.len(),
            forall|j: int| 0 <= j < i ==> a@[j] == word@[j],
    {
        if i >= a.len() || a[i] != c {
            return false;
        }
        i += 1;
    }
    assert(i == a.len() ==> a@ =~= word@);
    i == a.len()
}

/// Whether `a` spells `word` once ASCII case is set aside.
pub fn spells_ignoring_case(a: &[char], word: &str) -> (r: bool)
    ensures
        r == (lower_seq(a@) == lower_seq(word@)),
{
    broadcast use vstd::string::axiom_spec_iter;

    let mut i: usize = 0;
    for c in it: word.chars()
        invariant
            it.seq() == word@,
            i == it.index(),
            i <= a.len(),
            forall|j: int| 0 <= j < i ==> lower(a@[j]) == lower(word@[j]),
    {
        if i >= a.len() || to_lower(a[i]) != to_lower(c) {
            proof {
                assert(lower_seq(a@).len() == a@.len());
                assert(lower_seq(word@).len() == word@.len());
                if i < a.len() {
                    assert(lower_seq(a@)[i as int] != lower_seq(word@)[i as int]);
                }
            }
            return false;
        }
        i += 1;
    }
    proof {
        assert(lower_seq(a@).len() == a@.len());
        assert(lower_seq(word@).len() == word@.len());
        if i == a.len() {
            assert(lower_seq(a@) =~= lower_seq(word@));
        }
    }
    i == a.len()
}

/// A copy of the characters of `v` from `from` up to `to`.
pub fn copy_range(v: &[char], from: usize, to: usize) -> (r: Vec<char>)
    requires
        from <= to <= v.len(),
    ensures
        r@ == v@.subrange(from as int, to as int),
{
    let mut r: Vec<char> = Vec::new();
    let mut i: usize = from;
    while i < to
        invariant
            from <= i <= to <= v.len(),
            r@ == v@.subrange(from as int, i as int),
        decreases to - i,
    {
        r.push(v[i]);
        assert(v@.subrange(from as int, i + 1) == v@.subrange(from as int, i as int).push(
            v@[i as int],
        ));
        i += 1;
    }
    r
}

/// What [`split`] gives for the rest of a sequence once the pieces before
/// `from` have been taken off.
proof fn lemma_split_step(s: Seq<char>, sep: char, from: int, next: int)
    requires
        0 <= from <= next <= s.len(),
        next == from + index_of(s.skip(from), sep),
    ensures
        next < s.len() ==> split(s.skip(from), sep) == seq![s.subrange(from, next)] + split(
            s.skip(next + 1),
            sep,
        ),
        next == s.len() ==> split(s.skip(from), sep) == seq![s.subrange(from, next)],
{
    let t = s.skip(from);
    let i = index_of(t, sep);
    if next < s.len() {
        assert(t.take(i) == s.subrange(from, next));
        assert(t.skip(i + 1) == s.skip(next + 1));
    } else {
        assert(t == s.subrange(from, next));
    }
}

/// The text held by each of `parts`.
pub open spec fn texts(parts: Seq<Vec<char>>) -> Seq<Seq<char>> {
    Seq::new(parts.len(), |i: int| parts[i]@)
}

/// The pieces of `v` between the occurrences of `sep`.
pub fn split_on(v: &[char], sep: char) -> (parts: Vec<Vec<char>>)
    ensures
        texts(parts@) == split(v@, sep),
        parts.len() >= 1,
{
    let mut parts: Vec<Vec<char>> = Vec::new();
    let mut from: usize = 0;
    assert(v@.skip(0) == v@);
    loop
        invariant
            from <= v.len(),
            split(v@, sep) == texts(parts@) + split(v@.skip(from as int), sep),
        decreases v.len() - from,
    {
        let rest = vstd::slice::slice_subrange(v, from, v.len());
        assert(rest@ == v@.skip(from as int));
        let next = from + find(rest, sep);
        let piece = copy_range(v, from, next);
        proof {
            lemma_split_step(v@, sep, from as int, next as int);
        }
        let ghost before = texts(parts@);
        parts.push(piece);
        assert(texts(parts@) =~= before + seq![piece@]);
        if next == v.len() {
            assert(texts(parts@) == split(v@, sep));
            return parts;
        }
        from = next + 1;
    }
}

/// [`trim_end`] keeps a prefix: the one that ends behind the last character
/// that is not white space.
pub proof fn lemma_trim_end_is(s: Seq<char>, k: int)
    requires
        0 <= k <= s.len(),
        forall|j: int| k <= j < s.len() ==> is_whitespace(s[j]),
        k > 0 ==> !is_whitespace(s[k - 1]),
    ensures
        trim_end(s) == s.take(k),
    decreases s.len(),
{
    if k == s.len() {
        assert(s.take(k) == s);
    } else {
        lemma_trim_end_is(s.drop_last(), k);
        assert(s.drop_last().take(k) == s.take(k));
    }
}

/// [`trim_start`] keeps a suffix: the one that begins at the first character
/// that is not white space.
pub proof fn lemma_trim_start_is(s: Seq<char>, k: int)
    requires
        0 <= k <= s.len(),
        forall|j: int| 0 <= j < k ==> is_whitespace(s[j]),
        k < s.len() ==> !is_whitespace(s[k]),
    ensures
        trim_start(s) == s.skip(k),
    decreases s.len(),
{
    if k == 0 {
        assert(s.skip(0) == s);
    } else {
        let t = s.drop_first();
        assert forall|j: int| 0 <= j < k - 1 implies is_whitespace(t[j]) by {
            assert(t[j] == s[j + 1]);
        }
        lemma_trim_start_is(t, k - 1);
        assert(t.skip(k - 1) == s.skip(k));
    }
}

/// [`strip_end`] keeps the prefix that ends behind the last character other
/// than `c`.
pub proof fn lemma_strip_end_is(s: Seq<char>, c: char, k: int)
    requires
        0 <= k <= s.len(),
        forall|j: int| k <= j < s.len() ==> s[j] == c,
        k > 0 ==> s[k - 1] != c,
    ensures
        strip_end(s, c) == s.take(k),
    decreases s.len(),
{
    if k == s.len() {
        assert(s.take(k) == s);
    } else {
        lemma_strip_end_is(s.drop_last(), c, k);
        assert(s.drop_last().take(k) == s.take(k));
    }
}

/// [`strip_start`] keeps the suffix that begins at the first character other
/// than `c`.
pub proof fn lemma_strip_start_is(s: Seq<char>, c: char, k: int)
    requires
        0 <= k <= s.len(),
        forall|j: int| 0 <= j < k ==> s[j] == c,
        k < s.len() ==> s[k] != c,
    ensures
        strip_start(s, c) == s.skip(k),
    decreases s.len(),
{
    if k == 0 {
        assert(s.skip(0) == s);
    } else {
        let t = s.drop_first();
        assert forall|j: int| 0 <= j < k - 1 implies t[j] == c by {
            assert(t[j] == s[j + 1]);
        }
        lemma_strip_start_is(t, c, k - 1);
        assert(t.skip(k - 1) == s.skip(k));
    }
}

/// `v` without its trailing white space.
pub fn trim_end_of(v: &[char]) -> (r: &[char])
    ensures
        r@ == trim_end(v@),
{
    let mut k: usize = v.len();
    while k > 0 && is_space(v[k - 1])
        invariant
            k <= v.len(),
            forall|j: int| k <= j < v.len() ==> is_whitespace(v@[j]),
        decreases k,
    {
        k -= 1;
    }
    proof {
        lemma_trim_end_is(v@, k as int);
    }
    vstd::slice::slice_subrange(v, 0, k)
}

/// `v` without its leading white space.
pub fn trim_start_of(v: &[char]) -> (r: &[char])
    ensures
        r@ == trim_start(v@),
{
    let mut k: usize = 0;
    while k < v.len() && is_space(v[k])
        invariant
            k <= v.len(),
            forall|j: int| 0 <= j < k ==> is_whitespace(v@[j]),
        decreases v.len() - k,
    {
        k += 1;
    }
    proof {
        lemma_trim_start_is(v@, k as int);
    }
    vstd::slice::slice_subrange(v, k, v.len())
}

/// `v` without the white space at either end.
pub fn trim_of(v: &[char]) -> (r: &[char])
    ensures
        r@ == trim(v@),
{
    trim_start_of(trim_end_of(v))
}

/// `v` without the runs of `c` at either end.
pub fn strip_of(v: &[char], c: char) -> (r: &[char])
    ensures
        r@ == strip(v@, c),
{
    let mut k: usize = v.len();
    while k > 0 && v[k - 1] == c
        invariant
            k <= v.len(),
            forall|j: int| k <= j < v.len() ==> v@[j] == c,
        decreases k,
    {
        k -= 1;
    }
    proof {
        lemma_strip_end_is(v@, c, k as int);
    }
    let head = vstd::slice::slice_subrange(v, 0, k);
    let mut i: usize = 0;
    while i < head.len() && head[i] == c
        invariant
            i <= head.len(),
            forall|j: int| 0 <= j < i ==> head@[j] == c,
        decreases head.len() - i,
    {
        i += 1;
    }
    proof {
        lemma_strip_start_is(head@, c, i as int);
    }
    vstd::slice::slice_subrange(head, i, head.len())
}

/// Appends the decimal digits of `n` to `out`.
pub fn push_decimal(out: &mut String, n: u16)
    ensures
        final(out)@ == old(out)@ + decimal(n as nat),
    decreases n,
{
    if n >= 10 {
        push_decimal(out, n / 10);
    }
    let d: u8 = (n % 10) as u8;
    out.push((48u8 + d) as char);
    proof {
        if n >= 10 {
            assert(old(out)@ + decimal(n as nat / 10).push(digit(n as nat % 10)) == (old(out)@
                + decimal(n as nat / 10)).push(digit(n as nat % 10)));
        } else {
            assert(old(out)@ + seq![digit(n as nat)] == old(out)@.push(digit(n as nat)));
        }
    }
}

/// Whether every character of `s` is white space.
pub open spec fn all_whitespace(s: Seq<char>) -> bool {
    forall|i: int| 0 <= i < s.len() ==> is_whitespace(s[i])
}

/// A sequence without `c` has its first `c` at its end.
pub proof fn lemma_index_of_absent(s: Seq<char>, c: char)
    requires
        !s.contains(c),
    ensures
        index_of(s, c) == s.len(),
{
    lemma_index_of(s, c);
    if index_of(s, c) < s.len() {
        assert(s.contains(s[index_of(s, c)]));
    }
}

/// Behind a piece without `c`, the first `c` is the one that follows it.
pub proof fn lemma_index_of_behind(a: Seq<char>, c: char, b: Seq<char>)
    requires
        !a.contains(c),
    ensures
        index_of(a + seq![c] + b, c) == a.len(),
{
    let s = a + seq![c] + b;
    assert forall|j: int| 0 <= j < a.len() implies s[j] != c by {
        assert(s[j] == a[j]);
        assert(a.contains(a[j]));
    }
    assert(s[a.len() as int] == c);
    lemma_index_of_is(s, c, a.len() as int);
}

/// A sequence without the separator is one piece.
pub proof fn lemma_split_whole(s: Seq<char>, sep: char)
    requires
        !s.contains(sep),
    ensures
        split(s, sep) == seq![s],
{
    lemma_index_of_absent(s, sep);
}

/// The first piece is what stands before the first separator; the other
/// pieces are those of what stands behind it.
pub proof fn lemma_split_first(a: Seq<char>, sep: char, b: Seq<char>)
    requires
        !a.contains(sep),
    ensures
        split(a + seq![sep] + b, sep) == seq![a] + split(b, sep),
{
    let s = a + seq![sep] + b;
    lemma_index_of_behind(a, sep, b);
    assert(s.take(a.len() as int) == a);
    assert(s.skip(a.len() as int + 1) == b);
}

/// The pieces of [`split`] hold no separator, and joined again they give
/// the sequence that was cut.
pub proof fn lemma_split_join(s: Seq<char>, sep: char)
    ensures
        split(s, sep).len() >= 1,
        forall|i: int| 0 <= i < split(s, sep).len() ==> !(#[trigger] split(s, sep)[i]).contains(sep),
        join(split(s, sep), sep) == s,
    decreases s.len(),
{
    lemma_index_of(s, sep);
    let i = index_of(s, sep);
    if i < s.len() {
        let head = s.take(i);
        let rest = s.skip(i + 1);
        lemma_split_join(rest, sep);
        let parts = split(s, sep);
        assert(parts == seq![head] + split(rest, sep));
        assert(parts.drop_first() == split(rest, sep));
        assert(!head.contains(sep)) by {
            if head.contains(sep) {
                let j = choose|j: int| 0 <= j < head.len() && head[j] == sep;
                assert(s[j] == sep);
            }
        }
        assert forall|k: int| 0 <= k < parts.len() implies !(#[trigger] parts[k]).contains(sep) by {
            if k > 0 {
                assert(parts[k] == split(rest, sep)[k - 1]);
            }
        }
        assert(join(parts, sep) == head + seq![sep] + join(split(rest, sep), sep));
        assert(head + seq![sep] + rest == s);
    } else {
        assert(!s.contains(sep)) by {
            if s.contains(sep) {
                let j = choose|j: int| 0 <= j < s.len() && s[j] == sep;
                assert(s[j] == sep);
            }
        }
    }
}

/// What [`trim_end`] keeps is a prefix that does not end in white space,
/// and what it drops is white space.
pub proof fn lemma_trim_end(s: Seq<char>)
    ensures
        trim_end(s).len() <= s.len(),
        trim_end(s) == s.take(trim_end(s).len() as int),
        all_whitespace(s.skip(trim_end(s).len() as int)),
        trim_end(s).len() > 0 ==> !is_whitespace(trim_end(s).last()),
    decreases s.len(),
{
    if s.len() > 0 && is_whitespace(s.last()) {
        let t = s.drop_last();
        lemma_trim_end(t);
        let k = trim_end(t).len() as int;
        assert(t.take(k) == s.take(k));
        let dropped = s.skip(k);
        assert forall|i: int| 0 <= i < dropped.len() implies is_whitespace(dropped[i]) by {
            if i < t.skip(k).len() {
                assert(dropped[i] == t.skip(k)[i]);
            }
        }
    } else {
        assert(s.take(s.len() as int) == s);
    }
}

/// What [`trim_start`] keeps is a suffix that does not start with white
/// space, and what it drops is white space.
pub proof fn lemma_trim_start(s: Seq<char>)
    ensures
        trim_start(s).len() <= s.len(),
        trim_start(s) == s.skip(s.len() - trim_start(s).len()),
        all_whitespace(s.take(s.len() - trim_start(s).len())),
        trim_start(s).len() > 0 ==> !is_whitespace(trim_start(s)[0]),
    decreases s.len(),
{
    if s.len() > 0 && is_whitespace(s[0]) {
        let t = s.drop_first();
        lemma_trim_start(t);
        let k = t.len() - trim_start(t).len();
        assert(t.skip(k) == s.skip(k + 1));
        let dropped = s.take(k + 1);
        assert forall|i: int| 0 <= i < dropped.len() implies is_whitespace(dropped[i]) by {
            if i > 0 {
                assert(dropped[i] == t.take(k)[i - 1]);
            }
        }
    } else {
        assert(s.skip(0) == s);
        assert(s.take(0).len() == 0);
    }
}

/// Behind a piece that ends in a character other than white space,
/// [`trim_end`] works on what follows alone.
pub proof fn lemma_trim_end_behind(a: Seq<char>, b: Seq<char>)
    requires
        a.len() > 0,
        !is_whitespace(a.last()),
    ensures
        trim_end(a + b) == a + trim_end(b),
    decreases b.len(),
{
    if b.len() == 0 {
        assert(a + b == a);
        assert(a + trim_end(b) == a);
    } else if is_whitespace(b.last()) {
        assert((a + b).drop_last() == a + b.drop_last());
        lemma_trim_end_behind(a, b.drop_last());
    } else {
    }
}

/// White space at the end does not change what [`trim_end`] keeps.
pub proof fn lemma_trim_end_padded(s: Seq<char>, pad: Seq<char>)
    requires
        all_whitespace(pad),
    ensures
        trim_end(s + pad) == trim_end(s),
    decreases pad.len(),
{
    if pad.len() == 0 {
        assert(s + pad == s);
    } else {
        assert((s + pad).drop_last() == s + pad.drop_last());
        assert((s + pad).last() == pad.last());
        lemma_trim_end_padded(s, pad.drop_last());
    }
}

/// White space at the start does not change what [`trim_start`] keeps.
pub proof fn lemma_trim_start_padded(pad: Seq<char>, s: Seq<char>)
    requires
        all_whitespace(pad),
    ensures
        trim_start(pad + s) == trim_start(s),
    decreases pad.len(),
{
    if pad.len() == 0 {
        assert(pad + s == s);
    } else {
        assert((pad + s).drop_first() == pad.drop_first() + s);
        assert((pad + s)[0] == pad[0]);
        let rest = pad.drop_first();
        assert forall|i: int| 0 <= i < rest.len() implies is_whitespace(rest[i]) by {
            assert(rest[i] == pad[i + 1]);
        }
        lemma_trim_start_padded(pad.drop_first(), s);
    }
}

/// White space at either end does not change what [`trim`] keeps.
pub proof fn lemma_trim_padded(before: Seq<char>, s: Seq<char>, after: Seq<char>)
    requires
        all_whitespace(before),
        all_whitespace(after),
    ensures
        trim(before + s + after) == trim(s),
{
    lemma_trim_end_padded(before + s, after);
    lemma_trim_end(s);
    let kept = trim_end(s);
    let dropped = s.skip(kept.len() as int);
    assert(s == kept + dropped);
    if kept.len() > 0 {
        assert(before + s == (before + kept) + dropped);
        lemma_trim_end_padded(before + kept, dropped);
        assert((before + kept).last() == kept.last());
        assert(trim_end(before + kept) == before + kept);
        lemma_trim_start_padded(before, kept);
    } else {
        assert(all_whitespace(before + s)) by {
            let whole = before + s;
            assert forall|i: int| 0 <= i < whole.len() implies is_whitespace(whole[i]) by {
                if i >= before.len() {
                    assert(whole[i] == dropped[i - before.len()]);
                }
            }
        }
        assert(before + s == Seq::<char>::empty() + (before + s));
        lemma_trim_end_padded(Seq::empty(), before + s);
    }
}

} // verus!
