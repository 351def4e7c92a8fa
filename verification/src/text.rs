//! Text as sequences of characters: decimal numbers, joining, splitting,
//! trimming and ASCII case, each with the specification it is proved against.
use vstd::prelude::*;

verus! {

broadcast use vstd::string::group_string_axioms;

/// `String::push` appends one character to the end of the string.
pub assume_specification[ String::push ](s: &mut String, c: char)
    ensures
        final(s)@ == old(s)@.push(c),
;

// ---------------------------------------------------------------------------
// Characters and strings
// ---------------------------------------------------------------------------

/// The characters of `s`, in order.
pub fn chars_of(s: &str) -> (v: Vec<char>)
    ensures
        v@ == s@,
{
    let mut v: Vec<char> = Vec::new();
    for c in it: s.chars()
        invariant
            v@ == it.seq().take(it.index() as int),
            it.seq() == s@,
    {
        v.push(c);
        assert(it.seq().take(it.index() + 1) =~= it.seq().take(it.index() as int).push(c));
    }
    assert(s@.take(s@.len() as int) =~= s@);
    v
}

/// The characters of `v` from `from` up to (not including) `to`, as a string.
pub fn string_of(v: &Vec<char>, from: usize, to: usize) -> (s: String)
    requires
        from <= to <= v@.len(),
    ensures
        s@ == v@.subrange(from as int, to as int),
{
    let mut s = String::new();
    let mut i: usize = from;
    assert(s@ =~= v@.subrange(from as int, from as int));
    while i < to
        invariant
            from <= i <= to <= v@.len(),
            s@ == v@.subrange(from as int, i as int),
        decreases to - i,
    {
        s.push(v[i]);
        assert(v@.subrange(from as int, i as int).push(v@[i as int])
            =~= v@.subrange(from as int, i + 1));
        i = i + 1;
    }
    s
}

/// A copy of `s` that is known to hold the same characters.
pub fn copy_str(s: &str) -> (r: String)
    ensures
        r@ == s@,
{
    s.to_owned()
}

/// Whether two strings hold the same characters.
pub fn same_text(a: &str, b: &str) -> (r: bool)
    ensures
        r == (a@ == b@),
{
    let x = a.to_owned();
    let y = b.to_owned();
    x == y
}

/// `s` with `tail` appended.
pub fn joined(s: String, tail: &str) -> (r: String)
    ensures
        r@ == s@ + tail@,
{
    s.concat(tail)
}

// ---------------------------------------------------------------------------
// Optional text and pairs of texts
// ---------------------------------------------------------------------------

/// The characters of an optional string.
pub open spec fn opt_text(o: Option<String>) -> Option<Seq<char>> {
    match o {
        Some(s) => Some(s@),
        None => None,
    }
}

/// A copy of an optional string.
pub fn copy_opt(o: &Option<String>) -> (r: Option<String>)
    ensures
        opt_text(r) == opt_text(*o),
{
    match o {
        Some(s) => Some(s.clone()),
        None => None,
    }
}

/// `text`, or nothing when it is empty.
pub open spec fn non_empty_text(text: Seq<char>) -> Option<Seq<char>> {
    if text.len() == 0 {
        None
    } else {
        Some(text)
    }
}

/// `text` as an optional value: nothing when it is empty.
pub fn non_empty(text: &str) -> (r: Option<String>)
    ensures
        opt_text(r) == non_empty_text(text@),
{
    if text.unicode_len() == 0 {
        None
    } else {
        Some(text.to_owned())
    }
}

/// A list of name/value pairs as character sequences.
pub open spec fn pairs_view(v: Seq<(String, String)>) -> Seq<(Seq<char>, Seq<char>)> {
    Seq::new(v.len(), |i: int| (v[i].0@, v[i].1@))
}

/// A copy of a list of name/value pairs.
pub fn copy_pairs(v: &Vec<(String, String)>) -> (r: Vec<(String, String)>)
    ensures
        pairs_view(r@) == pairs_view(v@),
{
    let mut r: Vec<(String, String)> = Vec::new();
    let mut i: usize = 0;
    while i < v.len()
        invariant
            i <= v@.len(),
            r@.len() == i,
            forall|j: int| 0 <= j < i ==> r@[j].0@ == v@[j].0@ && r@[j].1@ == v@[j].1@,
        decreases v@.len() - i,
    {
        r.push((v[i].0.clone(), v[i].1.clone()));
        i = i + 1;
    }
    assert(pairs_view(r@) =~= pairs_view(v@));
    r
}

// ---------------------------------------------------------------------------
// Lists of texts
// ---------------------------------------------------------------------------

/// A list of strings as character sequences.
pub open spec fn texts(v: Seq<String>) -> Seq<Seq<char>> {
    Seq::new(v.len(), |i: int| v[i]@)
}

/// Appends `s` to `lines`.
pub fn push_text(lines: &mut Vec<String>, s: String)
    ensures
        texts(final(lines)@) == texts(old(lines)@).push(s@),
{
    lines.push(s);
    assert(texts(lines@) =~= texts(old(lines)@).push(s@));
}

/// Appends every string of `more` to `lines`.
pub fn push_texts(lines: &mut Vec<String>, more: Vec<String>)
    ensures
        texts(final(lines)@) == texts(old(lines)@) + texts(more@),
{
    let ghost before = lines@;
    let ghost added = more@;
    let mut more = more;
    lines.append(&mut more);
    assert(texts(lines@) =~= texts(before) + texts(added));
}

/// A list of texts with one element.
pub fn one_text(s: String) -> (r: Vec<String>)
    ensures
        texts(r@) == seq![s@],
{
    let mut r: Vec<String> = Vec::new();
    r.push(s);
    assert(texts(r@) =~= seq![s@]);
    r
}

/// A copy of a list of strings.
pub fn copy_texts(v: &Vec<String>) -> (r: Vec<String>)
    ensures
        texts(r@) == texts(v@),
{
    let mut r: Vec<String> = Vec::new();
    let mut i: usize = 0;
    while i < v.len()
        invariant
            i <= v@.len(),
            r@.len() == i,
            forall|j: int| 0 <= j < i ==> r@[j]@ == v@[j]@,
        decreases v@.len() - i,
    {
        r.push(v[i].clone());
        i = i + 1;
    }
    assert(texts(r@) =~= texts(v@));
    r
}

/// Whether `needle` is one of `haystack`, compared character by character.
pub fn contains_name(haystack: &Vec<String>, needle: &str) -> (r: bool)
    ensures
        r == texts(haystack@).contains(needle@),
{
    let mut i: usize = 0;
    while i < haystack.len()
        invariant
            i <= haystack@.len(),
            forall|j: int| 0 <= j < i ==> haystack@[j]@ != needle@,
        decreases haystack@.len() - i,
    {
        if same_text(haystack[i].as_str(), needle) {
            assert(texts(haystack@)[i as int] == needle@);
            return true;
        }
        i = i + 1;
    }
    assert forall|j: int| 0 <= j < texts(haystack@).len() implies texts(haystack@)[j]
        != needle@ by {
        assert(texts(haystack@)[j] == haystack@[j]@);
    }
    false
}

/// The texts of `parts` with `sep` between each two of them.
pub open spec fn join(parts: Seq<Seq<char>>, sep: Seq<char>) -> Seq<char>
    decreases parts.len(),
{
    if parts.len() == 0 {
        Seq::empty()
    } else if parts.len() == 1 {
        parts[0]
    } else {
        join(parts.drop_last(), sep) + sep + parts.last()
    }
}

/// The strings of `parts` with `sep` between each two of them.
pub fn join_texts(parts: &Vec<String>, sep: &str) -> (r: String)
    ensures
        r@ == join(texts(parts@), sep@),
{
    let mut r = String::new();
    let mut i: usize = 0;
    let ghost all = texts(parts@);
    assert(all.take(0) =~= Seq::<Seq<char>>::empty());
    while i < parts.len()
        invariant
            i <= parts@.len(),
            all == texts(parts@),
            r@ == join(all.take(i as int), sep@),
        decreases parts@.len() - i,
    {
        let ghost before = r@;
        if i > 0 {
            r.append(sep);
        }
        r.append(parts[i].as_str());
        proof {
            let next = all.take(i + 1);
            assert(next.drop_last() =~= all.take(i as int));
            assert(next.last() == parts@[i as int]@);
            if i == 0 {
                assert(r@ =~= next[0]);
            } else {
                assert(r@ =~= before + sep@ + next.last());
            }
        }
        i = i + 1;
    }
    assert(all.take(parts@.len() as int) =~= all);
    r
}

// ---------------------------------------------------------------------------
// Decimal numbers
// ---------------------------------------------------------------------------

/// The character of one decimal digit.
pub open spec fn digit_char(d: nat) -> char {
    (48 + d) as char
}

/// `n` written in decimal, without leading zeros.
pub open spec fn decimal(n: nat) -> Seq<char>
    decreases n,
{
    if n < 10 {
        seq![digit_char(n)]
    } else {
        decimal(n / 10).push(digit_char(n % 10))
    }
}

fn digit(d: u8) -> (c: char)
    requires
        d < 10,
    ensures
        c == digit_char(d as nat),
{
    (48u8 + d) as char
}

/// `n` in decimal.
pub fn wide_decimal_string(n: u128) -> (s: String)
    ensures
        s@ == decimal(n as nat),
    decreases n,
{
    if n < 10 {
        let mut s = String::new();
        s.push(digit(n as u8));
        assert(s@ =~= seq![digit_char(n as nat)]);
        s
    } else {
        let mut s = wide_decimal_string(n / 10);
        s.push(digit((n % 10) as u8));
        s
    }
}

/// `n` in decimal.
pub fn decimal_string(n: u64) -> (s: String)
    ensures
        s@ == decimal(n as nat),
{
    wide_decimal_string(n as u128)
}

/// The number that a decimal text stands for.
pub open spec fn decimal_value(s: Seq<char>) -> nat
    decreases s.len(),
{
    if s.len() == 0 {
        0
    } else {
        10 * decimal_value(s.drop_last()) + (s.last() as nat - 48) as nat
    }
}

/// Reading a decimal text back gives the number it was written from.
pub proof fn lemma_decimal_value(n: nat)
    ensures
        decimal_value(decimal(n)) == n,
        decimal(n).len() > 0,
    decreases n,
{
    if n < 10 {
        let s = seq![digit_char(n)];
        assert(s.drop_last() =~= Seq::<char>::empty());
        assert(s.last() as nat == 48 + n);
        assert(decimal_value(s.drop_last()) == 0);
    } else {
        lemma_decimal_value(n / 10);
        let s = decimal(n);
        assert(s.drop_last() =~= decimal(n / 10));
        assert(s.last() as nat == 48 + n % 10);
    }
}

/// Different numbers have different decimal texts.
pub proof fn lemma_decimal_injective(a: nat, b: nat)
    requires
        decimal(a) == decimal(b),
    ensures
        a == b,
{
    lemma_decimal_value(a);
    lemma_decimal_value(b);
}

// ---------------------------------------------------------------------------
// Splitting
// ---------------------------------------------------------------------------

/// The position of the first `sep` in `s`, or its length when there is none.
pub open spec fn first_index(s: Seq<char>, sep: char) -> int
    decreases s.len(),
{
    if s.len() == 0 || s[0] == sep {
        0
    } else {
        1 + first_index(s.drop_first(), sep)
    }
}

pub proof fn lemma_first_index(s: Seq<char>, sep: char)
    ensures
        0 <= first_index(s, sep) <= s.len(),
        forall|j: int| 0 <= j < first_index(s, sep) ==> s[j] != sep,
        first_index(s, sep) < s.len() ==> s[first_index(s, sep)] == sep,
    decreases s.len(),
{
    if s.len() > 0 && s[0] != sep {
        let t = s.drop_first();
        lemma_first_index(t, sep);
        assert forall|j: int| 0 <= j < first_index(s, sep) implies s[j] != sep by {
            if j > 0 {
                assert(t[j - 1] == s[j]);
            }
        }
        if first_index(s, sep) < s.len() {
            assert(t[first_index(t, sep)] == s[first_index(s, sep)]);
        }
    }
}

/// Pins [`first_index`] down: the only position that is preceded by no `sep`
/// and holds one (or is the end).
pub proof fn lemma_first_index_unique(s: Seq<char>, sep: char, i: int)
    requires
        0 <= i <= s.len(),
        forall|j: int| 0 <= j < i ==> s[j] != sep,
        i < s.len() ==> s[i] == sep,
    ensures
        first_index(s, sep) == i,
{
    lemma_first_index(s, sep);
    let k = first_index(s, sep);
    if k < i {
        assert(s[k] != sep);
    }
    if i < k {
        assert(s[i] != sep);
    }
}

/// The parts of `s` between the occurrences of `sep`, empty ones included.
pub open spec fn split(s: Seq<char>, sep: char) -> Seq<Seq<char>>
    decreases s.len(),
    via split_decreases
{
    let i = first_index(s, sep);
    if i >= s.len() {
        seq![s]
    } else {
        seq![s.take(i)] + split(s.skip(i + 1), sep)
    }
}

#[via_fn]
proof fn split_decreases(s: Seq<char>, sep: char) {
    lemma_first_index(s, sep);
}

/// The position of the first `sep` in `v` at or after `from`.
pub fn find_char(v: &Vec<char>, from: usize, sep: char) -> (i: usize)
    requires
        from <= v@.len(),
    ensures
        from <= i <= v@.len(),
        i - from == first_index(v@.skip(from as int), sep),
{
    let ghost rest = v@.skip(from as int);
    let mut i: usize = from;
    while i < v.len()
        invariant
            from <= i <= v@.len(),
            rest == v@.skip(from as int),
            forall|j: int| 0 <= j < i - from ==> rest[j] != sep,
        decreases v@.len() - i,
    {
        assert(rest[i - from] == v@[i as int]);
        if v[i] == sep {
            proof {
                lemma_first_index_unique(rest, sep, i - from);
            }
            return i;
        }
        i = i + 1;
    }
    proof {
        lemma_first_index_unique(rest, sep, i - from);
    }
    i
}

/// The parts of `s` between the occurrences of `sep`, empty ones included.
pub fn split_text(s: &str, sep: char) -> (parts: Vec<String>)
    ensures
        texts(parts@) == split(s@, sep),
{
    let v = chars_of(s);
    let mut parts: Vec<String> = Vec::new();
    let mut from: usize = 0;
    assert(v@.skip(0) =~= v@);
    assert(texts(parts@) + split(v@, sep) =~= split(v@, sep));
    loop
        invariant
            v@ == s@,
            from <= v@.len(),
            texts(parts@) + split(v@.skip(from as int), sep) == split(s@, sep),
        decreases v@.len() - from,
    {
        let i = find_char(&v, from, sep);
        let piece = string_of(&v, from, i);
        let ghost rest = v@.skip(from as int);
        let ghost before = texts(parts@);
        push_text(&mut parts, piece);
        if i >= v.len() {
            assert(piece@ =~= rest);
            assert(texts(parts@) =~= before + seq![rest]);
            return parts;
        }
        proof {
            assert(piece@ =~= rest.take(i - from));
            assert(rest.skip(i - from + 1) =~= v@.skip(i + 1));
            assert(texts(parts@) + split(v@.skip(i + 1), sep) =~= before + (seq![rest.take(
                i - from,
            )] + split(v@.skip(i + 1), sep)));
        }
        from = i + 1;
    }
}

/// A text without the one carriage return it may end in.
pub open spec fn strip_cr(s: Seq<char>) -> Seq<char> {
    if s.len() > 0 && s.last() == '\r' {
        s.drop_last()
    } else {
        s
    }
}

/// The lines of `s`: a line ends at `\n` or `\r\n`, and the last line end is
/// optional.
pub open spec fn lines(s: Seq<char>) -> Seq<Seq<char>>
    decreases s.len(),
    via lines_decreases
{
    let i = first_index(s, '\n');
    if s.len() == 0 {
        Seq::empty()
    } else if i >= s.len() {
        seq![s]
    } else {
        seq![strip_cr(s.take(i))] + lines(s.skip(i + 1))
    }
}

#[via_fn]
proof fn lines_decreases(s: Seq<char>) {
    lemma_first_index(s, '\n');
}

/// The lines of `s`: a line ends at `\n` or `\r\n`, and the last line end is
/// optional.
pub fn lines_of(s: &str) -> (parts: Vec<String>)
    ensures
        texts(parts@) == lines(s@),
{
    let v = chars_of(s);
    let mut parts: Vec<String> = Vec::new();
    let mut from: usize = 0;
    assert(v@.skip(0) =~= v@);
    assert(texts(parts@) + lines(v@) =~= lines(v@));
    while from < v.len()
        invariant
            v@ == s@,
            from <= v@.len(),
            texts(parts@) + lines(v@.skip(from as int)) == lines(s@),
        decreases v@.len() - from,
    {
        let i = find_char(&v, from, '\n');
        let ghost rest = v@.skip(from as int);
        let ghost before = texts(parts@);
        if i >= v.len() {
            let piece = string_of(&v, from, i);
            push_text(&mut parts, piece);
            assert(piece@ =~= rest);
            assert(texts(parts@) =~= before + seq![rest]);
            return parts;
        }
        let end = if i > from && v[i - 1] == '\r' {
            i - 1
        } else {
            i
        };
        let piece = string_of(&v, from, end);
        push_text(&mut parts, piece);
        proof {
            let whole = rest.take(i - from);
            if whole.len() > 0 {
                assert(whole.last() == v@[i - 1]);
            }
            assert(piece@ =~= strip_cr(whole));
            assert(rest.skip(i - from + 1) =~= v@.skip(i + 1));
            assert(texts(parts@) + lines(v@.skip(i + 1)) =~= before + (seq![strip_cr(whole)]
                + lines(v@.skip(i + 1))));
        }
        from = i + 1;
    }
    assert(v@.skip(from as int) =~= Seq::<char>::empty());
    assert(texts(parts@) + lines(v@.skip(from as int)) =~= texts(parts@));
    parts
}

// ---------------------------------------------------------------------------
// Whitespace
// ---------------------------------------------------------------------------

/// The characters with the Unicode property `White_Space`.
pub open spec fn is_white(c: char) -> bool {
    let n = c as u32;
    ||| 0x9 <= n <= 0xd
    ||| n == 0x20
    ||| n == 0x85
    ||| n == 0xa0
    ||| n == 0x1680
    ||| 0x2000 <= n <= 0x200a
    ||| n == 0x2028
    ||| n == 0x2029
    ||| n == 0x202f
    ||| n == 0x205f
    ||| n == 0x3000
}

fn is_white_char(c: char) -> (r: bool)
    ensures
        r == is_white(c),
{
    let n: u32 = c as u32;
    (0x9 <= n && n <= 0xd) || n == 0x20 || n == 0x85 || n == 0xa0 || n == 0x1680 || (0x2000 <= n
        && n <= 0x200a) || n == 0x2028 || n == 0x2029 || n == 0x202f || n == 0x205f || n == 0x3000
}

/// `s` without its leading whitespace.
pub open spec fn trim_front(s: Seq<char>) -> Seq<char>
    decreases s.len(),
{
    if s.len() > 0 && is_white(s[0]) {
        trim_front(s.drop_first())
    } else {
        s
    }
}

/// `s` without its trailing whitespace.
pub open spec fn trim_back(s: Seq<char>) -> Seq<char>
    decreases s.len(),
{
    if s.len() > 0 && is_white(s.last()) {
        trim_back(s.drop_last())
    } else {
        s
    }
}

/// `s` without leading and trailing whitespace.
pub open spec fn trim(s: Seq<char>) -> Seq<char> {
    trim_back(trim_front(s))
}

/// `s` without leading and trailing whitespace.
pub fn trim_text(s: &str) -> (r: String)
    ensures
        r@ == trim(s@),
{
    let v = chars_of(s);
    let mut from: usize = 0;
    assert(v@.skip(0) =~= v@);
    while from < v.len() && is_white_char(v[from])
        invariant
            v@ == s@,
            from <= v@.len(),
            trim_front(v@.skip(from as int)) == trim_front(s@),
        decreases v@.len() - from,
    {
        assert(v@.skip(from as int).drop_first() =~= v@.skip(from + 1));
        from = from + 1;
    }
    let mut to: usize = v.len();
    assert(v@.subrange(from as int, to as int) =~= v@.skip(from as int));
    assert(trim_front(s@) == v@.subrange(from as int, to as int));
    while to > from && is_white_char(v[to - 1])
        invariant
            from <= to <= v@.len(),
            trim_back(v@.subrange(from as int, to as int)) == trim_back(trim_front(s@)),
        decreases to,
    {
        assert(v@.subrange(from as int, to as int).last() == v@[to - 1]);
        assert(v@.subrange(from as int, to as int).drop_last() =~= v@.subrange(
            from as int,
            to - 1,
        ));
        to = to - 1;
    }
    let r = string_of(&v, from, to);
    assert(r@.len() > 0 ==> r@.last() == v@[to - 1]);
    r
}

/// Trimming a trimmed text changes nothing.
pub proof fn lemma_trim_idempotent(s: Seq<char>)
    ensures
        trim(trim(s)) == trim(s),
{
    lemma_trim_front_ends(s);
    let t = trim_front(s);
    lemma_trim_back_ends(t);
    let u = trim_back(t);
    if u.len() > 0 {
        assert(u[0] == t[0]);
    }
}

proof fn lemma_trim_front_ends(s: Seq<char>)
    ensures
        trim_front(s).len() > 0 ==> !is_white(trim_front(s)[0]),
    decreases s.len(),
{
    if s.len() > 0 && is_white(s[0]) {
        lemma_trim_front_ends(s.drop_first());
    }
}

proof fn lemma_trim_back_ends(s: Seq<char>)
    ensures
        trim_back(s).len() > 0 ==> !is_white(trim_back(s).last()),
        trim_back(s).len() <= s.len(),
        trim_back(s) == s.take(trim_back(s).len() as int),
    decreases s.len(),
{
    if s.len() > 0 && is_white(s.last()) {
        lemma_trim_back_ends(s.drop_last());
        let n = trim_back(s).len() as int;
        assert(s.drop_last().take(n) =~= s.take(n));
    } else {
        assert(s.take(s.len() as int) =~= s);
    }
}

// ---------------------------------------------------------------------------
// ASCII case
// ---------------------------------------------------------------------------

/// `c` with an ASCII capital letter made small.
pub open spec fn lower_char(c: char) -> char {
    let n = c as u32;
    if 0x41 <= n <= 0x5a {
        (n + 0x20) as char
    } else {
        c
    }
}

/// `s` with every ASCII capital letter made small.
pub open spec fn lower(s: Seq<char>) -> Seq<char> {
    Seq::new(s.len(), |i: int| lower_char(s[i]))
}

fn lower_one(c: char) -> (r: char)
    ensures
        r == lower_char(c),
{
    let n: u32 = c as u32;
    if 0x41 <= n && n <= 0x5a {
        (n as u8 + 0x20u8) as char
    } else {
        c
    }
}

/// `s` with every ASCII capital letter made small.
pub fn lower_text(s: &str) -> (r: String)
    ensures
        r@ == lower(s@),
{
    let v = chars_of(s);
    let mut r = String::new();
    let mut i: usize = 0;
    while i < v.len()
        invariant
            v@ == s@,
            i <= v@.len(),
            r@ == lower(v@.take(i as int)),
        decreases v@.len() - i,
    {
        r.push(lower_one(v[i]));
        assert(lower(v@.take(i + 1)) =~= lower(v@.take(i as int)).push(lower_char(v@[i as int])));
        i = i + 1;
    }
    assert(v@.take(v@.len() as int) =~= v@);
    r
}

/// Whether two texts are the same up to ASCII case.
pub fn same_ignoring_case(a: &str, b: &str) -> (r: bool)
    ensures
        r == (lower(a@) == lower(b@)),
{
    let x = lower_text(a);
    let y = lower_text(b);
    x == y
}

// ---------------------------------------------------------------------------
// Containment
// ---------------------------------------------------------------------------

/// Whether `needle` occurs in `s` at position `at`.
pub open spec fn occurs_at(s: Seq<char>, needle: Seq<char>, at: int) -> bool {
    &&& 0 <= at
    &&& at + needle.len() <= s.len()
    &&& s.subrange(at, at + needle.len()) == needle
}

/// Whether `needle` occurs somewhere in `s`.
pub open spec fn contains(s: Seq<char>, needle: Seq<char>) -> bool {
    exists|at: int| #[trigger] occurs_at(s, needle, at)
}

/// Whether `at` is the first position at which `needle` occurs in `s`.
pub open spec fn occurs_first_at(s: Seq<char>, needle: Seq<char>, at: int) -> bool {
    &&& occurs_at(s, needle, at)
    &&& forall|k: int| 0 <= k < at ==> !occurs_at(s, needle, k)
}

/// Whether `s` ends in `tail`.
pub open spec fn ends_with(s: Seq<char>, tail: Seq<char>) -> bool {
    occurs_at(s, tail, s.len() - tail.len())
}

fn matches_at(v: &Vec<char>, needle: &Vec<char>, at: usize) -> (r: bool)
    requires
        at + needle@.len() <= v@.len(),
    ensures
        r == occurs_at(v@, needle@, at as int),
{
    let total: usize = v.len();
    let mut j: usize = 0;
    while j < needle.len()
        invariant
            total == v@.len(),
            at + needle@.len() <= v@.len(),
            j <= needle@.len(),
            forall|k: int| 0 <= k < j ==> v@[at + k] == needle@[k],
        decreases needle@.len() - j,
    {
        if v[at + j] != needle[j] {
            assert(v@.subrange(at as int, at + needle@.len())[j as int] != needle@[j as int]);
            return false;
        }
        j = j + 1;
    }
    assert(v@.subrange(at as int, at + needle@.len()) =~= needle@);
    true
}

/// The first position at which `needle` occurs in `s`, where it does.
pub fn find_text(s: &str, needle: &str) -> (r: Option<usize>)
    ensures
        match r {
            Some(at) => occurs_first_at(s@, needle@, at as int),
            None => !contains(s@, needle@),
        },
{
    let v = chars_of(s);
    let n = chars_of(needle);
    if n.len() > v.len() {
        return None;
    }
    let last: usize = v.len() - n.len();
    let mut at: usize = 0;
    while at <= last
        invariant
            v@ == s@,
            n@ == needle@,
            last == v@.len() - n@.len(),
            at <= last + 1,
            forall|k: int| 0 <= k < at ==> !occurs_at(s@, needle@, k),
        ensures
            at == last + 1 || (at == last && !occurs_at(s@, needle@, last as int)),
        decreases last + 1 - at,
    {
        if matches_at(&v, &n, at) {
            return Some(at);
        }
        if at == last {
            break;
        }
        at = at + 1;
    }
    assert forall|k: int| !occurs_at(s@, needle@, k) by {
        if 0 <= k && k + needle@.len() <= s@.len() {
            assert(k <= last);
        }
    }
    None
}

/// Whether `needle` occurs somewhere in `s`.
pub fn contains_text(s: &str, needle: &str) -> (r: bool)
    ensures
        r == contains(s@, needle@),
{
    match find_text(s, needle) {
        Some(at) => {
            assert(occurs_at(s@, needle@, at as int));
            true
        },
        None => false,
    }
}

/// What stands before and behind the first `sep` in `s`, where there is one.
pub open spec fn split_once(s: Seq<char>, sep: Seq<char>) -> Option<(Seq<char>, Seq<char>)> {
    if contains(s, sep) {
        let at = choose|at: int| occurs_first_at(s, sep, at);
        Some((s.take(at), s.skip(at + sep.len())))
    } else {
        None
    }
}

/// What stands before and behind the first `sep` in `s`, where there is one.
pub fn split_text_once(s: &str, sep: &str) -> (r: Option<(String, String)>)
    ensures
        match split_once(s@, sep@) {
            Some((before, behind)) => r matches Some((a, b)) && a@ == before && b@ == behind,
            None => r is None,
        },
{
    match find_text(s, sep) {
        Some(at) => {
            let v = chars_of(s);
            let total: usize = v.len();
            let width: usize = chars_of(sep).len();
            proof {
                assert(occurs_at(s@, sep@, at as int));
                let chosen = choose|k: int| occurs_first_at(s@, sep@, k);
                assert(occurs_first_at(s@, sep@, chosen));
                assert(chosen == at);
            }
            let before = string_of(&v, 0, at);
            let behind = string_of(&v, at + width, total);
            assert(before@ =~= s@.take(at as int));
            assert(behind@ =~= s@.skip(at + sep@.len()));
            Some((before, behind))
        },
        None => None,
    }
}

/// Whether `s` ends in `tail`.
pub fn ends_with_text(s: &str, tail: &str) -> (r: bool)
    ensures
        r == ends_with(s@, tail@),
{
    let v = chars_of(s);
    let t = chars_of(tail);
    if t.len() > v.len() {
        return false;
    }
    matches_at(&v, &t, v.len() - t.len())
}

// ---------------------------------------------------------------------------
// Laws
// ---------------------------------------------------------------------------

/// What occurs in a text occurs somewhere first.
pub proof fn lemma_occurs_first(s: Seq<char>, needle: Seq<char>)
    requires
        contains(s, needle),
    ensures
        exists|at: int| occurs_first_at(s, needle, at),
{
    let at = choose|at: int| #[trigger] occurs_at(s, needle, at);
    lemma_occurs_first_from(s, needle, at);
}

proof fn lemma_occurs_first_from(s: Seq<char>, needle: Seq<char>, at: int)
    requires
        occurs_at(s, needle, at),
    ensures
        exists|k: int| occurs_first_at(s, needle, k),
    decreases at,
{
    if exists|k: int| 0 <= k < at && occurs_at(s, needle, k) {
        let k = choose|k: int| 0 <= k < at && occurs_at(s, needle, k);
        lemma_occurs_first_from(s, needle, k);
    } else {
        assert(occurs_first_at(s, needle, at));
    }
}

/// A text is split at the first separator: in front of it stands none, and the
/// two parts with it between them are the text.
pub proof fn law_a_text_is_split_at_the_first_separator(s: Seq<char>, sep: Seq<char>)
    ensures
        match split_once(s, sep) {
            Some((before, behind)) => {
                &&& before + sep + behind == s
                &&& forall|k: int| 0 <= k < before.len() ==> !occurs_at(s, sep, k)
            },
            None => forall|k: int| !occurs_at(s, sep, k),
        },
{
    if contains(s, sep) {
        lemma_occurs_first(s, sep);
        let at = choose|at: int| occurs_first_at(s, sep, at);
        assert(s.take(at) + sep + s.skip(at + sep.len()) =~= s);
    }
}

/// Joined parts stand one behind another with the separator between each two
/// of them.
pub proof fn law_parts_are_joined_in_order(parts: Seq<Seq<char>>, last: Seq<char>, sep: Seq<char>)
    ensures
        join(seq![last], sep) == last,
        parts.len() > 0 ==> join(parts.push(last), sep) == join(parts, sep) + sep + last,
        parts.len() == 0 ==> join(parts, sep).len() == 0,
{
    assert(parts.push(last).drop_last() =~= parts);
}

/// The parts of a split text hold no separator, and joined by it they are the
/// text again.
pub proof fn law_split_parts_join_to_the_text(s: Seq<char>, sep: char)
    ensures
        split(s, sep).len() >= 1,
        forall|i: int| 0 <= i < split(s, sep).len() ==> !(#[trigger] split(s, sep)[i]).contains(sep),
        join(split(s, sep), seq![sep]) == s,
    decreases s.len(),
{
    lemma_first_index(s, sep);
    let i = first_index(s, sep);
    if i < s.len() {
        let head = s.take(i);
        let rest = s.skip(i + 1);
        law_split_parts_join_to_the_text(rest, sep);
        lemma_join_in_front(head, split(rest, sep), seq![sep]);
        assert(head + seq![sep] + rest =~= s);
        let parts = split(s, sep);
        assert forall|k: int| 0 <= k < parts.len() implies !(#[trigger] parts[k]).contains(sep) by {
            if k > 0 {
                assert(parts[k] == split(rest, sep)[k - 1]);
            } else {
                assert(parts[0] == head);
            }
        }
    } else {
        assert(split(s, sep) =~= seq![s]);
    }
}

proof fn lemma_join_in_front(head: Seq<char>, parts: Seq<Seq<char>>, sep: Seq<char>)
    requires
        parts.len() > 0,
    ensures
        join(seq![head] + parts, sep) == head + sep + join(parts, sep),
    decreases parts.len(),
{
    let all = seq![head] + parts;
    assert(all.drop_last() =~= seq![head] + parts.drop_last());
    if parts.len() == 1 {
        assert(all.drop_last() =~= seq![head]);
        assert(join(seq![head], sep) == head);
        assert(join(parts, sep) == parts[0]);
        assert(all.last() == parts[0]);
        assert(join(all, sep) =~= head + sep + parts[0]);
    } else {
        lemma_join_in_front(head, parts.drop_last(), sep);
        assert(join(all, sep) =~= head + sep + join(parts, sep));
    }
}

/// Small letters are made of the capital letters from A to Z and of nothing
/// else, one for one.
pub proof fn law_lower_changes_capital_letters_only(s: Seq<char>, i: int)
    requires
        0 <= i < s.len(),
    ensures
        lower(s).len() == s.len(),
        'A' as u32 <= s[i] as u32 <= 'Z' as u32 ==> lower(s)[i] as u32 == s[i] as u32 + 32,
        !('A' as u32 <= s[i] as u32 <= 'Z' as u32) ==> lower(s)[i] == s[i],
        lower(lower(s)) == lower(s),
{
    assert forall|j: int| 0 <= j < s.len() implies lower(lower(s))[j] == lower(s)[j] by {}
    assert(lower(lower(s)) =~= lower(s));
}

/// Trimming takes whitespace from both ends of a text and nothing else.
pub proof fn law_trimming_takes_whitespace_from_the_ends(s: Seq<char>)
    ensures
        exists|from: int, to: int|
            {
                &&& 0 <= from <= to <= s.len()
                &&& trim(s) == #[trigger] s.subrange(from, to)
                &&& forall|j: int| 0 <= j < from ==> is_white(s[j])
                &&& forall|j: int| to <= j < s.len() ==> is_white(s[j])
                &&& from < to ==> !is_white(s[from]) && !is_white(s[to - 1])
            },
{
    lemma_trim_front_at(s);
    let from = choose|from: int|
        {
            &&& 0 <= from <= s.len()
            &&& trim_front(s) == #[trigger] s.skip(from)
            &&& forall|j: int| 0 <= j < from ==> is_white(s[j])
            &&& from < s.len() ==> !is_white(s[from])
        };
    let t = s.skip(from);
    lemma_trim_back_ends(t);
    lemma_trim_back_white(t);
    let to = from + trim_back(t).len();
    assert(trim(s) =~= s.subrange(from, to));
    assert forall|j: int| to <= j < s.len() implies is_white(s[j]) by {
        assert(t[j - from] == s[j]);
    }
}

proof fn lemma_trim_front_at(s: Seq<char>)
    ensures
        exists|from: int|
            {
                &&& 0 <= from <= s.len()
                &&& trim_front(s) == #[trigger] s.skip(from)
                &&& forall|j: int| 0 <= j < from ==> is_white(s[j])
                &&& from < s.len() ==> !is_white(s[from])
            },
    decreases s.len(),
{
    if s.len() > 0 && is_white(s[0]) {
        let rest = s.drop_first();
        lemma_trim_front_at(rest);
        let k = choose|from: int|
            {
                &&& 0 <= from <= rest.len()
                &&& trim_front(rest) == #[trigger] rest.skip(from)
                &&& forall|j: int| 0 <= j < from ==> is_white(rest[j])
                &&& from < rest.len() ==> !is_white(rest[from])
            };
        assert(rest.skip(k) =~= s.skip(k + 1));
        assert forall|j: int| 0 <= j < k + 1 implies is_white(s[j]) by {
            if j > 0 {
                assert(rest[j - 1] == s[j]);
            }
        }
        assert(k + 1 < s.len() ==> rest[k] == s[k + 1]);
    } else {
        assert(s.skip(0) =~= s);
    }
}

proof fn lemma_trim_back_white(s: Seq<char>)
    ensures
        forall|j: int| trim_back(s).len() <= j < s.len() ==> is_white(s[j]),
    decreases s.len(),
{
    if s.len() > 0 && is_white(s.last()) {
        lemma_trim_back_white(s.drop_last());
        lemma_trim_back_ends(s.drop_last());
        assert forall|j: int| trim_back(s).len() <= j < s.len() implies is_white(s[j]) by {
            if j < s.len() - 1 {
                assert(s.drop_last()[j] == s[j]);
            }
        }
    }
}

} // verus!
