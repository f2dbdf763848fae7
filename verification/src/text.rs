//! Character-level helpers shared by the parsers and formatters of the crate.
//!
//! Strings are handled as sequences of `char`s; every executable helper here
//! is tied to a spec function on `Seq<char>` that says what it computes.
use vstd::prelude::*;
use vstd::string::*;

verus! {

// ------------------------------------------------------------------
// Specifications
// ------------------------------------------------------------------

/// `p` occurs in `s` starting at index `i`.
pub open spec fn occurs_at(s: Seq<char>, p: Seq<char>, i: int) -> bool {
    &&& 0 <= i
    &&& i + p.len() <= s.len()
    &&& s.subrange(i, i + p.len()) == p
}

/// `s` starts with `p`.
pub open spec fn starts_with(s: Seq<char>, p: Seq<char>) -> bool {
    occurs_at(s, p, 0)
}

/// `p` occurs somewhere in `s`.
pub open spec fn contains_seq(s: Seq<char>, p: Seq<char>) -> bool {
    exists|i: int| occurs_at(s, p, i)
}

/// The first index at or after `i` where `p` occurs in `s`.
pub open spec fn find_from(s: Seq<char>, p: Seq<char>, i: int) -> Option<int>
    decreases s.len() + 1 - i,
{
    if i < 0 || i + p.len() > s.len() {
        None
    } else if occurs_at(s, p, i) {
        Some(i)
    } else {
        find_from(s, p, i + 1)
    }
}

/// The first index where `p` occurs in `s` (`str::find`).
pub open spec fn find(s: Seq<char>, p: Seq<char>) -> Option<int> {
    find_from(s, p, 0)
}

/// The first index at or after `i` that holds `c`.
pub open spec fn find_char_from(s: Seq<char>, c: char, i: int) -> Option<int>
    decreases s.len() - i,
{
    if i < 0 || i >= s.len() {
        None
    } else if s[i] == c {
        Some(i)
    } else {
        find_char_from(s, c, i + 1)
    }
}

/// The last index of `s` that holds `c` (`str::rfind` with a `char`).
pub open spec fn rfind_char(s: Seq<char>, c: char) -> Option<int>
    decreases s.len(),
{
    if s.len() == 0 {
        None
    } else if s.last() == c {
        Some(s.len() - 1)
    } else {
        rfind_char(s.drop_last(), c)
    }
}

/// The characters that `char::is_whitespace` accepts (Unicode `White_Space`).
pub open spec fn is_ws(c: char) -> bool {
    let u = c as u32;
    ||| (0x9 <= u && u <= 0xd)
    ||| u == 0x20
    ||| u == 0x85
    ||| u == 0xa0
    ||| u == 0x1680
    ||| (0x2000 <= u && u <= 0x200a)
    ||| u == 0x2028
    ||| u == 0x2029
    ||| u == 0x202f
    ||| u == 0x205f
    ||| u == 0x3000
}

/// `s` without its leading whitespace.
pub open spec fn trim_start(s: Seq<char>) -> Seq<char>
    decreases s.len(),
{
    if s.len() > 0 && is_ws(s[0]) {
        trim_start(s.drop_first())
    } else {
        s
    }
}

/// `s` without its trailing whitespace.
pub open spec fn trim_end(s: Seq<char>) -> Seq<char>
    decreases s.len(),
{
    if s.len() > 0 && is_ws(s.last()) {
        trim_end(s.drop_last())
    } else {
        s
    }
}

/// `s` without leading and trailing whitespace (`str::trim`).
pub open spec fn trim(s: Seq<char>) -> Seq<char> {
    trim_end(trim_start(s))
}

/// `s` with every `c` removed (`str::replace(c, "")`).
pub open spec fn remove_char(s: Seq<char>, c: char) -> Seq<char>
    decreases s.len(),
{
    if s.len() == 0 {
        s
    } else if s.last() == c {
        remove_char(s.drop_last(), c)
    } else {
        remove_char(s.drop_last(), c).push(s.last())
    }
}

/// `s` split at the first `c` (`str::split_once` with a `char`).
pub open spec fn split_once(s: Seq<char>, c: char) -> Option<(Seq<char>, Seq<char>)> {
    match find_char_from(s, c, 0) {
        Some(i) => Some((s.subrange(0, i), s.subrange(i + 1, s.len() as int))),
        None => None,
    }
}

// ------------------------------------------------------------------
// Lemmas
// ------------------------------------------------------------------

/// A found index is an occurrence, and no earlier index (from `i` on) is one.
pub proof fn lemma_find_from(s: Seq<char>, p: Seq<char>, i: int)
    requires
        0 <= i,
    ensures
        find_from(s, p, i) matches Some(k) ==> i <= k && occurs_at(s, p, k) && (forall|j: int|
            i <= j < k ==> !occurs_at(s, p, j)),
        find_from(s, p, i) is None ==> (forall|j: int| i <= j ==> !occurs_at(s, p, j)),
    decreases s.len() + 1 - i,
{
    if i < 0 || i + p.len() > s.len() {
        assert forall|j: int| i <= j implies !occurs_at(s, p, j) by {}
    } else if occurs_at(s, p, i) {
    } else {
        lemma_find_from(s, p, i + 1);
    }
}

/// The first occurrence of a pattern that starts the sequence is at index 0.
pub proof fn lemma_find_prefix(s: Seq<char>, p: Seq<char>)
    requires
        starts_with(s, p),
    ensures
        find(s, p) == Some(0int),
{
}

/// A found character is `c`, and none before it (from `i` on) is.
pub proof fn lemma_find_char_from(s: Seq<char>, c: char, i: int)
    requires
        0 <= i,
    ensures
        find_char_from(s, c, i) matches Some(k) ==> i <= k < s.len() && s[k] == c && (forall|j: int|
            i <= j < k ==> s[j] != c),
        find_char_from(s, c, i) is None ==> (forall|j: int| i <= j < s.len() ==> s[j] != c),
    decreases s.len() - i,
{
    if i >= s.len() {
    } else if s[i] == c {
    } else {
        lemma_find_char_from(s, c, i + 1);
    }
}

/// Searching a concatenation finds the first match in the left part, if any.
pub proof fn lemma_find_char_concat(a: Seq<char>, b: Seq<char>, c: char, i: int)
    requires
        0 <= i <= a.len(),
    ensures
        find_char_from(a + b, c, i) == (match find_char_from(a, c, i) {
            Some(k) => Some(k),
            None => match find_char_from(b, c, 0) {
                Some(k) => Some(k + a.len()),
                None => None,
            },
        }),
    decreases a.len() - i,
{
    if i == a.len() {
        lemma_find_char_shift(a, b, c, 0);
    } else {
        assert((a + b)[i] == a[i]);
        if a[i] != c {
            lemma_find_char_concat(a, b, c, i + 1);
        }
    }
}

/// Searching the right part of a concatenation is searching the whole at shifted indices.
pub proof fn lemma_find_char_shift(a: Seq<char>, b: Seq<char>, c: char, j: int)
    requires
        0 <= j <= b.len(),
    ensures
        find_char_from(a + b, c, a.len() + j) == (match find_char_from(b, c, j) {
            Some(k) => Some(k + a.len()),
            None => None,
        }),
    decreases b.len() - j,
{
    if j < b.len() {
        assert((a + b)[a.len() + j] == b[j]);
        if b[j] != c {
            lemma_find_char_shift(a, b, c, j + 1);
        }
    }
}

/// Removing a character from a concatenation removes it from both parts.
pub proof fn lemma_remove_char_concat(a: Seq<char>, b: Seq<char>, c: char)
    ensures
        remove_char(a + b, c) == remove_char(a, c) + remove_char(b, c),
    decreases b.len(),
{
    if b.len() == 0 {
        assert(a + b =~= a);
    } else {
        assert((a + b).drop_last() =~= a + b.drop_last());
        assert((a + b).last() == b.last());
        lemma_remove_char_concat(a, b.drop_last(), c);
        if b.last() == c {
        } else {
            assert((remove_char(a, c) + remove_char(b.drop_last(), c)).push(b.last()) =~= remove_char(
                a,
                c,
            ) + remove_char(b.drop_last(), c).push(b.last()));
        }
    }
}

/// A sequence without `c` is unchanged by removing `c`.
pub proof fn lemma_remove_char_absent(s: Seq<char>, c: char)
    requires
        !s.contains(c),
    ensures
        remove_char(s, c) == s,
    decreases s.len(),
{
    if s.len() > 0 {
        assert(!s.drop_last().contains(c)) by {
            if s.drop_last().contains(c) {
                let k = choose|k: int| 0 <= k < s.drop_last().len() && s.drop_last()[k] == c;
                assert(s[k] == c);
            }
        }
        assert(s.last() == s[s.len() - 1]);
        lemma_remove_char_absent(s.drop_last(), c);
        assert(s.drop_last().push(s.last()) =~= s);
    }
}

// ------------------------------------------------------------------
// Executable helpers
// ------------------------------------------------------------------

/// The characters of `s`, in order.
pub fn chars_of(s: &str) -> (v: Vec<char>)
    ensures
        v@ == s@,
{
    let n = s.unicode_len();
    let mut v: Vec<char> = Vec::new();
    let mut i: usize = 0;
    while i < n
        invariant
            n == s@.len(),
            i <= n,
            v@ == s@.subrange(0, i as int),
        decreases n - i,
    {
        let c = s.get_char(i);
        v.push(c);
        i = i + 1;
        assert(v@ =~= s@.subrange(0, i as int));
    }
    assert(v@ =~= s@);
    v
}

/// Collects characters into a `String` (std's `FromIterator<&char>` for `String`).
#[verifier::external_body]
pub fn string_of(v: &Vec<char>) -> (s: String)
    ensures
        s@ == v@,
{
    v.iter().collect()
}

/// The concatenation of two strings.
pub fn concat2(a: &str, b: &str) -> (r: String)
    ensures
        r@ == a@ + b@,
{
    let mut s = String::from_str(a);
    s.append(b);
    s
}

/// The concatenation of three strings.
pub fn concat3(a: &str, b: &str, c: &str) -> (r: String)
    ensures
        r@ == a@ + b@ + c@,
{
    let mut s = String::from_str(a);
    s.append(b);
    s.append(c);
    s
}

/// The concatenation of four strings.
pub fn concat4(a: &str, b: &str, c: &str, d: &str) -> (r: String)
    ensures
        r@ == a@ + b@ + c@ + d@,
{
    let mut s = String::from_str(a);
    s.append(b);
    s.append(c);
    s.append(d);
    s
}

/// The concatenation of five strings.
pub fn concat5(a: &str, b: &str, c: &str, d: &str, e: &str) -> (r: String)
    ensures
        r@ == a@ + b@ + c@ + d@ + e@,
{
    let mut s = String::from_str(a);
    s.append(b);
    s.append(c);
    s.append(d);
    s.append(e);
    s
}

/// A copy of `s` as an owned `String`.
pub fn owned(s: &str) -> (r: String)
    ensures
        r@ == s@,
{
    String::from_str(s)
}

/// Whether two character sequences are equal.
pub fn chars_eq(a: &Vec<char>, b: &Vec<char>) -> (r: bool)
    ensures
        r == (a@ == b@),
{
    if a.len() != b.len() {
        return false;
    }
    let mut i: usize = 0;
    while i < a.len()
        invariant
            a.len() == b.len(),
            i <= a.len(),
            forall|j: int| 0 <= j < i ==> a@[j] == b@[j],
        decreases a.len() - i,
    {
        if a[i] != b[i] {
            return false;
        }
        i = i + 1;
    }
    assert(a@ =~= b@);
    true
}

/// Whether two strings are equal.
pub fn str_eq(a: &str, b: &str) -> (r: bool)
    ensures
        r == (a@ == b@),
{
    let x = chars_of(a);
    let y = chars_of(b);
    chars_eq(&x, &y)
}

/// Whether `p` occurs in `s` at index `i`.
pub fn occurs_at_exec(s: &Vec<char>, p: &Vec<char>, i: usize) -> (r: bool)
    ensures
        r == occurs_at(s@, p@, i as int),
{
    if p.len() > s.len() || i > s.len() - p.len() {
        return false;
    }
    let mut k: usize = 0;
    while k < p.len()
        invariant
            i + p.len() <= s.len(),
            k <= p.len(),
            forall|j: int| 0 <= j < k ==> s@[i + j] == p@[j],
        decreases p.len() - k,
    {
        if s[i + k] != p[k] {
            assert(s@.subrange(i as int, i + p.len())[k as int] != p@[k as int]);
            return false;
        }
        k = k + 1;
    }
    assert(s@.subrange(i as int, i + p.len()) =~= p@);
    true
}

/// The first occurrence of `p` in `s` (`str::find`).
pub fn find_exec(s: &Vec<char>, p: &Vec<char>) -> (r: Option<usize>)
    ensures
        match r {
            Some(k) => find(s@, p@) == Some(k as int),
            None => find(s@, p@) is None,
        },
{
    if p.len() > s.len() {
        return None;
    }
    let last = s.len() - p.len();
    let mut i: usize = 0;
    while i <= last
        invariant
            last == s.len() - p.len(),
            p.len() <= s.len(),
            find(s@, p@) == find_from(s@, p@, i as int),
        decreases last + 1 - i,
    {
        if occurs_at_exec(s, p, i) {
            return Some(i);
        }
        if i == last {
            assert(find_from(s@, p@, i + 1) is None);
            return None;
        }
        i = i + 1;
    }
    None
}

/// The first index at or after `start` that holds `c`.
pub fn find_char_exec(s: &Vec<char>, c: char, start: usize) -> (r: Option<usize>)
    ensures
        match r {
            Some(k) => find_char_from(s@, c, start as int) == Some(k as int),
            None => find_char_from(s@, c, start as int) is None,
        },
{
    let mut i: usize = start;
    while i < s.len()
        invariant
            start <= i,
            find_char_from(s@, c, start as int) == find_char_from(s@, c, i as int),
        decreases s.len() - i,
    {
        if s[i] == c {
            return Some(i);
        }
        i = i + 1;
    }
    None
}

/// The last index that holds `c` (`str::rfind` with a `char`).
pub fn rfind_char_exec(s: &Vec<char>, c: char) -> (r: Option<usize>)
    ensures
        match r {
            Some(k) => rfind_char(s@, c) == Some(k as int),
            None => rfind_char(s@, c) is None,
        },
{
    let mut i: usize = s.len();
    assert(s@.subrange(0, i as int) =~= s@);
    while i > 0
        invariant
            i <= s.len(),
            rfind_char(s@, c) == rfind_char(s@.subrange(0, i as int), c),
        decreases i,
    {
        let ghost t = s@.subrange(0, i as int);
        assert(t.drop_last() =~= s@.subrange(0, i - 1));
        if s[i - 1] == c {
            return Some(i - 1);
        }
        i = i - 1;
    }
    assert(s@.subrange(0, 0) =~= Seq::<char>::empty());
    None
}

/// The characters from `from` up to `to`.
pub fn slice_chars(s: &Vec<char>, from: usize, to: usize) -> (r: Vec<char>)
    requires
        from <= to <= s.len(),
    ensures
        r@ == s@.subrange(from as int, to as int),
{
    let mut r: Vec<char> = Vec::new();
    let mut i: usize = from;
    while i < to
        invariant
            from <= i <= to <= s.len(),
            r@ == s@.subrange(from as int, i as int),
        decreases to - i,
    {
        r.push(s[i]);
        i = i + 1;
        assert(r@ =~= s@.subrange(from as int, i as int));
    }
    r
}

/// Whether `c` is whitespace in the sense of `char::is_whitespace`.
pub fn is_ws_exec(c: char) -> (r: bool)
    ensures
        r == is_ws(c),
{
    let u = c as u32;
    (0x9 <= u && u <= 0xd) || u == 0x20 || u == 0x85 || u == 0xa0 || u == 0x1680 || (0x2000 <= u
        && u <= 0x200a) || u == 0x2028 || u == 0x2029 || u == 0x202f || u == 0x205f || u == 0x3000
}

/// `s` without leading and trailing whitespace (`str::trim`).
pub fn trim_exec(s: &Vec<char>) -> (r: Vec<char>)
    ensures
        r@ == trim(s@),
{
    let mut a: usize = 0;
    assert(s@.subrange(0, s.len() as int) =~= s@);
    while a < s.len() && is_ws_exec(s[a])
        invariant
            a <= s.len(),
            trim_start(s@) == trim_start(s@.subrange(a as int, s.len() as int)),
        decreases s.len() - a,
    {
        assert(s@.subrange(a as int, s.len() as int).drop_first() =~= s@.subrange(
            a + 1,
            s.len() as int,
        ));
        a = a + 1;
    }
    let ghost ts = s@.subrange(a as int, s.len() as int);
    assert(trim_start(ts) == ts);
    let mut b: usize = s.len();
    while b > a && is_ws_exec(s[b - 1])
        invariant
            a <= b <= s.len(),
            trim_end(ts) == trim_end(s@.subrange(a as int, b as int)),
        decreases b,
    {
        assert(s@.subrange(a as int, b as int).drop_last() =~= s@.subrange(a as int, b - 1));
        b = b - 1;
    }
    assert(trim_end(s@.subrange(a as int, b as int)) == s@.subrange(a as int, b as int));
    slice_chars(s, a, b)
}

/// `s` with every `c` removed.
pub fn remove_char_exec(s: &Vec<char>, c: char) -> (r: Vec<char>)
    ensures
        r@ == remove_char(s@, c),
{
    let mut r: Vec<char> = Vec::new();
    let mut i: usize = 0;
    while i < s.len()
        invariant
            i <= s.len(),
            r@ == remove_char(s@.subrange(0, i as int), c),
        decreases s.len() - i,
    {
        let ghost t = s@.subrange(0, i + 1);
        assert(t.drop_last() =~= s@.subrange(0, i as int));
        if s[i] != c {
            r.push(s[i]);
        }
        i = i + 1;
    }
    assert(s@.subrange(0, s.len() as int) =~= s@);
    r
}

// ------------------------------------------------------------------
// Numbers and paths
// ------------------------------------------------------------------

/// The character of a decimal digit.
pub open spec fn digit_char(d: int) -> char {
    if d == 0 {
        '0'
    } else if d == 1 {
        '1'
    } else if d == 2 {
        '2'
    } else if d == 3 {
        '3'
    } else if d == 4 {
        '4'
    } else if d == 5 {
        '5'
    } else if d == 6 {
        '6'
    } else if d == 7 {
        '7'
    } else if d == 8 {
        '8'
    } else {
        '9'
    }
}

/// The decimal digits of `n`, as `Display` writes them.
pub open spec fn decimal(n: nat) -> Seq<char>
    decreases n,
{
    if n < 10 {
        seq![digit_char(n as int)]
    } else {
        decimal(n / 10).push(digit_char((n % 10) as int))
    }
}

/// The decimal text of a signed number, as `Display` writes it.
pub open spec fn signed_decimal(n: int) -> Seq<char> {
    if n < 0 {
        seq!['-'] + decimal((-n) as nat)
    } else {
        decimal(n as nat)
    }
}

fn digit_exec(d: u64) -> (c: char)
    requires
        d < 10,
    ensures
        c == digit_char(d as int),
{
    if d == 0 {
        '0'
    } else if d == 1 {
        '1'
    } else if d == 2 {
        '2'
    } else if d == 3 {
        '3'
    } else if d == 4 {
        '4'
    } else if d == 5 {
        '5'
    } else if d == 6 {
        '6'
    } else if d == 7 {
        '7'
    } else if d == 8 {
        '8'
    } else {
        '9'
    }
}

fn decimal_chars(n: u64) -> (v: Vec<char>)
    ensures
        v@ == decimal(n as nat),
    decreases n,
{
    if n < 10 {
        let mut v: Vec<char> = Vec::new();
        v.push(digit_exec(n));
        assert(v@ =~= seq![digit_char(n as int)]);
        v
    } else {
        let mut v = decimal_chars(n / 10);
        v.push(digit_exec(n % 10));
        v
    }
}

/// The decimal text of `n`.
pub fn u64_to_string(n: u64) -> (s: String)
    ensures
        s@ == decimal(n as nat),
{
    let v = decimal_chars(n);
    string_of(&v)
}

/// The decimal text of `n`.
pub fn i32_to_string(n: i32) -> (s: String)
    ensures
        s@ == signed_decimal(n as int),
{
    if n < 0 {
        let m: i64 = -(n as i64);
        let v = decimal_chars(m as u64);
        let mut w: Vec<char> = Vec::new();
        w.push('-');
        let mut v2 = v;
        w.append(&mut v2);
        assert(w@ =~= seq!['-'] + decimal((-(n as int)) as nat));
        string_of(&w)
    } else {
        u64_to_string(n as u64)
    }
}

/// The decimal text of `n`.
pub fn i64_to_string(n: i64) -> (s: String)
    ensures
        s@ == signed_decimal(n as int),
{
    if n < 0 {
        let m: u64 = (-(n as i128)) as u64;
        let v = decimal_chars(m);
        let mut w: Vec<char> = Vec::new();
        w.push('-');
        let mut v2 = v;
        w.append(&mut v2);
        assert(w@ =~= seq!['-'] + decimal((-(n as int)) as nat));
        string_of(&w)
    } else {
        u64_to_string(n as u64)
    }
}

/// `s` followed by spaces up to `width` characters, as `{:<width}` writes it.
pub open spec fn pad_right(s: Seq<char>, width: nat) -> Seq<char> {
    if s.len() >= width {
        s
    } else {
        s + Seq::new((width - s.len()) as nat, |i: int| ' ')
    }
}

/// `s` followed by spaces up to `width` characters.
pub fn pad_right_exec(s: &str, width: usize) -> (r: String)
    ensures
        r@ == pad_right(s@, width as nat),
{
    let mut v = chars_of(s);
    let n = v.len();
    if n >= width {
        return owned(s);
    }
    let mut k: usize = n;
    while k < width
        invariant
            n <= k <= width,
            n == s@.len(),
            v@ == s@ + Seq::new((k - n) as nat, |i: int| ' '),
        decreases width - k,
    {
        v.push(' ');
        k = k + 1;
        assert(v@ =~= s@ + Seq::new((k - n) as nat, |i: int| ' '));
    }
    string_of(&v)
}

/// `base` joined with `part` the way `Path::join` does on Unix: an absolute
/// `part` replaces `base`, otherwise a `/` separates them where needed.
pub open spec fn join_path(base: Seq<char>, part: Seq<char>) -> Seq<char> {
    if part.len() > 0 && part[0] == '/' {
        part
    } else if base.len() > 0 && base.last() != '/' {
        base + seq!['/'] + part
    } else {
        base + part
    }
}

/// `base` joined with `part`, as [`join_path`] describes it.
pub fn join_path_exec(base: &str, part: &str) -> (r: String)
    ensures
        r@ == join_path(base@, part@),
{
    let b = chars_of(base);
    let p = chars_of(part);
    if p.len() > 0 && p[0] == '/' {
        owned(part)
    } else if b.len() > 0 && b[b.len() - 1] != '/' {
        proof {
            reveal_strlit("/");
            assert("/"@ =~= seq!['/']);
        }
        concat3(base, "/", part)
    } else {
        concat2(base, part)
    }
}

/// A found last index lies within the sequence and holds `c`.
pub proof fn lemma_rfind_char(s: Seq<char>, c: char)
    ensures
        rfind_char(s, c) matches Some(i) ==> 0 <= i < s.len() && s[i] == c,
    decreases s.len(),
{
    if s.len() > 0 && s.last() != c {
        lemma_rfind_char(s.drop_last(), c);
    }
}

// ------------------------------------------------------------------
// The order of texts
// ------------------------------------------------------------------

/// `a` sorts strictly before `b` in the order of `str`'s `Ord`: the first
/// character where they differ decides, by code point, and a proper prefix
/// comes first.  UTF-8 keeps the order of code points, so this is the byte
/// order that `Ord` compares by.
pub open spec fn text_lt(a: Seq<char>, b: Seq<char>) -> bool
    decreases a.len(),
{
    if b.len() == 0 {
        false
    } else if a.len() == 0 {
        true
    } else if a[0] != b[0] {
        (a[0] as u32) < (b[0] as u32)
    } else {
        text_lt(a.drop_first(), b.drop_first())
    }
}

/// No text sorts before itself.
pub proof fn lemma_text_lt_irreflexive(a: Seq<char>)
    ensures
        !text_lt(a, a),
    decreases a.len(),
{
    if a.len() > 0 {
        lemma_text_lt_irreflexive(a.drop_first());
    }
}

/// The order of texts is transitive.
pub proof fn lemma_text_lt_transitive(a: Seq<char>, b: Seq<char>, c: Seq<char>)
    requires
        text_lt(a, b),
        text_lt(b, c),
    ensures
        text_lt(a, c),
    decreases a.len(),
{
    if a.len() > 0 && a[0] == b[0] && b[0] == c[0] {
        lemma_text_lt_transitive(a.drop_first(), b.drop_first(), c.drop_first());
    }
}

/// Whether `a` sorts strictly before `b`.
pub fn text_lt_exec(a: &Vec<char>, b: &Vec<char>) -> (r: bool)
    ensures
        r == text_lt(a@, b@),
{
    let mut i: usize = 0;
    assert(a@.subrange(0, a.len() as int) =~= a@);
    assert(b@.subrange(0, b.len() as int) =~= b@);
    while i < a.len() && i < b.len()
        invariant
            i <= a.len(),
            i <= b.len(),
            text_lt(a@, b@) == text_lt(
                a@.subrange(i as int, a.len() as int),
                b@.subrange(i as int, b.len() as int),
            ),
        decreases a.len() - i,
    {
        if a[i] != b[i] {
            return (a[i] as u32) < (b[i] as u32);
        }
        assert(a@.subrange(i as int, a.len() as int).drop_first() =~= a@.subrange(
            i + 1,
            a.len() as int,
        ));
        assert(b@.subrange(i as int, b.len() as int).drop_first() =~= b@.subrange(
            i + 1,
            b.len() as int,
        ));
        i = i + 1;
    }
    a.len() < b.len()
}

/// Whether `a` sorts strictly before `b`.
pub fn str_lt(a: &str, b: &str) -> (r: bool)
    ensures
        r == text_lt(a@, b@),
{
    let x = chars_of(a);
    let y = chars_of(b);
    text_lt_exec(&x, &y)
}

/// The views of a list of strings.
pub open spec fn texts(v: Seq<String>) -> Seq<Seq<char>> {
    v.map_values(|s: String| s@)
}

/// No text of `s` sorts strictly before one that comes earlier.
pub open spec fn sorted_texts(s: Seq<Seq<char>>) -> bool {
    forall|i: int, j: int| 0 <= i < j < s.len() ==> !text_lt(#[trigger] s[j], #[trigger] s[i])
}

/// Inserting `x` into a sorted list before the first text that `x` sorts
/// before keeps the list sorted.
proof fn lemma_insert_sorted(s: Seq<Seq<char>>, p: int, x: Seq<char>)
    requires
        sorted_texts(s),
        0 <= p <= s.len(),
        forall|i: int| 0 <= i < p ==> !text_lt(x, #[trigger] s[i]),
        p < s.len() ==> text_lt(x, s[p]),
    ensures
        sorted_texts(s.insert(p, x)),
{
    let t = s.insert(p, x);
    assert forall|i: int, j: int| 0 <= i < j < t.len() implies !text_lt(
        #[trigger] t[j],
        #[trigger] t[i],
    ) by {
        if j < p {
            assert(t[i] == s[i] && t[j] == s[j]);
        } else if j == p {
            assert(t[i] == s[i]);
        } else if i < p {
            assert(t[i] == s[i] && t[j] == s[j - 1]);
        } else if i == p {
            assert(t[j] == s[j - 1]);
            if text_lt(s[j - 1], x) {
                lemma_text_lt_transitive(s[j - 1], x, s[p]);
                if j - 1 == p {
                    lemma_text_lt_irreflexive(s[p]);
                } else {
                    assert(!text_lt(s[j - 1], s[p]));
                }
            }
        } else {
            assert(t[i] == s[i - 1] && t[j] == s[j - 1]);
        }
    }
}

/// The strings of `v` in ascending order, as `sort` on a `Vec<String>` leaves them.
pub fn sort_texts(v: &Vec<String>) -> (r: Vec<String>)
    ensures
        sorted_texts(texts(r@)),
        texts(r@).to_multiset() == texts(v@).to_multiset(),
{
    broadcast use vstd::seq_lib::group_to_multiset_ensures;
    let mut r: Vec<String> = Vec::new();
    let mut k: usize = 0;
    assert(texts(r@) =~= texts(v@.subrange(0, 0)));
    while k < v.len()
        invariant
            k <= v.len(),
            sorted_texts(texts(r@)),
            texts(r@).to_multiset() == texts(v@.subrange(0, k as int)).to_multiset(),
        decreases v.len() - k,
    {
        let x = v[k].clone();
        let mut p: usize = 0;
        let mut found = false;
        while p < r.len() && !found
            invariant
                p <= r.len(),
                found ==> p < r.len() && text_lt(x@, texts(r@)[p as int]),
                forall|i: int| 0 <= i < p ==> !text_lt(x@, #[trigger] texts(r@)[i]),
            decreases (r.len() - p) * 2 + (if found {
                0int
            } else {
                1int
            }),
        {
            if str_lt(x.as_str(), r[p].as_str()) {
                found = true;
            } else {
                p = p + 1;
            }
        }
        let ghost s = texts(r@);
        proof {
            lemma_insert_sorted(s, p as int, x@);
            vstd::seq_lib::to_multiset_insert(s, p as int, x@);
            vstd::seq_lib::to_multiset_build(texts(v@.subrange(0, k as int)), v@[k as int]@);
            assert(texts(v@.subrange(0, k + 1)) =~= texts(v@.subrange(0, k as int)).push(
                v@[k as int]@,
            ));
        }
        r.insert(p, x);
        assert(texts(r@) =~= s.insert(p as int, x@));
        k = k + 1;
    }
    assert(v@.subrange(0, v.len() as int) =~= v@);
    r
}

// ------------------------------------------------------------------
// Rewriting a line
// ------------------------------------------------------------------

/// `contents` with the text from the first occurrence of `key` up to the end
/// of that line replaced by `key` followed by `rest`; unchanged when `key`
/// does not occur or no newline follows it.
pub open spec fn rewrite_line(contents: Seq<char>, key: Seq<char>, rest: Seq<char>) -> Seq<char> {
    match find(contents, key) {
        None => contents,
        Some(i) => match find_char_from(contents, '\n', i) {
            Some(e) => contents.subrange(0, i) + key + rest + contents.subrange(
                e,
                contents.len() as int,
            ),
            None => contents,
        },
    }
}

/// Where `key` first occurs in `contents`, a newline follows it.
pub open spec fn key_line_ends(contents: Seq<char>, key: Seq<char>) -> bool {
    find(contents, key) matches Some(i) ==> find_char_from(contents, '\n', i) is Some
}

/// Two texts that agree on their first `n` characters have the same
/// occurrences of `p` that end within them.
proof fn lemma_occurs_in_common_prefix(s: Seq<char>, t: Seq<char>, p: Seq<char>, n: int, j: int)
    requires
        0 <= j,
        j + p.len() <= n,
        n <= s.len(),
        n <= t.len(),
        forall|m: int| 0 <= m < n ==> s[m] == t[m],
    ensures
        occurs_at(s, p, j) == occurs_at(t, p, j),
{
    assert(s.subrange(j, j + p.len()) =~= t.subrange(j, j + p.len()));
}

/// Rewriting the line of `key` twice leaves what the second rewrite wrote.
pub proof fn lemma_rewrite_line_twice(
    contents: Seq<char>,
    key: Seq<char>,
    first: Seq<char>,
    second: Seq<char>,
)
    requires
        key_line_ends(contents, key),
        !key.contains('\n'),
        !first.contains('\n'),
    ensures
        key_line_ends(rewrite_line(contents, key, first), key),
        rewrite_line(rewrite_line(contents, key, first), key, second) == rewrite_line(
            contents,
            key,
            second,
        ),
{
    lemma_find_from(contents, key, 0);
    if find(contents, key) is Some {
        let i = find(contents, key)->0;
        lemma_find_char_from(contents, '\n', i);
        let e = find_char_from(contents, '\n', i)->0;
        let head = contents.subrange(0, i) + key + first;
        let tail = contents.subrange(e, contents.len() as int);
        let t = head + tail;
        assert(t == rewrite_line(contents, key, first));
        let n = i + key.len();
        // `t` agrees with `contents` up to the end of the key
        assert forall|m: int| 0 <= m < n implies t[m] == contents[m] by {
            if m >= i {
                assert(contents.subrange(i, i + key.len())[m - i] == key[m - i]);
            }
        }
        assert(occurs_at(t, key, i)) by {
            assert(t.subrange(i, i + key.len()) =~= key);
        }
        assert(find(t, key) == Some(i)) by {
            lemma_find_from(t, key, 0);
            match find(t, key) {
                Some(k) => {
                    if k < i {
                        lemma_occurs_in_common_prefix(t, contents, key, n, k);
                    } else if k > i {
                    }
                },
                None => {},
            }
        }
        // the rewritten line still ends where `first` ends
        assert(find_char_from(head, '\n', i) is None) by {
            lemma_find_char_from(head, '\n', i);
            if find_char_from(head, '\n', i) is Some {
                let k = find_char_from(head, '\n', i)->0;
                if k < n {
                    assert(key[k - i] == '\n');
                } else {
                    assert(first[k - n] == '\n');
                }
            }
        }
        assert(tail[0] == '\n');
        assert(find_char_from(tail, '\n', 0) == Some(0int));
        lemma_find_char_concat(head, tail, '\n', i);
        assert(find_char_from(t, '\n', i) == Some(head.len() as int));
        assert(t.subrange(0, i) =~= contents.subrange(0, i));
        assert(t.subrange(head.len() as int, t.len() as int) =~= tail);
    }
}

} // verus!
