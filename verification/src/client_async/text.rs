//! Character-level helpers shared by the client: whitespace trimming, ASCII
//! case folding, substring search, decimal rendering and UTF-8 widths.

use vstd::prelude::*;
use vstd::string::*;
use vstd::utf8::*;

verus! {

/// Unicode `White_Space` (the set `char::is_whitespace` tests for).
pub open spec fn is_whitespace(c: char) -> bool {
    let u = c as u32;
    ||| 0x09 <= u <= 0x0D
    ||| u == 0x20
    ||| u == 0x85
    ||| u == 0xA0
    ||| u == 0x1680
    ||| 0x2000 <= u <= 0x200A
    ||| u == 0x2028
    ||| u == 0x2029
    ||| u == 0x202F
    ||| u == 0x205F
    ||| u == 0x3000
}

/// `s` without its leading whitespace.
pub open spec fn trim_start(s: Seq<char>) -> Seq<char>
    decreases s.len(),
{
    if s.len() > 0 && is_whitespace(s[0]) {
        trim_start(s.drop_first())
    } else {
        s
    }
}

/// `s` without its trailing whitespace.
pub open spec fn trim_end(s: Seq<char>) -> Seq<char>
    decreases s.len(),
{
    if s.len() > 0 && is_whitespace(s.last()) {
        trim_end(s.drop_last())
    } else {
        s
    }
}

/// `s` without leading and trailing whitespace (what `str::trim` returns).
pub open spec fn trim(s: Seq<char>) -> Seq<char> {
    trim_end(trim_start(s))
}

/// The code point of `c` after ASCII lower-casing (`A`-`Z` map to `a`-`z`).
pub open spec fn ascii_lower_code(c: char) -> u32 {
    let u = c as u32;
    if 65 <= u <= 90 {
        (u + 32) as u32
    } else {
        u
    }
}

/// `c` ASCII lower-cased (what `char::to_ascii_lowercase` returns).
pub open spec fn ascii_lower_char(c: char) -> char {
    let u = c as u32;
    if 65 <= u <= 90 {
        (u + 32) as char
    } else {
        c
    }
}

/// `c` ASCII upper-cased (what `char::to_ascii_uppercase` returns).
pub open spec fn ascii_upper_char(c: char) -> char {
    let u = c as u32;
    if 97 <= u <= 122 {
        (u - 32) as char
    } else {
        c
    }
}

/// `s` ASCII lower-cased (what `str::to_ascii_lowercase` returns).
pub open spec fn ascii_lowercase(s: Seq<char>) -> Seq<char> {
    s.map_values(|c: char| ascii_lower_char(c))
}

/// `s` ASCII upper-cased (what `str::to_ascii_uppercase` returns).
pub open spec fn ascii_uppercase(s: Seq<char>) -> Seq<char> {
    s.map_values(|c: char| ascii_upper_char(c))
}

/// ASCII case changes keep a character's lower-cased code, and keep whether
/// it is whitespace.
pub proof fn lemma_ascii_case_chars(c: char)
    ensures
        ascii_lower_code(ascii_lower_char(c)) == ascii_lower_code(c),
        ascii_lower_code(ascii_upper_char(c)) == ascii_lower_code(c),
        is_whitespace(ascii_lower_char(c)) == is_whitespace(c),
        is_whitespace(ascii_upper_char(c)) == is_whitespace(c),
{
}

/// What [`trim_start`] leaves does not begin with whitespace.
pub proof fn lemma_trim_start_head(s: Seq<char>)
    ensures
        trim_start(s).len() == 0 || !is_whitespace(trim_start(s)[0]),
    decreases s.len(),
{
    if s.len() > 0 && is_whitespace(s[0]) {
        lemma_trim_start_head(s.drop_first());
    }
}

/// What [`trim_end`] leaves is a prefix of `s` that does not end with whitespace.
pub proof fn lemma_trim_end_shape(s: Seq<char>)
    ensures
        trim_end(s).len() <= s.len(),
        trim_end(s) == s.subrange(0, trim_end(s).len() as int),
        trim_end(s).len() == 0 || !is_whitespace(trim_end(s).last()),
    decreases s.len(),
{
    if s.len() > 0 && is_whitespace(s.last()) {
        let d = s.drop_last();
        lemma_trim_end_shape(d);
        let k = trim_end(d).len() as int;
        assert(d.subrange(0, k) =~= s.subrange(0, k));
    } else {
        assert(s.subrange(0, s.len() as int) =~= s);
    }
}

/// Trimming twice is trimming once.
pub proof fn lemma_trim_idempotent(s: Seq<char>)
    ensures
        trim(trim(s)) == trim(s),
{
    let t = trim_start(s);
    lemma_trim_start_head(s);
    let u = trim_end(t);
    lemma_trim_end_shape(t);
    if u.len() > 0 {
        assert(u[0] == t[0]);
    }
    assert(trim_start(u) == u);
    assert(trim_end(u) == u);
}

/// Trimming the start commutes with a character map that keeps whitespace.
pub proof fn lemma_trim_start_map(s: Seq<char>, f: spec_fn(char) -> char)
    requires
        forall|c: char| #[trigger] is_whitespace(f(c)) == is_whitespace(c),
    ensures
        trim_start(s.map_values(f)) == trim_start(s).map_values(f),
    decreases s.len(),
{
    let m = s.map_values(f);
    if s.len() > 0 {
        assert(m[0] == f(s[0]));
        assert(is_whitespace(f(s[0])) == is_whitespace(s[0]));
        if is_whitespace(s[0]) {
            assert(m.drop_first() =~= s.drop_first().map_values(f));
            lemma_trim_start_map(s.drop_first(), f);
        }
    } else {
        assert(m =~= s.map_values(f));
    }
}

/// Trimming the end commutes with a character map that keeps whitespace.
pub proof fn lemma_trim_end_map(s: Seq<char>, f: spec_fn(char) -> char)
    requires
        forall|c: char| #[trigger] is_whitespace(f(c)) == is_whitespace(c),
    ensures
        trim_end(s.map_values(f)) == trim_end(s).map_values(f),
    decreases s.len(),
{
    let m = s.map_values(f);
    if s.len() > 0 {
        assert(m.last() == f(s.last()));
        assert(is_whitespace(f(s.last())) == is_whitespace(s.last()));
        if is_whitespace(s.last()) {
            assert(m.drop_last() =~= s.drop_last().map_values(f));
            lemma_trim_end_map(s.drop_last(), f);
        }
    }
}

/// Trimming commutes with a character map that keeps whitespace.
pub proof fn lemma_trim_map(s: Seq<char>, f: spec_fn(char) -> char)
    requires
        forall|c: char| #[trigger] is_whitespace(f(c)) == is_whitespace(c),
    ensures
        trim(s.map_values(f)) == trim(s).map_values(f),
{
    lemma_trim_start_map(s, f);
    lemma_trim_end_map(trim_start(s), f);
}

/// A case-blind prefix test does not see a character map that keeps each
/// character's lower-cased code.
pub proof fn lemma_starts_with_ascii_lower_map(s: Seq<char>, prefix: Seq<char>, f: spec_fn(char) -> char)
    requires
        forall|c: char| #[trigger] ascii_lower_code(f(c)) == ascii_lower_code(c),
    ensures
        starts_with_ascii_lower(s.map_values(f), prefix) == starts_with_ascii_lower(s, prefix),
{
    let m = s.map_values(f);
    if starts_with_ascii_lower(s, prefix) {
        assert forall|i: int| 0 <= i < prefix.len() implies ascii_lower_code(#[trigger] m[i])
            == prefix[i] as u32 by {
            assert(m[i] == f(s[i]));
        }
    }
    if starts_with_ascii_lower(m, prefix) {
        assert forall|i: int| 0 <= i < prefix.len() implies ascii_lower_code(#[trigger] s[i])
            == prefix[i] as u32 by {
            assert(m[i] == f(s[i]));
            assert(ascii_lower_code(m[i]) == prefix[i] as u32);
        }
    }
}

/// `s` starts with `prefix` once `s` is ASCII lower-cased; `prefix` is lower case.
pub open spec fn starts_with_ascii_lower(s: Seq<char>, prefix: Seq<char>) -> bool {
    &&& prefix.len() <= s.len()
    &&& forall|i: int| 0 <= i < prefix.len() ==> ascii_lower_code(#[trigger] s[i]) == prefix[i] as u32
}

/// `needle` occurs in `hay` at position `i`.
pub open spec fn occurs_at(hay: Seq<char>, needle: Seq<char>, i: int) -> bool {
    &&& 0 <= i
    &&& i + needle.len() <= hay.len()
    &&& hay.subrange(i, i + needle.len()) == needle
}

/// `needle` occurs somewhere in `hay` (what `str::contains` answers for a string pattern).
pub open spec fn contains(hay: Seq<char>, needle: Seq<char>) -> bool {
    exists|i: int| occurs_at(hay, needle, i)
}

/// The decimal digit character for `d` in `0..10`.
pub open spec fn digit_char(d: int) -> char {
    (48 + d) as char
}

/// Decimal rendering of a natural number, most significant digit first.
pub open spec fn decimal_nat(n: nat) -> Seq<char>
    decreases n,
{
    if n < 10 {
        seq![digit_char(n as int)]
    } else {
        decimal_nat(n / 10).push(digit_char((n % 10) as int))
    }
}

/// Decimal rendering of an integer, with a leading `-` when negative.
pub open spec fn decimal(n: int) -> Seq<char> {
    if n < 0 {
        seq!['-'] + decimal_nat((-n) as nat)
    } else {
        decimal_nat(n as nat)
    }
}

/// The number that a string of decimal digits spells, most significant first.
pub open spec fn digits_value(s: Seq<char>) -> int
    decreases s.len(),
{
    if s.len() == 0 {
        0
    } else {
        digits_value(s.drop_last()) * 10 + (s.last() as int - 48)
    }
}

/// The decimal rendering of `n` is made of digits, has no leading zero
/// unless it is `0` itself, and reads back as `n`.
pub proof fn lemma_decimal_nat_reads_back(n: nat)
    ensures
        decimal_nat(n).len() > 0,
        forall|i: int| 0 <= i < decimal_nat(n).len() ==> 48 <= #[trigger] decimal_nat(n)[i] as int
            <= 57,
        decimal_nat(n)[0] == '0' ==> n == 0,
        digits_value(decimal_nat(n)) == n,
    decreases n,
{
    if n >= 10 {
        lemma_decimal_nat_reads_back(n / 10);
        let d = decimal_nat(n / 10);
        let r = decimal_nat(n);
        assert(r.drop_last() =~= d);
        assert(r[0] == d[0]);
        assert(r.last() as int == 48 + n % 10);
        assert((n / 10) * 10 + n % 10 == n) by (nonlinear_arith);
        assert(digits_value(r) == digits_value(d) * 10 + (r.last() as int - 48));
    } else {
        let r = decimal_nat(n);
        assert(r.drop_last() =~= Seq::<char>::empty());
        assert(digits_value(r.drop_last()) == 0);
    }
}

/// The decimal rendering of an integer is a `-` followed by the rendering of
/// its magnitude when it is negative, and the rendering of its magnitude
/// otherwise.
pub proof fn lemma_decimal_sign(n: int)
    ensures
        n < 0 ==> decimal(n)[0] == '-' && decimal(n).drop_first() == decimal_nat((-n) as nat),
        n >= 0 ==> digits_value(decimal(n)) == n && decimal(n)[0] != '-',
{
    if n < 0 {
        assert(decimal(n).drop_first() =~= decimal_nat((-n) as nat));
    } else {
        lemma_decimal_nat_reads_back(n as nat);
        assert(48 <= decimal_nat(n as nat)[0] as int <= 57);
    }
}

/// The number of bytes of the UTF-8 encoding of `c`.
pub open spec fn utf8_width(c: char) -> nat {
    let u = c as u32;
    if u < 0x80 {
        1
    } else if u < 0x800 {
        2
    } else if u < 0x10000 {
        3
    } else {
        4
    }
}

/// The longest prefix of `s` whose UTF-8 encoding fits in `max` bytes.
pub open spec fn truncate_spec(s: Seq<char>, max: nat) -> Seq<char>
    decreases s.len(),
{
    if encode_utf8(s).len() <= max || s.len() == 0 {
        s
    } else {
        truncate_spec(s.drop_last(), max)
    }
}

proof fn lemma_encode_utf8_concat(a: Seq<char>, b: Seq<char>)
    ensures
        encode_utf8(a + b) == encode_utf8(a) + encode_utf8(b),
    decreases a.len(),
{
    if a.len() == 0 {
        assert(a + b =~= b);
        assert(encode_utf8(a) =~= Seq::<u8>::empty());
        assert(encode_utf8(a) + encode_utf8(b) =~= encode_utf8(b));
    } else {
        lemma_encode_utf8_concat(a.drop_first(), b);
        assert((a + b).drop_first() =~= a.drop_first() + b);
        assert((a + b)[0] == a[0]);
        assert(encode_utf8(a + b) =~= encode_scalar(a[0] as u32) + encode_utf8(a.drop_first() + b));
        assert(encode_utf8(a) + encode_utf8(b) =~= encode_scalar(a[0] as u32) + (encode_utf8(
            a.drop_first(),
        ) + encode_utf8(b)));
    }
}

proof fn lemma_encode_scalar_width(c: char)
    ensures
        encode_scalar(c as u32).len() == utf8_width(c),
{
    broadcast use vstd::utf8::char_is_scalar;

    assert(is_scalar(c as u32));
}

/// The byte length of a non-empty sequence is that of its prefix plus the
/// width of its last character.
pub proof fn lemma_encode_utf8_len_last(s: Seq<char>)
    requires
        s.len() > 0,
    ensures
        encode_utf8(s).len() == encode_utf8(s.drop_last()).len() + utf8_width(s.last()),
{
    let a = s.drop_last();
    let b = seq![s.last()];
    assert(s =~= a + b);
    lemma_encode_utf8_concat(a, b);
    assert(b.drop_first() =~= Seq::<char>::empty());
    assert(encode_utf8(b.drop_first()) =~= Seq::<u8>::empty());
    assert(encode_utf8(b) =~= encode_scalar(s.last() as u32) + Seq::<u8>::empty());
    lemma_encode_scalar_width(s.last());
}

/// The UTF-8 width of `c`.
pub fn utf8_width_exec(c: char) -> (r: usize)
    ensures
        r == utf8_width(c),
{
    let u = c as u32;
    if u < 0x80 {
        1
    } else if u < 0x800 {
        2
    } else if u < 0x10000 {
        3
    } else {
        4
    }
}

/// `s` cut down to at most `max` bytes, never inside a character.
pub fn truncate(s: &str, max: usize) -> (r: &str)
    ensures
        r@ == truncate_spec(s@, max as nat),
{
    let byte_len = s.as_bytes().len();
    if byte_len <= max {
        return s;
    }
    let v = chars_of(s);
    let mut k: usize = v.len();
    let mut total: usize = byte_len;
    assert(v@.take(k as int) =~= s@);
    while total > max
        invariant
            k <= v@.len(),
            v@ == s@,
            total == encode_utf8(v@.take(k as int)).len(),
            truncate_spec(s@, max as nat) == truncate_spec(v@.take(k as int), max as nat),
        decreases k,
    {
        let ghost t = v@.take(k as int);
        assert(t.len() > 0) by {
            if t.len() == 0 {
                assert(encode_utf8(t) =~= Seq::<u8>::empty());
            }
        }
        proof {
            lemma_encode_utf8_len_last(t);
        }
        assert(t.drop_last() =~= v@.take(k - 1));
        assert(t.last() == v@[k - 1]);
        let w = utf8_width_exec(v[k - 1]);
        total = total - w;
        k = k - 1;
    }
    assert(truncate_spec(v@.take(k as int), max as nat) == v@.take(k as int));
    let r = s.substring_char(0, k);
    assert(r@ =~= v@.take(k as int));
    r
}

/// Appends `c` to `s` (`String::push`).
#[verifier::external_body]
pub fn push_char(s: &mut String, c: char)
    ensures
        final(s)@ == old(s)@.push(c),
{
    s.push(c);
}

/// The characters of `s`, in order.
pub fn chars_of(s: &str) -> (v: Vec<char>)
    ensures
        v@ == s@,
{
    let n = s.unicode_len();
    let mut v: Vec<char> = Vec::new();
    let mut i: usize = 0;
    while i < n
        invariant
            n == s@.len(),
            i <= n,
            v@ == s@.subrange(0, i as int),
        decreases n - i,
    {
        let c = s.get_char(i);
        v.push(c);
        i = i + 1;
        assert(v@ =~= s@.subrange(0, i as int));
    }
    assert(v@ =~= s@);
    v
}

/// A `String` holding the characters `v[from..to]`.
pub fn string_from_chars(v: &Vec<char>, from: usize, to: usize) -> (r: String)
    requires
        from <= to <= v@.len(),
    ensures
        r@ == v@.subrange(from as int, to as int),
{
    let mut r = String::new();
    let mut i = from;
    while i < to
        invariant
            from <= i <= to <= v@.len(),
            r@ == v@.subrange(from as int, i as int),
        decreases to - i,
    {
        push_char(&mut r, v[i]);
        i = i + 1;
        assert(r@ =~= v@.subrange(from as int, i as int));
    }
    r
}

proof fn lemma_trim_start_step(s: Seq<char>, i: int)
    requires
        0 <= i < s.len(),
        is_whitespace(s[i]),
    ensures
        trim_start(s.subrange(i, s.len() as int)) == trim_start(s.subrange(i + 1, s.len() as int)),
{
    assert(s.subrange(i, s.len() as int).drop_first() =~= s.subrange(i + 1, s.len() as int));
}

proof fn lemma_trim_end_step(s: Seq<char>, j: int)
    requires
        0 < j <= s.len(),
        is_whitespace(s[j - 1]),
    ensures
        trim_end(s.subrange(0, j)) == trim_end(s.subrange(0, j - 1)),
{
    assert(s.subrange(0, j).drop_last() =~= s.subrange(0, j - 1));
}

pub fn is_whitespace_char(c: char) -> (r: bool)
    ensures
        r == is_whitespace(c),
{
    let u = c as u32;
    (0x09 <= u && u <= 0x0D) || u == 0x20 || u == 0x85 || u == 0xA0 || u == 0x1680 || (0x2000
        <= u && u <= 0x200A) || u == 0x2028 || u == 0x2029 || u == 0x202F || u == 0x205F || u
        == 0x3000
}

/// The bounds `(start, end)` of `v` with surrounding whitespace removed.
pub fn trim_bounds(v: &Vec<char>) -> (r: (usize, usize))
    ensures
        r.0 <= r.1 <= v@.len(),
        v@.subrange(r.0 as int, r.1 as int) == trim(v@),
{
    let n = v.len();
    let mut i: usize = 0;
    assert(v@.subrange(0, n as int) =~= v@);
    while i < n && is_whitespace_char(v[i])
        invariant
            n == v@.len(),
            i <= n,
            trim_start(v@) == trim_start(v@.subrange(i as int, n as int)),
        decreases n - i,
    {
        proof {
            lemma_trim_start_step(v@, i as int);
        }
        i = i + 1;
    }
    let ghost t = v@.subrange(i as int, n as int);
    assert(trim_start(v@) == t) by {
        if i == n {
            assert(t.len() == 0);
        }
    }
    let mut j: usize = n;
    assert(t.subrange(0, (n - i) as int) =~= t);
    while j > i && is_whitespace_char(v[j - 1])
        invariant
            n == v@.len(),
            i <= j <= n,
            t == v@.subrange(i as int, n as int),
            trim_end(t) == trim_end(t.subrange(0, j - i)),
        decreases j,
    {
        proof {
            lemma_trim_end_step(t, (j - i) as int);
        }
        j = j - 1;
    }
    assert(trim_end(t) == t.subrange(0, j - i)) by {
        if j == i {
            assert(t.subrange(0, 0).len() == 0);
        }
    }
    assert(t.subrange(0, j - i) =~= v@.subrange(i as int, j as int));
    (i, j)
}

/// Whether `v[from..]` starts with `prefix` after ASCII lower-casing.
pub fn starts_with_lower_at(v: &Vec<char>, from: usize, prefix: &Vec<char>) -> (r: bool)
    requires
        from <= v@.len(),
    ensures
        r == starts_with_ascii_lower(v@.subrange(from as int, v@.len() as int), prefix@),
{
    let ghost s = v@.subrange(from as int, v@.len() as int);
    if prefix.len() > v.len() - from {
        return false;
    }
    let mut k: usize = 0;
    while k < prefix.len()
        invariant
            from + prefix@.len() <= v.len(),
            s == v@.subrange(from as int, v@.len() as int),
            k <= prefix@.len(),
            forall|i: int| 0 <= i < k ==> ascii_lower_code(#[trigger] s[i]) == prefix@[i] as u32,
        decreases prefix@.len() - k,
    {
        let u = v[from + k] as u32;
        let l = if 65 <= u && u <= 90 {
            u + 32
        } else {
            u
        };
        assert(s[k as int] == v@[from + k]);
        if l != prefix[k] as u32 {
            return false;
        }
        k = k + 1;
    }
    true
}

/// Whether `needle` occurs in `hay` at position `i`.
fn occurs_at_exec(hay: &Vec<char>, needle: &Vec<char>, i: usize) -> (r: bool)
    requires
        i + needle@.len() <= hay@.len(),
    ensures
        r == occurs_at(hay@, needle@, i as int),
{
    let mut k: usize = 0;
    while k < needle.len()
        invariant
            i + needle@.len() <= hay.len(),
            k <= needle@.len(),
            forall|j: int| 0 <= j < k ==> hay@[i + j] == needle@[j],
        decreases needle@.len() - k,
    {
        if hay[i + k] != needle[k] {
            assert(hay@.subrange(i as int, i + needle@.len())[k as int] != needle@[k as int]);
            return false;
        }
        k = k + 1;
    }
    assert(hay@.subrange(i as int, i + needle@.len()) =~= needle@);
    true
}

/// Whether `needle` occurs in `hay` (`str::contains` with a string pattern).
pub fn contains_chars(hay: &Vec<char>, needle: &Vec<char>) -> (r: bool)
    ensures
        r == contains(hay@, needle@),
{
    if needle.len() > hay.len() {
        assert forall|i: int| !occurs_at(hay@, needle@, i) by {}
        return false;
    }
    let last = hay.len() - needle.len();
    let mut i: usize = 0;
    while i <= last
        invariant
            last + needle@.len() == hay@.len(),
            forall|j: int| 0 <= j < i ==> !occurs_at(hay@, needle@, j),
        decreases last + 1 - i,
    {
        if occurs_at_exec(hay, needle, i) {
            return true;
        }
        if i == last {
            assert forall|j: int| !occurs_at(hay@, needle@, j) by {
                if 0 <= j && j <= last {
                    assert(j < i || j == i);
                }
            }
            return false;
        }
        i = i + 1;
    }
    false
}

/// `needle` occurs in `hay` (both given as text).
pub fn str_contains(hay: &str, needle: &str) -> (r: bool)
    ensures
        r == contains(hay@, needle@),
{
    let h = chars_of(hay);
    let n = chars_of(needle);
    contains_chars(&h, &n)
}

/// Decimal rendering of `n` (as `format!("{}", n)` writes it).
pub fn decimal_string(n: i32) -> (r: String)
    ensures
        r@ == decimal(n as int),
{
    let neg = n < 0;
    let mut m: u64 = if neg {
        (-(n as i64)) as u64
    } else {
        n as u64
    };
    let ghost total: nat = m as nat;
    // Digits are produced least significant first.
    let mut rev: Vec<char> = Vec::new();
    let mut done: bool = false;
    while !done
        invariant
            m as nat <= total,
            total <= 0x8000_0000,
            !done ==> decimal_nat(total) == decimal_nat(m as nat) + rev@.reverse(),
            done ==> decimal_nat(total) == rev@.reverse(),
        decreases m, (if done { 0int } else { 1int }),
    {
        let d: u8 = (m % 10) as u8;
        let c: char = (48 + d) as char;
        assert(c == digit_char((m % 10) as int));
        let ghost old_rev = rev@;
        rev.push(c);
        assert(rev@.reverse() =~= seq![c] + old_rev.reverse());
        if m < 10 {
            assert(decimal_nat(m as nat) == seq![c]);
            done = true;
        } else {
            assert(decimal_nat(m as nat) == decimal_nat((m / 10) as nat).push(c));
            m = m / 10;
            assert(decimal_nat(total) =~= decimal_nat(m as nat) + rev@.reverse());
        }
    }
    let mut r = String::new();
    if neg {
        push_char(&mut r, '-');
    }
    let ghost start = r@;
    let len = rev.len();
    let mut k: usize = len;
    while k > 0
        invariant
            k <= len == rev@.len(),
            r@ == start + rev@.reverse().subrange(0, (len - k) as int),
        decreases k,
    {
        k = k - 1;
        push_char(&mut r, rev[k]);
        assert(rev@.reverse()[(len - k - 1) as int] == rev@[k as int]);
        assert(r@ =~= start + rev@.reverse().subrange(0, (len - k) as int));
    }
    assert(rev@.reverse().subrange(0, len as int) =~= rev@.reverse());
    assert(r@ =~= decimal(n as int));
    r
}

/// `truncate` keeps the longest prefix of `s` that fits in `max` bytes: it
/// is a prefix of `s` ending on a character boundary, it never exceeds `max`
/// bytes, it is the whole of `s` when `s` fits, and one more character would
/// not fit.
pub proof fn lemma_truncate_longest_fitting_prefix(s: Seq<char>, max: nat)
    ensures
        truncate_spec(s, max).len() <= s.len(),
        truncate_spec(s, max) == s.take(truncate_spec(s, max).len() as int),
        encode_utf8(truncate_spec(s, max)).len() <= max,
        encode_utf8(s).len() <= max ==> truncate_spec(s, max) == s,
        truncate_spec(s, max).len() < s.len() ==> encode_utf8(
            s.take(truncate_spec(s, max).len() + 1int),
        ).len() > max,
    decreases s.len(),
{
    if encode_utf8(s).len() <= max || s.len() == 0 {
        assert(s.take(s.len() as int) =~= s);
        if s.len() == 0 {
            assert(encode_utf8(s) =~= Seq::<u8>::empty());
        }
    } else {
        let d = s.drop_last();
        lemma_truncate_longest_fitting_prefix(d, max);
        let t = truncate_spec(d, max);
        assert(truncate_spec(s, max) == t);
        assert(d.take(t.len() as int) =~= s.take(t.len() as int));
        if t.len() < d.len() {
            assert(d.take(t.len() + 1int) =~= s.take(t.len() + 1int));
        } else {
            assert(s.take(t.len() + 1int) =~= s);
        }
    }
}

} // verus!
