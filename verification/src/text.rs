//! Character-level helpers shared by the validators: whitespace, trimming,
//! prefixes and string building, each stated over `Seq<char>`.
use vstd::prelude::*;

verus! {

broadcast use vstd::string::group_string_axioms;

/// The Unicode `White_Space` property, as listed in the Unicode character
/// database (PropList.txt).
pub open spec fn is_unicode_whitespace(c: char) -> bool {
    let u = c as u32;
    ||| (0x9 <= u && u <= 0xD)
    ||| u == 0x20
    ||| u == 0x85
    ||| u == 0xA0
    ||| u == 0x1680
    ||| (0x2000 <= u && u <= 0x200A)
    ||| u == 0x2028
    ||| u == 0x2029
    ||| u == 0x202F
    ||| u == 0x205F
    ||| u == 0x3000
}

/// Whether `c` has the Unicode `White_Space` property, which is what
/// `char::is_whitespace` reports.
pub(crate) fn char_is_whitespace(c: char) -> (b: bool)
    ensures
        b == is_unicode_whitespace(c),
{
    let u = c as u32;
    (0x9 <= u && u <= 0xD) || u == 0x20 || u == 0x85 || u == 0xA0 || u == 0x1680 || (0x2000 <= u
        && u <= 0x200A) || u == 0x2028 || u == 0x2029 || u == 0x202F || u == 0x205F || u == 0x3000
}

/// `String::push` (std): appends one character at the end.
#[verifier::external_body]
pub(crate) fn push_char(s: &mut String, c: char)
    ensures
        final(s)@ == old(s)@.push(c),
{
    s.push(c)
}

/// Every character of `s` is whitespace.
pub open spec fn all_whitespace(s: Seq<char>) -> bool {
    forall|i: int| 0 <= i < s.len() ==> is_unicode_whitespace(#[trigger] s[i])
}

/// `s` with its leading whitespace removed.
pub open spec fn trim_start(s: Seq<char>) -> Seq<char>
    decreases s.len(),
{
    if s.len() > 0 && is_unicode_whitespace(s[0]) {
        trim_start(s.drop_first())
    } else {
        s
    }
}

/// `s` with its trailing whitespace removed.
pub open spec fn trim_end(s: Seq<char>) -> Seq<char>
    decreases s.len(),
{
    if s.len() > 0 && is_unicode_whitespace(s.last()) {
        trim_end(s.drop_last())
    } else {
        s
    }
}

/// `s` with leading and trailing whitespace removed, as `str::trim` does.
pub open spec fn trim(s: Seq<char>) -> Seq<char> {
    trim_end(trim_start(s))
}

/// `s.trim().is_empty()`.
pub open spec fn is_blank_seq(s: Seq<char>) -> bool {
    trim(s).len() == 0
}

/// Number of leading whitespace characters of `s`.
pub open spec fn leading_ws(s: Seq<char>) -> nat
    decreases s.len(),
{
    if s.len() > 0 && is_unicode_whitespace(s[0]) {
        1 + leading_ws(s.drop_first())
    } else {
        0
    }
}

/// Number of trailing whitespace characters of `s`.
pub open spec fn trailing_ws(s: Seq<char>) -> nat
    decreases s.len(),
{
    if s.len() > 0 && is_unicode_whitespace(s.last()) {
        1 + trailing_ws(s.drop_last())
    } else {
        0
    }
}

proof fn lemma_trim_start_is_skip(s: Seq<char>)
    ensures
        leading_ws(s) <= s.len(),
        trim_start(s) == s.skip(leading_ws(s) as int),
        forall|i: int| 0 <= i < leading_ws(s) ==> is_unicode_whitespace(#[trigger] s[i]),
        leading_ws(s) < s.len() ==> !is_unicode_whitespace(s[leading_ws(s) as int]),
    decreases s.len(),
{
    if s.len() > 0 && is_unicode_whitespace(s[0]) {
        lemma_trim_start_is_skip(s.drop_first());
        assert(s.drop_first().skip(leading_ws(s.drop_first()) as int) =~= s.skip(
            leading_ws(s) as int,
        ));
        assert forall|i: int| 0 <= i < leading_ws(s) implies is_unicode_whitespace(
            #[trigger] s[i],
        ) by {
            if i > 0 {
                assert(s[i] == s.drop_first()[i - 1]);
            }
        }
    } else {
        assert(s.skip(0) =~= s);
    }
}

proof fn lemma_trim_end_is_take(s: Seq<char>)
    ensures
        trailing_ws(s) <= s.len(),
        trim_end(s) == s.take(s.len() - trailing_ws(s)),
        forall|i: int|
            s.len() - trailing_ws(s) <= i < s.len() ==> is_unicode_whitespace(#[trigger] s[i]),
        trailing_ws(s) < s.len() ==> !is_unicode_whitespace(
            s[s.len() - trailing_ws(s) - 1],
        ),
    decreases s.len(),
{
    if s.len() > 0 && is_unicode_whitespace(s.last()) {
        lemma_trim_end_is_take(s.drop_last());
        assert(s.drop_last().take(s.drop_last().len() - trailing_ws(s.drop_last())) =~= s.take(
            s.len() - trailing_ws(s),
        ));
        assert forall|i: int|
            s.len() - trailing_ws(s) <= i < s.len() implies is_unicode_whitespace(
            #[trigger] s[i],
        ) by {
            if i < s.len() - 1 {
                assert(s[i] == s.drop_last()[i]);
            }
        }
    } else {
        assert(s.take(s.len() as int) =~= s);
    }
}

/// The start and end of `trim(s)` inside `s`.
pub proof fn lemma_trim_bounds(s: Seq<char>) -> (r: (int, int))
    ensures
        0 <= r.0 <= r.1 <= s.len(),
        trim(s) == s.subrange(r.0, r.1),
        forall|i: int| 0 <= i < r.0 ==> is_unicode_whitespace(#[trigger] s[i]),
        forall|i: int| r.1 <= i < s.len() ==> is_unicode_whitespace(#[trigger] s[i]),
        r.0 < r.1 ==> !is_unicode_whitespace(s[r.0]) && !is_unicode_whitespace(s[r.1 - 1]),
        r.0 == r.1 ==> r.1 == s.len() || r.0 == 0,
{
    lemma_trim_start_is_skip(s);
    let a = leading_ws(s) as int;
    let t = s.skip(a);
    lemma_trim_end_is_take(t);
    let b = a + t.len() - trailing_ws(t);
    assert(t.take(t.len() - trailing_ws(t)) =~= s.subrange(a, b));
    assert forall|i: int| b <= i < s.len() implies is_unicode_whitespace(#[trigger] s[i]) by {
        assert(s[i] == t[i - a]);
    }
    if a < b {
        assert(s[b - 1] == t[t.len() - trailing_ws(t) - 1]);
    }
    (a, b)
}

/// `s.trim().is_empty()` holds exactly when every character is whitespace.
pub proof fn lemma_blank_iff_all_whitespace(s: Seq<char>)
    ensures
        is_blank_seq(s) <==> all_whitespace(s),
{
    let (a, b) = lemma_trim_bounds(s);
    if a < b {
        assert(!is_unicode_whitespace(s[a]));
    } else {
        assert forall|i: int| 0 <= i < s.len() implies is_unicode_whitespace(#[trigger] s[i]) by {
            if a == 0 {
                assert(b <= i);
            }
        }
    }
}

/// The characters of `s`, in order.
pub fn chars_of(s: &str) -> (v: Vec<char>)
    ensures
        v@ == s@,
{
    let mut v: Vec<char> = Vec::new();
    for c in it: s.chars()
        invariant
            it.seq() == s@,
            v@ == it.seq().take(it.index() as int),
    {
        v.push(c);
    }
    v
}

/// `str::is_empty`: `s` holds no character.
pub fn is_empty_text(s: &str) -> (b: bool)
    ensures
        b == (s@.len() == 0),
{
    chars_of(s).len() == 0
}

/// `s.trim().is_empty()`: `s` holds nothing but whitespace.
pub fn is_blank(s: &str) -> (b: bool)
    ensures
        b == is_blank_seq(s@),
{
    proof {
        lemma_blank_iff_all_whitespace(s@);
    }
    let cs = chars_of(s);
    let mut i: usize = 0;
    while i < cs.len()
        invariant
            cs@ == s@,
            i <= cs.len(),
            forall|j: int| 0 <= j < i ==> is_unicode_whitespace(#[trigger] cs@[j]),
            is_blank_seq(s@) <==> all_whitespace(s@),
        decreases cs.len() - i,
    {
        if !char_is_whitespace(cs[i]) {
            assert(!is_unicode_whitespace(s@[i as int]));
            return false;
        }
        i = i + 1;
    }
    true
}

/// The bounds of `trim(cs)` inside `cs`.
pub fn trim_bounds(cs: &Vec<char>) -> (r: (usize, usize))
    ensures
        r.0 <= r.1 <= cs.len(),
        trim(cs@) == cs@.subrange(r.0 as int, r.1 as int),
{
    let ghost g = lemma_trim_bounds(cs@);
    let mut a: usize = 0;
    while a < cs.len() && char_is_whitespace(cs[a])
        invariant
            a <= cs.len(),
            forall|j: int| 0 <= j < a ==> is_unicode_whitespace(#[trigger] cs@[j]),
        decreases cs.len() - a,
    {
        a = a + 1;
    }
    let mut b: usize = cs.len();
    while b > a && char_is_whitespace(cs[b - 1])
        invariant
            a <= b <= cs.len(),
            forall|j: int| b <= j < cs.len() ==> is_unicode_whitespace(#[trigger] cs@[j]),
        decreases b,
    {
        b = b - 1;
    }
    proof {
        let (ga, gb) = g;
        if ga < gb {
            // the first and last non-whitespace characters fix both bounds
            if a < ga {
                assert(!is_unicode_whitespace(cs@[a as int]));
            }
            if ga < a {
                assert(is_unicode_whitespace(cs@[ga]));
            }
            assert(a == ga);
            if b > gb {
                assert(!is_unicode_whitespace(cs@[b - 1]));
            }
            if b < gb {
                assert(is_unicode_whitespace(cs@[gb - 1]));
            }
            assert(b == gb);
        } else {
            assert(cs@.subrange(ga, gb).len() == 0);
            if a < b {
                // every character is whitespace here
                assert(is_unicode_whitespace(cs@[a as int])) by {
                    if ga == 0 {
                        assert(gb <= a);
                    }
                }
            }
            assert(cs@.subrange(a as int, b as int) =~= cs@.subrange(ga, gb));
        }
    }
    (a, b)
}

/// `str::trim` on characters: `cs` without leading and trailing whitespace.
pub fn trim_chars(cs: &Vec<char>) -> (v: Vec<char>)
    ensures
        v@ == trim(cs@),
{
    let (a, b) = trim_bounds(cs);
    let mut v: Vec<char> = Vec::new();
    let mut i = a;
    while i < b
        invariant
            a <= i <= b <= cs.len(),
            v@ == cs@.subrange(a as int, i as int),
        decreases b - i,
    {
        v.push(cs[i]);
        i = i + 1;
        assert(v@ =~= cs@.subrange(a as int, i as int));
    }
    v
}

/// `str::trim`: the characters of `s` without leading and trailing whitespace.
pub fn trimmed_chars(s: &str) -> (v: Vec<char>)
    ensures
        v@ == trim(s@),
{
    let cs = chars_of(s);
    trim_chars(&cs)
}

/// `needle` occurs in `hay` as a run of consecutive characters, as
/// `str::contains` finds it.
pub open spec fn contains_seq(hay: Seq<char>, needle: Seq<char>) -> bool {
    exists|i: int|
        0 <= i && i + needle.len() <= hay.len() && #[trigger] hay.subrange(i, i + needle.len())
            == needle
}

fn occurs_at(hay: &Vec<char>, needle: &Vec<char>, i: usize) -> (b: bool)
    requires
        i + needle.len() <= hay.len(),
    ensures
        b == (hay@.subrange(i as int, i + needle.len()) == needle@),
{
    let mut j: usize = 0;
    while j < needle.len()
        invariant
            j <= needle.len(),
            i + needle.len() <= hay.len(),
            forall|k: int| 0 <= k < j ==> hay@[i + k] == needle@[k],
        decreases needle.len() - j,
    {
        if hay[i + j] != needle[j] {
            assert(hay@.subrange(i as int, i + needle.len())[j as int] != needle@[j as int]);
            return false;
        }
        j = j + 1;
    }
    assert(hay@.subrange(i as int, i + needle.len()) =~= needle@);
    true
}

/// Whether `needle` occurs in `hay`.
pub fn contains_chars(hay: &Vec<char>, needle: &Vec<char>) -> (b: bool)
    ensures
        b == contains_seq(hay@, needle@),
{
    if needle.len() > hay.len() {
        return false;
    }
    let last = hay.len() - needle.len();
    let mut i: usize = 0;
    loop
        invariant
            last + needle.len() == hay.len(),
            i <= last,
            forall|k: int|
                0 <= k < i ==> #[trigger] hay@.subrange(k, k + needle.len()) != needle@,
        decreases last - i,
    {
        if occurs_at(hay, needle, i) {
            return true;
        }
        if i == last {
            return false;
        }
        i = i + 1;
    }
}

/// The part of `s` before the first `c`, all of `s` when there is none: what
/// `s.split(c).next()` gives.
pub open spec fn before_first(s: Seq<char>, c: char) -> Seq<char>
    decreases s.len(),
{
    if s.len() == 0 {
        s
    } else if s[0] == c {
        Seq::empty()
    } else {
        seq![s[0]] + before_first(s.drop_first(), c)
    }
}

proof fn lemma_before_first_skip(s: Seq<char>, c: char, i: int)
    requires
        0 <= i <= s.len(),
        forall|j: int| 0 <= j < i ==> s[j] != c,
    ensures
        before_first(s, c) == s.take(i) + before_first(s.skip(i), c),
    decreases i,
{
    if i == 0 {
        assert(s.skip(0) =~= s);
        assert(s.take(0) + before_first(s, c) =~= before_first(s, c));
    } else {
        lemma_before_first_skip(s.drop_first(), c, i - 1);
        assert(s.drop_first().skip(i - 1) =~= s.skip(i));
        assert(seq![s[0]] + s.drop_first().take(i - 1) =~= s.take(i));
        assert(seq![s[0]] + (s.drop_first().take(i - 1) + before_first(s.skip(i), c))
            =~= s.take(i) + before_first(s.skip(i), c));
    }
}

/// The characters of `cs` before the first `c`.
pub fn before_first_chars(cs: &Vec<char>, c: char) -> (v: Vec<char>)
    ensures
        v@ == before_first(cs@, c),
{
    let mut v: Vec<char> = Vec::new();
    let mut i: usize = 0;
    while i < cs.len() && cs[i] != c
        invariant
            i <= cs.len(),
            v@ == cs@.take(i as int),
            forall|j: int| 0 <= j < i ==> cs@[j] != c,
        decreases cs.len() - i,
    {
        v.push(cs[i]);
        i = i + 1;
        assert(v@ =~= cs@.take(i as int));
    }
    proof {
        lemma_before_first_skip(cs@, c, i as int);
        if i < cs.len() {
            assert(cs@.skip(i as int)[0] == c);
        } else {
            assert(cs@.skip(i as int).len() == 0);
        }
        assert(v@ + Seq::<char>::empty() =~= v@);
    }
    v
}

/// A `String` holding exactly the characters `cs`.
pub fn string_from_chars(cs: &Vec<char>) -> (s: String)
    ensures
        s@ == cs@,
{
    let mut s = String::new();
    let mut i: usize = 0;
    while i < cs.len()
        invariant
            i <= cs.len(),
            s@ == cs@.take(i as int),
        decreases cs.len() - i,
    {
        push_char(&mut s, cs[i]);
        i = i + 1;
        assert(s@ =~= cs@.take(i as int));
    }
    assert(cs@.take(cs.len() as int) =~= cs@);
    s
}

/// `prefix` is a prefix of `s`.
pub open spec fn has_prefix(s: Seq<char>, prefix: Seq<char>) -> bool {
    prefix.len() <= s.len() && s.subrange(0, prefix.len() as int) == prefix
}

/// `str::starts_with` for a string prefix.
pub fn starts_with(s: &str, prefix: &str) -> (b: bool)
    ensures
        b == has_prefix(s@, prefix@),
{
    let cs = chars_of(s);
    let ps = chars_of(prefix);
    if ps.len() > cs.len() {
        return false;
    }
    let mut i: usize = 0;
    while i < ps.len()
        invariant
            cs@ == s@,
            ps@ == prefix@,
            ps.len() <= cs.len(),
            i <= ps.len(),
            forall|j: int| 0 <= j < i ==> cs@[j] == ps@[j],
        decreases ps.len() - i,
    {
        if cs[i] != ps[i] {
            assert(s@.subrange(0, prefix@.len() as int)[i as int] != prefix@[i as int]);
            return false;
        }
        i = i + 1;
    }
    assert(s@.subrange(0, prefix@.len() as int) =~= prefix@);
    true
}

/// `s` contains the character `c`.
pub fn contains_char(s: &Vec<char>, c: char) -> (b: bool)
    ensures
        b == s@.contains(c),
{
    let mut i: usize = 0;
    while i < s.len()
        invariant
            i <= s.len(),
            forall|j: int| 0 <= j < i ==> s@[j] != c,
        decreases s.len() - i,
    {
        if s[i] == c {
            assert(s@[i as int] == c);
            return true;
        }
        i = i + 1;
    }
    false
}

/// Two strings hold the same characters.
pub fn str_eq(a: &str, b: &str) -> (r: bool)
    ensures
        r == (a@ == b@),
{
    let x = chars_of(a);
    let y = chars_of(b);
    if x.len() != y.len() {
        return false;
    }
    let mut i: usize = 0;
    while i < x.len()
        invariant
            x@ == a@,
            y@ == b@,
            x.len() == y.len(),
            i <= x.len(),
            forall|j: int| 0 <= j < i ==> x@[j] == y@[j],
        decreases x.len() - i,
    {
        if x[i] != y[i] {
            return false;
        }
        i = i + 1;
    }
    assert(x@ =~= y@);
    true
}

} // verus!

verus! {

/// The decimal digit character for `d` (0 to 9).
pub open spec fn digit_char(d: nat) -> char {
    if d == 0 {
        '0'
    } else if d == 1 {
        '1'
    } else if d == 2 {
        '2'
    } else if d == 3 {
        '3'
    } else if d == 4 {
        '4'
    } else if d == 5 {
        '5'
    } else if d == 6 {
        '6'
    } else if d == 7 {
        '7'
    } else if d == 8 {
        '8'
    } else {
        '9'
    }
}

/// The decimal representation of `n`, without leading zeros, as `Display`
/// prints an unsigned integer.
pub open spec fn decimal_text(n: nat) -> Seq<char>
    decreases n,
{
    if n < 10 {
        seq![digit_char(n)]
    } else {
        decimal_text(n / 10).push(digit_char(n % 10))
    }
}

/// The decimal representation of a signed integer, with a leading `-` for
/// negative values, as `Display` prints it.
pub open spec fn signed_decimal_text(n: int) -> Seq<char> {
    if n < 0 {
        seq!['-'] + decimal_text((-n) as nat)
    } else {
        decimal_text(n as nat)
    }
}

fn digit(d: u64) -> (c: char)
    requires
        d < 10,
    ensures
        c == digit_char(d as nat),
{
    if d == 0 {
        '0'
    } else if d == 1 {
        '1'
    } else if d == 2 {
        '2'
    } else if d == 3 {
        '3'
    } else if d == 4 {
        '4'
    } else if d == 5 {
        '5'
    } else if d == 6 {
        '6'
    } else if d == 7 {
        '7'
    } else if d == 8 {
        '8'
    } else {
        '9'
    }
}

/// Appends the decimal representation of `n` to `s`.
pub fn push_decimal(s: &mut String, n: u64)
    ensures
        final(s)@ == old(s)@ + decimal_text(n as nat),
    decreases n,
{
    if n < 10 {
        push_char(s, digit(n));
        assert(old(s)@.push(digit_char(n as nat)) =~= old(s)@ + decimal_text(n as nat));
    } else {
        push_decimal(s, n / 10);
        push_char(s, digit(n % 10));
        assert(old(s)@ + decimal_text((n / 10) as nat) + seq![digit_char((n % 10) as nat)]
            =~= old(s)@ + decimal_text(n as nat));
    }
}

/// Appends the decimal representation of the signed `n` to `s`.
pub fn push_signed_decimal(s: &mut String, n: i64)
    ensures
        final(s)@ == old(s)@ + signed_decimal_text(n as int),
{
    if n < 0 {
        push_char(s, '-');
        let m: u64 = if n == i64::MIN {
            9223372036854775808u64
        } else {
            (-n) as u64
        };
        push_decimal(s, m);
        assert(old(s)@.push('-') + decimal_text(m as nat) =~= old(s)@ + signed_decimal_text(
            n as int,
        ));
    } else {
        push_decimal(s, n as u64);
    }
}

/// Appends the characters of `t` to `s`.
pub fn push_str(s: &mut String, t: &str)
    ensures
        final(s)@ == old(s)@ + t@,
{
    let cs = chars_of(t);
    let mut i: usize = 0;
    while i < cs.len()
        invariant
            i <= cs.len(),
            cs@ == t@,
            s@ == old(s)@ + cs@.take(i as int),
        decreases cs.len() - i,
    {
        push_char(s, cs[i]);
        i = i + 1;
        assert(s@ =~= old(s)@ + cs@.take(i as int));
    }
    assert(cs@.take(cs.len() as int) =~= cs@);
}

/// A new `String` holding the characters of `t`.
pub fn owned(t: &str) -> (s: String)
    ensures
        s@ == t@,
{
    let mut s = String::new();
    push_str(&mut s, t);
    assert(Seq::<char>::empty() + t@ =~= t@);
    s
}

/// What `str::to_lowercase` returns for `s`: the full Unicode lowercase
/// mapping, which takes the case tables to state.
pub uninterp spec fn lowercase(s: Seq<char>) -> Seq<char>;

/// `str::to_lowercase` (std).
#[verifier::external_body]
pub(crate) fn to_lowercase(s: &str) -> (r: String)
    ensures
        r@ == lowercase(s@),
{
    s.to_lowercase()
}

} // verus!

verus! {

/// Number of bytes of the UTF-8 encoding of `s`, as `str::len` counts them.
pub open spec fn utf8_len(s: Seq<char>) -> nat {
    vstd::utf8::encode_utf8(s).len()
}

proof fn lemma_encode_utf8_push(s: Seq<char>, c: char)
    ensures
        vstd::utf8::encode_utf8(s.push(c)) == vstd::utf8::encode_utf8(s)
            + vstd::utf8::encode_scalar(c as u32),
    decreases s.len(),
{
    if s.len() == 0 {
        assert(s.push(c).drop_first() =~= Seq::<char>::empty());
        assert(s.push(c)[0] == c);
        assert(vstd::utf8::encode_utf8(s) =~= Seq::<u8>::empty());
        assert(vstd::utf8::encode_utf8(s.push(c).drop_first()) =~= Seq::<u8>::empty());
        assert(vstd::utf8::encode_utf8(s.push(c)) =~= vstd::utf8::encode_scalar(c as u32)
            + Seq::<u8>::empty());
        assert(vstd::utf8::encode_scalar(c as u32) + Seq::<u8>::empty() =~= Seq::<u8>::empty()
            + vstd::utf8::encode_scalar(c as u32));
    } else {
        lemma_encode_utf8_push(s.drop_first(), c);
        assert(s.push(c).drop_first() =~= s.drop_first().push(c));
        assert(s.push(c)[0] == s[0]);
        assert(vstd::utf8::encode_scalar(s[0] as u32) + (vstd::utf8::encode_utf8(s.drop_first())
            + vstd::utf8::encode_scalar(c as u32)) =~= (vstd::utf8::encode_scalar(s[0] as u32)
            + vstd::utf8::encode_utf8(s.drop_first())) + vstd::utf8::encode_scalar(c as u32));
    }
}

/// Number of bytes that `c` takes in UTF-8.
pub fn char_utf8_width(c: char) -> (w: usize)
    ensures
        w == vstd::utf8::encode_scalar(c as u32).len(),
        1 <= w <= 4,
{
    proof {
        vstd::utf8::char_is_scalar(c);
    }
    let u = c as u32;
    if u <= 0x7F {
        1
    } else if u <= 0x7FF {
        2
    } else if u <= 0xFFFF {
        3
    } else {
        4
    }
}

/// Whether the UTF-8 encoding of `cs` takes more than `limit` bytes.
pub fn utf8_len_exceeds(cs: &Vec<char>, limit: usize) -> (b: bool)
    requires
        limit <= usize::MAX - 4,
    ensures
        b == (utf8_len(cs@) > limit),
{
    let mut total: usize = 0;
    let mut i: usize = 0;
    while i < cs.len()
        invariant
            i <= cs.len(),
            total <= limit,
            limit <= usize::MAX - 4,
            total == utf8_len(cs@.take(i as int)),
        decreases cs.len() - i,
    {
        proof {
            lemma_encode_utf8_push(cs@.take(i as int), cs@[i as int]);
            assert(cs@.take(i as int).push(cs@[i as int]) =~= cs@.take(i + 1));
        }
        total = total + char_utf8_width(cs[i]);
        i = i + 1;
        if total > limit {
            proof {
                lemma_utf8_len_prefix_le(cs@, i as int);
            }
            return true;
        }
    }
    assert(cs@.take(cs.len() as int) =~= cs@);
    false
}

proof fn lemma_utf8_len_prefix_le(s: Seq<char>, i: int)
    requires
        0 <= i <= s.len(),
    ensures
        utf8_len(s.take(i)) <= utf8_len(s),
    decreases s.len() - i,
{
    if i < s.len() {
        lemma_utf8_len_prefix_le(s, i + 1);
        lemma_encode_utf8_push(s.take(i), s[i]);
        assert(s.take(i).push(s[i]) =~= s.take(i + 1));
    } else {
        assert(s.take(i) =~= s);
    }
}


/// Byte `n` of the UTF-8 encoding of `s` falls on a character boundary: some
/// prefix of `s` takes exactly `n` bytes.
pub open spec fn is_char_boundary(s: Seq<char>, n: nat) -> bool {
    exists|k: int| 0 <= k <= s.len() && #[trigger] utf8_len(s.take(k)) == n
}

/// The prefix of `s` whose UTF-8 encoding takes exactly `n` bytes, where
/// `is_char_boundary(s, n)`: what `&s[..n]` gives.
pub open spec fn byte_prefix(s: Seq<char>, n: nat) -> Seq<char> {
    s.take(choose|k: int| 0 <= k <= s.len() && #[trigger] utf8_len(s.take(k)) == n)
}

/// Each longer prefix takes more bytes.
pub proof fn lemma_utf8_len_prefix_increasing(s: Seq<char>, i: int, j: int)
    requires
        0 <= i < j <= s.len(),
    ensures
        utf8_len(s.take(i)) < utf8_len(s.take(j)),
    decreases j - i,
{
    lemma_encode_utf8_push(s.take(j - 1), s[j - 1]);
    assert(s.take(j - 1).push(s[j - 1]) =~= s.take(j));
    if i < j - 1 {
        lemma_utf8_len_prefix_increasing(s, i, j - 1);
    }
}

/// The characters of the first `n` bytes of `cs`, where byte `n` falls on a
/// character boundary.
pub fn byte_prefix_chars(cs: &Vec<char>, n: usize) -> (r: Vec<char>)
    requires
        is_char_boundary(cs@, n as nat),
        n <= usize::MAX - 4,
    ensures
        r@ == byte_prefix(cs@, n as nat),
{
    let ghost k = choose|k: int| 0 <= k <= cs@.len() && #[trigger] utf8_len(cs@.take(k)) == n;
    let mut total: usize = 0;
    let mut i: usize = 0;
    let mut r: Vec<char> = Vec::new();
    assert(cs@.take(0) =~= Seq::<char>::empty());
    while total < n
        invariant
            0 <= k <= cs@.len(),
            utf8_len(cs@.take(k)) == n,
            i <= cs.len(),
            total <= n,
            n <= usize::MAX - 4,
            total == utf8_len(cs@.take(i as int)),
            r@ == cs@.take(i as int),
        decreases n - total,
    {
        proof {
            if k <= i {
                if k < i {
                    lemma_utf8_len_prefix_increasing(cs@, k, i as int);
                }
                assert(false);
            }
            lemma_encode_utf8_push(cs@.take(i as int), cs@[i as int]);
            assert(cs@.take(i as int).push(cs@[i as int]) =~= cs@.take(i + 1));
            if i + 1 < k {
                lemma_utf8_len_prefix_increasing(cs@, i + 1, k);
            }
        }
        total = total + char_utf8_width(cs[i]);
        r.push(cs[i]);
        i = i + 1;
    }
    proof {
        if k < i {
            lemma_utf8_len_prefix_increasing(cs@, k, i as int);
        } else if i < k {
            lemma_utf8_len_prefix_increasing(cs@, i as int, k);
        }
    }
    r
}

/// Whether byte `n` of the UTF-8 encoding of `cs` falls on a character
/// boundary (`str::is_char_boundary`, for `n` within the text).
pub fn char_boundary_at(cs: &Vec<char>, n: usize) -> (r: bool)
    requires
        n <= usize::MAX - 4,
    ensures
        r == is_char_boundary(cs@, n as nat),
{
    let mut total: usize = 0;
    let mut i: usize = 0;
    assert(cs@.take(0) =~= Seq::<char>::empty());
    while total < n && i < cs.len()
        invariant
            i <= cs.len(),
            total <= n,
            n <= usize::MAX - 4,
            total == utf8_len(cs@.take(i as int)),
            forall|k: int| 0 <= k < i ==> utf8_len(#[trigger] cs@.take(k)) < n,
        decreases cs.len() - i,
    {
        proof {
            lemma_encode_utf8_push(cs@.take(i as int), cs@[i as int]);
            assert(cs@.take(i as int).push(cs@[i as int]) =~= cs@.take(i + 1));
        }
        let w = char_utf8_width(cs[i]);
        if total + w > n {
            proof {
                assert forall|k: int| 0 <= k <= cs@.len() implies utf8_len(#[trigger] cs@.take(k))
                    != n by {
                    if k <= i {
                        if k < i {
                            lemma_utf8_len_prefix_increasing(cs@, k, i as int);
                        }
                    } else {
                        if i + 1 < k {
                            lemma_utf8_len_prefix_increasing(cs@, i + 1, k);
                        }
                    }
                }
            }
            return false;
        }
        total = total + w;
        i = i + 1;
    }
    if total == n {
        true
    } else {
        proof {
            assert(i == cs.len());
            assert(cs@.take(i as int) =~= cs@);
            assert forall|k: int| 0 <= k <= cs@.len() implies utf8_len(#[trigger] cs@.take(k))
                != n by {
                if k < i {
                    lemma_utf8_len_prefix_increasing(cs@, k, i as int);
                }
            }
        }
        false
    }
}

/// `before_first` never takes more than the text.
pub proof fn lemma_before_first_len(s: Seq<char>, c: char)
    ensures
        before_first(s, c).len() <= s.len(),
        before_first(s, c).len() < s.len() ==> s[before_first(s, c).len() as int] == c,
        before_first(s, c) == s.take(before_first(s, c).len() as int),
    decreases s.len(),
{
    if s.len() > 0 && s[0] != c {
        lemma_before_first_len(s.drop_first(), c);
        assert(seq![s[0]] + s.drop_first().take(before_first(s.drop_first(), c).len() as int)
            =~= s.take(before_first(s, c).len() as int));
    } else if s.len() > 0 {
        assert(s.take(0) =~= Seq::<char>::empty());
    } else {
        assert(s.take(0) =~= s);
    }
}

/// The characters of `cs` from index `k` on.
pub fn skip_chars(cs: &Vec<char>, k: usize) -> (r: Vec<char>)
    requires
        k <= cs.len(),
    ensures
        r@ == cs@.skip(k as int),
{
    let mut r: Vec<char> = Vec::new();
    let mut i = k;
    while i < cs.len()
        invariant
            k <= i <= cs.len(),
            r@ == cs@.subrange(k as int, i as int),
        decreases cs.len() - i,
    {
        r.push(cs[i]);
        i = i + 1;
        assert(r@ =~= cs@.subrange(k as int, i as int));
    }
    assert(cs@.subrange(k as int, cs.len() as int) =~= cs@.skip(k as int));
    r
}

/// The UTF-8 length of two texts put together is the sum of their lengths.
pub proof fn lemma_utf8_len_concat(a: Seq<char>, b: Seq<char>)
    ensures
        utf8_len(a + b) == utf8_len(a) + utf8_len(b),
    decreases b.len(),
{
    if b.len() == 0 {
        assert(a + b =~= a);
        assert(vstd::utf8::encode_utf8(b) =~= Seq::<u8>::empty());
    } else {
        let bl = b.drop_last();
        lemma_utf8_len_concat(a, bl);
        lemma_encode_utf8_push(a + bl, b.last());
        lemma_encode_utf8_push(bl, b.last());
        assert((a + bl).push(b.last()) =~= a + b);
        assert(bl.push(b.last()) =~= b);
    }
}

/// A character takes at most four bytes.
pub proof fn lemma_utf8_len_at_most_four(s: Seq<char>)
    ensures
        utf8_len(s) <= 4 * s.len(),
    decreases s.len(),
{
    if s.len() == 0 {
        assert(vstd::utf8::encode_utf8(s) =~= Seq::<u8>::empty());
    } else {
        let t = s.drop_last();
        lemma_utf8_len_at_most_four(t);
        lemma_encode_utf8_push(t, s.last());
        assert(t.push(s.last()) =~= s);
        vstd::utf8::char_is_scalar(s.last());
        assert(vstd::utf8::encode_scalar(s.last() as u32).len() <= 4);
    }
}

/// Three characters of one byte each take three bytes.
pub proof fn lemma_utf8_len_three_ascii(s: Seq<char>)
    requires
        s.len() == 3,
        (s[0] as u32) < 0x80,
        (s[1] as u32) < 0x80,
        (s[2] as u32) < 0x80,
    ensures
        utf8_len(s) == 3,
{
    assert(vstd::utf8::encode_utf8(Seq::<char>::empty()) =~= Seq::<u8>::empty());
    lemma_encode_utf8_push(Seq::<char>::empty(), s[0]);
    lemma_encode_utf8_push(seq![s[0]], s[1]);
    lemma_encode_utf8_push(seq![s[0], s[1]], s[2]);
    assert(Seq::<char>::empty().push(s[0]) =~= seq![s[0]]);
    assert(seq![s[0]].push(s[1]) =~= seq![s[0], s[1]]);
    assert(seq![s[0], s[1]].push(s[2]) =~= s);
}

} // verus!
