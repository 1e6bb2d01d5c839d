//! Character-level text helpers shared by the whole library: turning a `str`
//! into its characters and back, whitespace trimming, decimal rendering of
//! numbers, prefix and suffix tests.
use vstd::prelude::*;

verus! {

/// Whether a character has the Unicode `White_Space` property: the controls
/// U+0009 to U+000D, space, next line (U+0085), no-break space (U+00A0), ogham
/// space mark (U+1680), the spaces U+2000 to U+200A, line and paragraph
/// separators (U+2028, U+2029), narrow no-break space (U+202F), medium
/// mathematical space (U+205F) and ideographic space (U+3000).
pub open spec fn char_is_whitespace(c: char) -> bool {
    let v = c as u32;
    ||| 0x09 <= v <= 0x0d
    ||| v == 0x20
    ||| v == 0x85
    ||| v == 0xa0
    ||| v == 0x1680
    ||| 0x2000 <= v <= 0x200a
    ||| v == 0x2028
    ||| v == 0x2029
    ||| v == 0x202f
    ||| v == 0x205f
    ||| v == 0x3000
}

/// What `String::from_utf8_lossy` decodes a byte sequence to.
pub uninterp spec fn utf8_lossy(bytes: Seq<u8>) -> Seq<char>;

/// Whether a character is whitespace, as `char::is_whitespace` answers.
pub fn is_whitespace(c: char) -> (res: bool)
    ensures
        res == char_is_whitespace(c),
{
    let v: u32 = c as u32;
    (0x09 <= v && v <= 0x0d) || v == 0x20 || v == 0x85 || v == 0xa0 || v == 0x1680 || (0x2000 <= v && v
        <= 0x200a) || v == 0x2028 || v == 0x2029 || v == 0x202f || v == 0x205f || v == 0x3000
}

/// Calls `String::push`: the contract claims that the character is appended.
#[verifier::external_body]
pub(crate) fn push_char(s: &mut String, c: char)
    ensures
        final(s)@ == old(s)@.push(c),
{
    s.push(c)
}

/// Calls `String::from_utf8_lossy` and takes ownership of the result. The
/// contract claims that the result is `utf8_lossy` of the bytes, and that on
/// valid UTF-8 it is exactly the decoded text (the documentation: invalid
/// sequences alone are replaced).
#[verifier::external_body]
pub(crate) fn from_utf8_lossy(bytes: &[u8]) -> (res: String)
    ensures
        res@ == utf8_lossy(bytes@),
        vstd::utf8::valid_utf8(bytes@) ==> res@ == vstd::utf8::decode_utf8(bytes@),
{
    String::from_utf8_lossy(bytes).into_owned()
}

/// The characters of each string of a list.
pub open spec fn views(v: Seq<String>) -> Seq<Seq<char>> {
    v.map_values(|s: String| s@)
}

/// The characters of a string, in order.
pub fn chars_of(s: &str) -> (res: Vec<char>)
    ensures
        res@ == s@,
{
    broadcast use vstd::string::group_string_axioms;
    let mut res: Vec<char> = Vec::new();
    for c in it: s.chars()
        invariant
            it.seq() == s@,
            res@ == it.seq().take(it.index() as int),
    {
        res.push(c);
    }
    assert(res@ =~= s@);
    res
}

/// A string made of the characters `chars[from..to]`.
pub fn string_from_range(chars: &Vec<char>, from: usize, to: usize) -> (res: String)
    requires
        from <= to <= chars.len(),
    ensures
        res@ == chars@.subrange(from as int, to as int),
{
    let mut res = String::new();
    let mut k: usize = from;
    while k < to
        invariant
            from <= k <= to <= chars.len(),
            res@ == chars@.subrange(from as int, k as int),
        decreases to - k,
    {
        push_char(&mut res, chars[k]);
        k = k + 1;
        assert(res@ =~= chars@.subrange(from as int, k as int));
    }
    res
}

/// The text with its leading whitespace removed.
pub open spec fn trim_start(s: Seq<char>) -> Seq<char>
    decreases s.len(),
{
    if s.len() > 0 && char_is_whitespace(s[0]) {
        trim_start(s.drop_first())
    } else {
        s
    }
}

/// The text with its trailing whitespace removed.
pub open spec fn trim_end(s: Seq<char>) -> Seq<char>
    decreases s.len(),
{
    if s.len() > 0 && char_is_whitespace(s.last()) {
        trim_end(s.drop_last())
    } else {
        s
    }
}

/// The text with leading and trailing whitespace removed, as `str::trim` gives it.
pub open spec fn trimmed(s: Seq<char>) -> Seq<char> {
    trim_end(trim_start(s))
}

/// Removes leading and trailing whitespace, as `str::trim` does.
pub fn trim(s: &str) -> (res: String)
    ensures
        res@ == trimmed(s@),
{
    let chars = chars_of(s);
    let n: usize = chars.len();
    let mut i: usize = 0;
    assert(chars@.subrange(0, n as int) =~= chars@);
    while i < n && is_whitespace(chars[i])
        invariant
            i <= n == chars@.len(),
            trim_start(chars@) == trim_start(chars@.subrange(i as int, n as int)),
        decreases n - i,
    {
        let ghost rest = chars@.subrange(i as int, n as int);
        assert(rest.drop_first() =~= chars@.subrange(i + 1, n as int));
        i = i + 1;
    }
    assert(trim_start(chars@) == chars@.subrange(i as int, n as int));
    let mut j: usize = n;
    while j > i && is_whitespace(chars[j - 1])
        invariant
            i <= j <= n == chars@.len(),
            trim_start(chars@) == chars@.subrange(i as int, n as int),
            trimmed(chars@) == trim_end(chars@.subrange(i as int, j as int)),
        decreases j - i,
    {
        let ghost rest = chars@.subrange(i as int, j as int);
        assert(rest.drop_last() =~= chars@.subrange(i as int, j - 1));
        j = j - 1;
    }
    string_from_range(&chars, i, j)
}

proof fn lemma_trim_start(s: Seq<char>)
    ensures
        exists|k: int| 0 <= k <= s.len() && trim_start(s) == s.subrange(k, s.len() as int),
        trim_start(s).len() > 0 ==> !char_is_whitespace(trim_start(s)[0]),
        s.len() == 0 || !char_is_whitespace(s[0]) ==> trim_start(s) == s,
    decreases s.len(),
{
    if s.len() > 0 && char_is_whitespace(s[0]) {
        lemma_trim_start(s.drop_first());
        let k: int = choose|k: int|
            0 <= k <= s.drop_first().len() && trim_start(s.drop_first()) == s.drop_first().subrange(
                k,
                s.drop_first().len() as int,
            );
        assert(s.drop_first().subrange(k, s.drop_first().len() as int) =~= s.subrange(k + 1, s.len() as int));
    } else {
        assert(s.subrange(0, s.len() as int) =~= s);
    }
}

proof fn lemma_trim_end(s: Seq<char>)
    ensures
        exists|k: int| 0 <= k <= s.len() && trim_end(s) == s.subrange(0, k),
        trim_end(s).len() > 0 ==> !char_is_whitespace(trim_end(s).last()),
        s.len() == 0 || !char_is_whitespace(s.last()) ==> trim_end(s) == s,
    decreases s.len(),
{
    if s.len() > 0 && char_is_whitespace(s.last()) {
        lemma_trim_end(s.drop_last());
        let k: int = choose|k: int| 0 <= k <= s.drop_last().len() && trim_end(s.drop_last()) == s.drop_last().subrange(0, k);
        assert(s.drop_last().subrange(0, k) =~= s.subrange(0, k));
    } else {
        assert(s.subrange(0, s.len() as int) =~= s);
    }
}

/// Trimmed text is a piece of the text that neither begins nor ends with
/// whitespace, and trimming it again changes nothing.
pub proof fn law_trimmed_has_no_outer_whitespace(s: Seq<char>)
    ensures
        exists|i: int, j: int| 0 <= i <= j <= s.len() && trimmed(s) == s.subrange(i, j),
        trimmed(s).len() > 0 ==> !char_is_whitespace(trimmed(s)[0]) && !char_is_whitespace(
            trimmed(s).last(),
        ),
        trimmed(trimmed(s)) == trimmed(s),
{
    let t = trim_start(s);
    lemma_trim_start(s);
    lemma_trim_end(t);
    let i: int = choose|k: int| 0 <= k <= s.len() && trim_start(s) == s.subrange(k, s.len() as int);
    let j: int = choose|k: int| 0 <= k <= t.len() && trim_end(t) == t.subrange(0, k);
    assert(trimmed(s) =~= s.subrange(i, i + j));
    let r = trimmed(s);
    if r.len() > 0 {
        assert(r[0] == t[0]);
    }
    lemma_trim_start(r);
    lemma_trim_end(r);
}

/// Whether `prefix` begins `s`.
pub open spec fn has_prefix(s: Seq<char>, prefix: Seq<char>) -> bool {
    prefix.len() <= s.len() && s.subrange(0, prefix.len() as int) == prefix
}

/// Whether `suffix` ends `s`.
pub open spec fn has_suffix(s: Seq<char>, suffix: Seq<char>) -> bool {
    suffix.len() <= s.len() && s.subrange(s.len() - suffix.len(), s.len() as int) == suffix
}

/// Whether `s` begins with `prefix`, as `str::starts_with` with a `&str` pattern.
pub fn starts_with(s: &str, prefix: &str) -> (res: bool)
    ensures
        res == has_prefix(s@, prefix@),
{
    let a = chars_of(s);
    let b = chars_of(prefix);
    if b.len() > a.len() {
        return false;
    }
    let mut k: usize = 0;
    while k < b.len()
        invariant
            a@ == s@,
            b@ == prefix@,
            b@.len() <= a@.len(),
            k <= b@.len(),
            forall|m: int| 0 <= m < k ==> a@[m] == b@[m],
        decreases b.len() - k,
    {
        if a[k] != b[k] {
            assert(a@[k as int] != b@[k as int]);
            assert(a@.subrange(0, b@.len() as int)[k as int] != b@[k as int]);
            return false;
        }
        k = k + 1;
    }
    assert(a@.subrange(0, b@.len() as int) =~= b@);
    true
}

/// Whether `s` ends with `suffix`, as `str::ends_with` with a `&str` pattern.
pub fn ends_with(s: &str, suffix: &str) -> (res: bool)
    ensures
        res == has_suffix(s@, suffix@),
{
    let a = chars_of(s);
    let b = chars_of(suffix);
    if b.len() > a.len() {
        return false;
    }
    let offset: usize = a.len() - b.len();
    let mut k: usize = 0;
    while k < b.len()
        invariant
            a@ == s@,
            b@ == suffix@,
            b@.len() <= a@.len(),
            offset == a@.len() - b@.len(),
            k <= b@.len(),
            a.len() == a@.len(),
            b.len() == b@.len(),
            forall|m: int| 0 <= m < k ==> a@[offset + m] == b@[m],
        decreases b.len() - k,
    {
        if a[offset + k] != b[k] {
            assert(a@[offset + k] != b@[k as int]);
            assert(a@.subrange(offset as int, a@.len() as int)[k as int] != b@[k as int]);
            return false;
        }
        k = k + 1;
    }
    assert(a@.subrange(offset as int, a@.len() as int) =~= b@);
    true
}

/// Whether two strings hold the same characters.
pub fn same_text(a: &str, b: &str) -> (res: bool)
    ensures
        res == (a@ == b@),
{
    let x = chars_of(a);
    let y = chars_of(b);
    if x.len() != y.len() {
        return false;
    }
    let mut k: usize = 0;
    while k < x.len()
        invariant
            x@ == a@,
            y@ == b@,
            x@.len() == y@.len(),
            k <= x@.len(),
            forall|m: int| 0 <= m < k ==> x@[m] == y@[m],
        decreases x.len() - k,
    {
        if x[k] != y[k] {
            assert(x@[k as int] != y@[k as int]);
            return false;
        }
        k = k + 1;
    }
    assert(x@ =~= y@);
    true
}

/// The decimal digit character of `d`, for `d < 10`.
pub open spec fn digit_char(d: nat) -> char {
    if d == 0 {
        '0'
    } else if d == 1 {
        '1'
    } else if d == 2 {
        '2'
    } else if d == 3 {
        '3'
    } else if d == 4 {
        '4'
    } else if d == 5 {
        '5'
    } else if d == 6 {
        '6'
    } else if d == 7 {
        '7'
    } else if d == 8 {
        '8'
    } else {
        '9'
    }
}

/// The decimal notation of a number, without sign or leading zeros (as `{}` formats an integer).
pub open spec fn decimal(n: nat) -> Seq<char>
    decreases n,
{
    if n < 10 {
        seq![digit_char(n)]
    } else {
        decimal(n / 10).push(digit_char(n % 10))
    }
}

fn digit(d: u128) -> (c: char)
    requires
        d < 10,
    ensures
        c == digit_char(d as nat),
{
    if d == 0 {
        '0'
    } else if d == 1 {
        '1'
    } else if d == 2 {
        '2'
    } else if d == 3 {
        '3'
    } else if d == 4 {
        '4'
    } else if d == 5 {
        '5'
    } else if d == 6 {
        '6'
    } else if d == 7 {
        '7'
    } else if d == 8 {
        '8'
    } else {
        '9'
    }
}

/// Appends the decimal notation of `n` to `s`.
pub fn push_decimal(s: &mut String, n: u128)
    ensures
        final(s)@ == old(s)@ + decimal(n as nat),
    decreases n,
{
    if n >= 10 {
        push_decimal(s, n / 10);
    }
    push_char(s, digit(n % 10));
    assert(old(s)@ + decimal(n as nat) =~= (if n >= 10 {
        old(s)@ + decimal((n / 10) as nat)
    } else {
        old(s)@
    }).push(digit_char((n % 10) as nat)));
}

} // verus!
