//! Text helpers shared by the vocabularies: trimming by Unicode white
//! space, ASCII lower-casing, literal comparison and the conversions
//! between `&str`, `String` and character vectors.

use vstd::prelude::*;

verus! {

/// Whether `c` has the Unicode `White_Space` property: the code points that
/// PropList.txt lists under that property.
pub open spec fn is_white_space(c: char) -> bool {
    let n = c as u32;
    ||| 0x9 <= n <= 0xD
    ||| n == 0x20
    ||| n == 0x85
    ||| n == 0xA0
    ||| n == 0x1680
    ||| 0x2000 <= n <= 0x200A
    ||| n == 0x2028
    ||| n == 0x2029
    ||| n == 0x202F
    ||| n == 0x205F
    ||| n == 0x3000
}

/// `s` without its leading white space.
pub open spec fn trim_start_chars(s: Seq<char>) -> Seq<char>
    decreases s.len(),
{
    if s.len() > 0 && is_white_space(s[0]) {
        trim_start_chars(s.drop_first())
    } else {
        s
    }
}

/// `s` without its trailing white space.
pub open spec fn trim_end_chars(s: Seq<char>) -> Seq<char>
    decreases s.len(),
{
    if s.len() > 0 && is_white_space(s.last()) {
        trim_end_chars(s.drop_last())
    } else {
        s
    }
}

/// `s` without leading and trailing white space, as `str::trim` gives it.
pub open spec fn trim_chars(s: Seq<char>) -> Seq<char> {
    trim_end_chars(trim_start_chars(s))
}

/// The ASCII lower-case form of a character: `A`..`Z` become `a`..`z`,
/// everything else is kept.
pub open spec fn ascii_lower_char(c: char) -> char {
    if 'A' <= c && c <= 'Z' {
        ((c as u32) + 32) as char
    } else {
        c
    }
}

/// The ASCII lower-case form of a text.
pub open spec fn ascii_lower(s: Seq<char>) -> Seq<char> {
    s.map_values(|c: char| ascii_lower_char(c))
}

/// Whether `c` has the Unicode `White_Space` property, as
/// `char::is_whitespace` decides it.
pub(crate) fn char_is_whitespace(c: char) -> (b: bool)
    ensures
        b == is_white_space(c),
{
    let n = c as u32;
    (0x9 <= n && n <= 0xD) || n == 0x20 || n == 0x85 || n == 0xA0 || n == 0x1680 || (0x2000 <= n
        && n <= 0x200A) || n == 0x2028 || n == 0x2029 || n == 0x202F || n == 0x205F || n == 0x3000
}

/// The characters of `s`, in order.
pub(crate) fn chars_of(s: &str) -> (v: Vec<char>)
    ensures
        v@ == s@,
{
    broadcast use vstd::string::axiom_spec_iter;
    let mut v: Vec<char> = Vec::new();
    for c in iter: s.chars()
        invariant
            iter.seq() == s@,
            v@ == iter.seq().take(iter.index() as int),
    {
        v.push(c);
    }
    v
}

/// The string made of `chars`, in order (`String::from_iter`).
#[verifier::external_body]
pub(crate) fn string_from_chars(chars: &[char]) -> (s: String)
    ensures
        s@ == chars@,
{
    chars.iter().collect()
}

/// The characters `s[start..end]`.
pub(crate) fn slice_chars(s: &Vec<char>, start: usize, end: usize) -> (out: Vec<char>)
    requires
        start <= end <= s@.len(),
    ensures
        out@ == s@.subrange(start as int, end as int),
{
    let mut out: Vec<char> = Vec::new();
    let mut i = start;
    while i < end
        invariant
            start <= i <= end <= s@.len(),
            out@ == s@.subrange(start as int, i as int),
        decreases end - i,
    {
        out.push(s[i]);
        i = i + 1;
    }
    out
}

/// `s` without leading and trailing white space.
pub(crate) fn trim_vec(s: &Vec<char>) -> (out: Vec<char>)
    ensures
        out@ == trim_chars(s@),
{
    let len = s.len();
    let mut i: usize = 0;
    assert(s@.subrange(0, len as int) =~= s@);
    while i < len && char_is_whitespace(s[i])
        invariant
            i <= len == s@.len(),
            trim_start_chars(s@) == trim_start_chars(s@.subrange(i as int, len as int)),
        decreases len - i,
    {
        assert(s@.subrange(i as int, len as int).drop_first() =~= s@.subrange(
            i as int + 1,
            len as int,
        ));
        i = i + 1;
    }
    assert(trim_start_chars(s@) == s@.subrange(i as int, len as int));
    let mut j: usize = len;
    while j > i && char_is_whitespace(s[j - 1])
        invariant
            i <= j <= len == s@.len(),
            trim_start_chars(s@) == s@.subrange(i as int, len as int),
            trim_end_chars(s@.subrange(i as int, len as int)) == trim_end_chars(
                s@.subrange(i as int, j as int),
            ),
        decreases j - i,
    {
        assert(s@.subrange(i as int, j as int).drop_last() =~= s@.subrange(
            i as int,
            j as int - 1,
        ));
        j = j - 1;
    }
    slice_chars(s, i, j)
}

/// The characters of `s` without leading and trailing white space.
pub(crate) fn trimmed_chars(s: &str) -> (out: Vec<char>)
    ensures
        out@ == trim_chars(s@),
{
    trim_vec(&chars_of(s))
}

/// `s` without leading and trailing white space, as a `String`.
pub fn trim_text(s: &str) -> (out: String)
    ensures
        out@ == trim_chars(s@),
{
    let chars = trimmed_chars(s);
    string_from_chars(chars.as_slice())
}

/// Whether the characters `a` spell exactly `b`.
pub(crate) fn chars_equal(a: &Vec<char>, b: &str) -> (same: bool)
    ensures
        same == (a@ == b@),
{
    let b_chars = chars_of(b);
    if a.len() != b_chars.len() {
        return false;
    }
    let mut i: usize = 0;
    while i < a.len()
        invariant
            i <= a@.len() == b_chars@.len(),
            b_chars@ == b@,
            forall|k: int| 0 <= k < i ==> a@[k] == b_chars@[k],
        decreases a@.len() - i,
    {
        if a[i] != b_chars[i] {
            return false;
        }
        i = i + 1;
    }
    assert(a@ =~= b_chars@);
    true
}

/// Whether `a` and `b` are the same text.
pub(crate) fn text_equal(a: &str, b: &str) -> (same: bool)
    ensures
        same == (a@ == b@),
{
    chars_equal(&chars_of(a), b)
}

/// Whether the characters `s` begin with `prefix`.
pub(crate) fn chars_start_with(s: &Vec<char>, prefix: &str) -> (starts: bool)
    ensures
        starts == (prefix@.len() <= s@.len() && s@.subrange(0, prefix@.len() as int) == prefix@),
{
    let p = chars_of(prefix);
    if p.len() > s.len() {
        return false;
    }
    let mut i: usize = 0;
    while i < p.len()
        invariant
            i <= p@.len() <= s@.len(),
            p@ == prefix@,
            forall|k: int| 0 <= k < i ==> s@[k] == p@[k],
        decreases p@.len() - i,
    {
        if s[i] != p[i] {
            assert(s@.subrange(0, p@.len() as int)[i as int] != p@[i as int]);
            return false;
        }
        i = i + 1;
    }
    assert(s@.subrange(0, p@.len() as int) =~= p@);
    true
}

/// The ASCII lower-case form of `s`.
pub(crate) fn ascii_lowercase_vec(s: &Vec<char>) -> (out: Vec<char>)
    ensures
        out@ == ascii_lower(s@),
{
    let mut out: Vec<char> = Vec::new();
    let mut i: usize = 0;
    while i < s.len()
        invariant
            i <= s@.len(),
            out@ == ascii_lower(s@.subrange(0, i as int)),
        decreases s@.len() - i,
    {
        let c = s[i];
        let lower = if 'A' <= c && c <= 'Z' {
            let code: u8 = (c as u8) + 32;
            code as char
        } else {
            c
        };
        out.push(lower);
        assert(ascii_lower(s@.subrange(0, i as int + 1)) =~= ascii_lower(
            s@.subrange(0, i as int),
        ).push(ascii_lower_char(c)));
        i = i + 1;
    }
    assert(s@.subrange(0, i as int) =~= s@);
    out
}

/// `a` followed by `b`.
pub(crate) fn concat_text(a: &str, b: &str) -> (out: String)
    ensures
        out@ == a@ + b@,
{
    let mut chars = chars_of(a);
    let tail = chars_of(b);
    append_chars(&mut chars, &tail);
    string_from_chars(chars.as_slice())
}

/// Appends the characters `tail` to `out`.
pub(crate) fn append_chars(out: &mut Vec<char>, tail: &Vec<char>)
    ensures
        final(out)@ == old(out)@ + tail@,
{
    let ghost start = out@;
    let mut i: usize = 0;
    while i < tail.len()
        invariant
            i <= tail@.len(),
            out@ == start + tail@.subrange(0, i as int),
        decreases tail@.len() - i,
    {
        out.push(tail[i]);
        assert(tail@.subrange(0, i as int + 1) =~= tail@.subrange(0, i as int).push(tail@[i as int]));
        i = i + 1;
    }
    assert(tail@.subrange(0, i as int) =~= tail@);
}

/// Appends the characters of `tail` to `out`.
pub(crate) fn append_text(out: &mut Vec<char>, tail: &str)
    ensures
        final(out)@ == old(out)@ + tail@,
{
    let chars = chars_of(tail);
    append_chars(out, &chars);
}

/// The decimal digit of `n < 10`.
pub open spec fn decimal_digit(n: nat) -> char {
    ((n + 48) as u8) as char
}

/// The decimal text of `n`, without leading zeros.
pub open spec fn decimal_nat(n: nat) -> Seq<char>
    decreases n,
{
    if n < 10 {
        seq![decimal_digit(n)]
    } else {
        decimal_nat(n / 10) + seq![decimal_digit(n % 10)]
    }
}

/// The decimal text of `n`, with a leading `-` when it is negative.
pub open spec fn decimal_int(n: int) -> Seq<char> {
    if n < 0 {
        seq!['-'] + decimal_nat((-n) as nat)
    } else {
        decimal_nat(n as nat)
    }
}

/// Appends the decimal text of `n` to `out`.
pub(crate) fn push_decimal_u64(out: &mut Vec<char>, n: u64)
    ensures
        final(out)@ == old(out)@ + decimal_nat(n as nat),
    decreases n,
{
    if n >= 10 {
        push_decimal_u64(out, n / 10);
    }
    let digit: u8 = (n % 10) as u8;
    out.push(((digit + 48) as u8) as char);
}

/// Appends the decimal text of `n` to `out`.
pub(crate) fn push_decimal_i64(out: &mut Vec<char>, n: i64)
    ensures
        final(out)@ == old(out)@ + decimal_int(n as int),
{
    if n < 0 {
        out.push('-');
        let magnitude: u64 = (0i128 - (n as i128)) as u64;
        push_decimal_u64(out, magnitude);
    } else {
        push_decimal_u64(out, n as u64);
    }
}

/// Whether `c` is an ASCII letter or digit.
pub open spec fn is_ascii_alphanumeric(c: char) -> bool {
    ('a' <= c && c <= 'z') || ('A' <= c && c <= 'Z') || ('0' <= c && c <= '9')
}

/// `s` with every character that is not an ASCII letter or digit replaced
/// by `_`.
pub open spec fn underscore_non_alphanumeric(s: Seq<char>) -> Seq<char> {
    s.map_values(|c: char| if is_ascii_alphanumeric(c) { c } else { '_' })
}

/// Appends `s` to `out`, each character that is not an ASCII letter or
/// digit replaced by `_`.
pub(crate) fn append_underscored(out: &mut Vec<char>, s: &str)
    ensures
        final(out)@ == old(out)@ + underscore_non_alphanumeric(s@),
{
    let chars = chars_of(s);
    let ghost start = out@;
    let mut i: usize = 0;
    while i < chars.len()
        invariant
            i <= chars@.len(),
            chars@ == s@,
            out@ == start + underscore_non_alphanumeric(chars@.subrange(0, i as int)),
        decreases chars@.len() - i,
    {
        let c = chars[i];
        let kept = if ('a' <= c && c <= 'z') || ('A' <= c && c <= 'Z') || ('0' <= c && c <= '9') {
            c
        } else {
            '_'
        };
        out.push(kept);
        assert(underscore_non_alphanumeric(chars@.subrange(0, i as int + 1)) =~= underscore_non_alphanumeric(
            chars@.subrange(0, i as int),
        ).push(kept));
        i = i + 1;
    }
    assert(chars@.subrange(0, i as int) =~= chars@);
}

/// Law: trimming twice is trimming once.
pub proof fn lemma_trim_is_idempotent(s: Seq<char>)
    ensures
        trim_chars(trim_chars(s)) == trim_chars(s),
{
    lemma_trim_start_idempotent(s);
    lemma_trim_end_keeps_clean_start(trim_start_chars(s));
    lemma_trim_end_idempotent(trim_start_chars(s));
}

proof fn lemma_trim_start_idempotent(s: Seq<char>)
    ensures
        trim_start_chars(trim_start_chars(s)) == trim_start_chars(s),
        trim_start_chars(s).len() > 0 ==> !is_white_space(trim_start_chars(s)[0]),
    decreases s.len(),
{
    if s.len() > 0 && is_white_space(s[0]) {
        lemma_trim_start_idempotent(s.drop_first());
    }
}

proof fn lemma_trim_end_idempotent(s: Seq<char>)
    ensures
        trim_end_chars(trim_end_chars(s)) == trim_end_chars(s),
    decreases s.len(),
{
    if s.len() > 0 && is_white_space(s.last()) {
        lemma_trim_end_idempotent(s.drop_last());
    }
}

/// Cutting trailing white space from a text that does not start with white
/// space leaves a text that does not start with white space.
proof fn lemma_trim_end_keeps_clean_start(s: Seq<char>)
    requires
        s.len() > 0 ==> !is_white_space(s[0]),
    ensures
        trim_start_chars(trim_end_chars(s)) == trim_end_chars(s),
    decreases s.len(),
{
    if s.len() > 0 && is_white_space(s.last()) {
        lemma_trim_end_keeps_clean_start(s.drop_last());
    }
}

/// Cutting trailing white space keeps a prefix that does not end in white
/// space.
proof fn lemma_trim_end_prefix(s: Seq<char>)
    ensures
        trim_end_chars(s).len() <= s.len(),
        trim_end_chars(s) == s.subrange(0, trim_end_chars(s).len() as int),
        trim_end_chars(s).len() > 0 ==> !is_white_space(trim_end_chars(s).last()),
    decreases s.len(),
{
    if s.len() > 0 && is_white_space(s.last()) {
        lemma_trim_end_prefix(s.drop_last());
        assert(s.drop_last().subrange(0, trim_end_chars(s).len() as int) =~= s.subrange(
            0,
            trim_end_chars(s).len() as int,
        ));
    } else {
        assert(s.subrange(0, s.len() as int) =~= s);
    }
}

/// A trimmed text neither starts nor ends with white space.
pub proof fn lemma_trimmed_ends(s: Seq<char>)
    ensures
        trim_chars(s).len() > 0 ==> !is_white_space(trim_chars(s)[0]) && !is_white_space(
            trim_chars(s).last(),
        ),
{
    lemma_trim_start_idempotent(s);
    lemma_trim_end_prefix(trim_start_chars(s));
    if trim_chars(s).len() > 0 {
        assert(trim_chars(s)[0] == trim_start_chars(s)[0]);
    }
}

/// A text that neither starts nor ends with white space is its own trim.
pub proof fn lemma_clean_text_is_trimmed(s: Seq<char>)
    requires
        s.len() > 0 ==> !is_white_space(s[0]) && !is_white_space(s.last()),
    ensures
        trim_chars(s) == s,
{
}

} // verus!
