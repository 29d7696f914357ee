//! String building blocks with exact contracts: decimal numbers, bounded
//! titles, placeholder substitution and joining.

use vstd::prelude::*;
use vstd::string::{StringExecFns, StringSliceAdditionalSpecFns};
use vstd::utf8::{encode_utf8, is_char_boundary};

verus! {

broadcast use vstd::utf8::group_utf8_lib;

/// The longest a notification title may be, in UTF-8 bytes.
pub const TITLE_MAX_BYTES: usize = 256;

/// The UTF-8 byte length of a character sequence.
pub open spec fn byte_len(s: Seq<char>) -> int {
    encode_utf8(s).len() as int
}

/// The decimal digit for `d`, which is below ten.
pub open spec fn digit_char(d: nat) -> char {
    seq!['0', '1', '2', '3', '4', '5', '6', '7', '8', '9'][d as int]
}

/// The decimal notation of `n`, without leading zeros.
pub open spec fn decimal(n: nat) -> Seq<char>
    decreases n,
{
    if n < 10 {
        seq![digit_char(n)]
    } else {
        decimal(n / 10).push(digit_char(n % 10))
    }
}

fn digit_str(d: u64) -> (r: &'static str)
    requires
        d < 10,
    ensures
        r@ == seq![digit_char(d as nat)],
{
    proof {
        reveal_strlit("0");
        reveal_strlit("1");
        reveal_strlit("2");
        reveal_strlit("3");
        reveal_strlit("4");
        reveal_strlit("5");
        reveal_strlit("6");
        reveal_strlit("7");
        reveal_strlit("8");
        reveal_strlit("9");
    }
    if d == 0 {
        "0"
    } else if d == 1 {
        "1"
    } else if d == 2 {
        "2"
    } else if d == 3 {
        "3"
    } else if d == 4 {
        "4"
    } else if d == 5 {
        "5"
    } else if d == 6 {
        "6"
    } else if d == 7 {
        "7"
    } else if d == 8 {
        "8"
    } else {
        "9"
    }
}

/// Writes `n` in decimal.
pub fn decimal_string(n: u64) -> (r: String)
    ensures
        r@ == decimal(n as nat),
{
    let mut s = String::from_str(digit_str(n % 10));
    let mut m: u64 = n / 10;
    assert(n < 10 ==> decimal(n as nat) == s@);
    assert(n >= 10 ==> decimal(n as nat) == decimal(m as nat) + s@);
    while m > 0
        invariant
            m > 0 ==> decimal(n as nat) == decimal(m as nat) + s@,
            m == 0 ==> decimal(n as nat) == s@,
        decreases m,
    {
        let d = digit_str(m % 10);
        let ghost old_s = s@;
        s = String::from_str(d).concat(s.as_str());
        assert(s@ == seq![digit_char((m % 10) as nat)] + old_s);
        if m >= 10 {
            assert(decimal(m as nat) == decimal((m / 10) as nat).push(digit_char((m % 10) as nat)));
            assert(decimal((m / 10) as nat) + s@ =~= decimal(m as nat) + old_s);
        } else {
            assert(decimal(m as nat) =~= seq![digit_char((m % 10) as nat)]);
        }
        m = m / 10;
    }
    s
}

/// `a` followed by `b`.
pub fn join2(a: &str, b: &str) -> (r: String)
    ensures
        r@ == a@ + b@,
{
    String::from_str(a).concat(b)
}

/// `t` is `text` cut to at most [`TITLE_MAX_BYTES`] bytes at a character
/// boundary: the longest prefix of `text` that fits.
pub open spec fn is_title_of(t: Seq<char>, text: Seq<char>) -> bool {
    &&& t == text.subrange(0, t.len() as int)
    &&& byte_len(t) <= TITLE_MAX_BYTES
    &&& encode_utf8(t) == encode_utf8(text).subrange(0, byte_len(t))
    &&& byte_len(text) <= TITLE_MAX_BYTES ==> t == text
    &&& forall|j: int|
        byte_len(t) < j <= TITLE_MAX_BYTES && j <= byte_len(text) ==> !is_char_boundary(
            encode_utf8(text),
            j,
        )
}

/// Cuts `text` to at most [`TITLE_MAX_BYTES`] bytes without splitting a
/// character, keeping the longest prefix that fits.
pub fn truncate_title(text: &str) -> (r: String)
    ensures
        is_title_of(r@, text@),
{
    let ghost bytes = encode_utf8(text@);
    let len = text.as_bytes().len();
    let mut n: usize = if len < TITLE_MAX_BYTES {
        len
    } else {
        TITLE_MAX_BYTES
    };
    proof {
        assert(is_char_boundary(bytes, 0));
        assert(is_char_boundary(bytes, len as int));
    }
    while !text.is_char_boundary(n)
        invariant
            n <= len,
            n <= TITLE_MAX_BYTES,
            len == bytes.len(),
            bytes == encode_utf8(text@),
            text.spec_bytes() == bytes,
            len < TITLE_MAX_BYTES ==> n == len,
            is_char_boundary(bytes, 0),
            forall|j: int| n < j <= TITLE_MAX_BYTES && j <= len ==> !is_char_boundary(bytes, j),
        decreases n,
    {
        n = n - 1;
    }
    let (head, _tail) = text.split_at(n);
    proof {
        assert(bytes.subrange(0, n as int) == encode_utf8(head@));
        let rest = bytes.subrange(n as int, bytes.len() as int);
        assert(vstd::utf8::decode_utf8(bytes) == head@ + vstd::utf8::decode_utf8(rest));
        assert(head@ =~= text@.subrange(0, head@.len() as int));
    }
    head.to_owned()
}

} // verus!

verus! {

/// `s` with every occurrence of `key`, scanned left to right without
/// overlap, replaced by `value`.
pub open spec fn replaced(s: Seq<char>, key: Seq<char>, value: Seq<char>) -> Seq<char>
    decreases s.len(),
{
    if key.len() == 0 || s.len() < key.len() {
        s
    } else if s.subrange(0, key.len() as int) == key {
        value + replaced(s.subrange(key.len() as int, s.len() as int), key, value)
    } else {
        seq![s[0]] + replaced(s.subrange(1, s.len() as int), key, value)
    }
}

/// The parts, with `sep` between each two of them.
pub open spec fn joined(parts: Seq<Seq<char>>, sep: Seq<char>) -> Seq<char>
    decreases parts.len(),
{
    if parts.len() == 0 {
        Seq::empty()
    } else if parts.len() == 1 {
        parts[0]
    } else {
        joined(parts.drop_last(), sep) + sep + parts.last()
    }
}

fn key_at(s: &str, slen: usize, i: usize, key: &str, klen: usize) -> (r: bool)
    requires
        slen == s@.len(),
        klen == key@.len(),
        i + klen <= slen,
    ensures
        r == (s@.subrange(i as int, i + klen) == key@),
{
    let mut j: usize = 0;
    while j < klen
        invariant
            slen == s@.len(),
            klen == key@.len(),
            i + klen <= slen,
            j <= klen,
            forall|t: int| 0 <= t < j ==> s@[i + t] == key@[t],
        decreases klen - j,
    {
        if s.get_char(i + j) != key.get_char(j) {
            assert(s@.subrange(i as int, i + klen)[j as int] != key@[j as int]);
            return false;
        }
        j = j + 1;
    }
    assert(s@.subrange(i as int, i + klen) =~= key@);
    true
}

/// Replaces every occurrence of `key` in `s` by `value`, as `str::replace` does.
pub fn replace_all(s: &str, key: &str, value: &str) -> (r: String)
    requires
        key@.len() > 0,
    ensures
        r@ == replaced(s@, key@, value@),
{
    let slen = s.unicode_len();
    let klen = key.unicode_len();
    let mut out = String::new();
    let mut i: usize = 0;
    assert(s@.subrange(0, slen as int) =~= s@);
    assert(out@ + replaced(s@, key@, value@) =~= replaced(s@, key@, value@));
    while i < slen
        invariant
            slen == s@.len(),
            klen == key@.len(),
            klen > 0,
            i <= slen,
            replaced(s@, key@, value@) == out@ + replaced(s@.subrange(i as int, slen as int), key@, value@),
        decreases slen - i,
    {
        let ghost rest = s@.subrange(i as int, slen as int);
        if slen - i < klen {
            assert(replaced(rest, key@, value@) == rest);
            out = out.concat(s.substring_char(i, slen));
            assert(s@.subrange(slen as int, slen as int) =~= Seq::<char>::empty());
            i = slen;
        } else if key_at(s, slen, i, key, klen) {
            assert(rest.subrange(0, klen as int) =~= s@.subrange(i as int, i + klen));
            assert(rest.subrange(klen as int, rest.len() as int) =~= s@.subrange(i + klen, slen as int));
            out = out.concat(value);
            i = i + klen;
        } else {
            assert(rest.subrange(0, klen as int) =~= s@.subrange(i as int, i + klen));
            assert(rest.subrange(1, rest.len() as int) =~= s@.subrange(i + 1, slen as int));
            assert(s@.subrange(i as int, i + 1) =~= seq![rest[0]]);
            out = out.concat(s.substring_char(i, i + 1));
            i = i + 1;
        }
    }
    assert(s@.subrange(slen as int, slen as int) =~= Seq::<char>::empty());
    out
}

/// Joins the parts with `sep` between each two of them.
pub fn join_with(parts: &Vec<String>, sep: &str) -> (r: String)
    ensures
        r@ == joined(parts@.map_values(|p: String| p@), sep@),
{
    let ghost views = parts@.map_values(|p: String| p@);
    let mut out = String::new();
    let mut i: usize = 0;
    while i < parts.len()
        invariant
            i <= parts@.len(),
            views == parts@.map_values(|p: String| p@),
            out@ == joined(views.subrange(0, i as int), sep@),
        decreases parts@.len() - i,
    {
        let ghost prefix = views.subrange(0, i as int);
        if i > 0 {
            out = out.concat(sep);
        }
        out = out.concat(parts[i].as_str());
        assert(views.subrange(0, i + 1).drop_last() =~= prefix);
        i = i + 1;
    }
    assert(views.subrange(0, parts@.len() as int) =~= views);
    out
}

/// Whether two strings hold the same characters.
pub fn same_str(a: &str, b: &str) -> (r: bool)
    ensures
        r == (a@ == b@),
{
    let n = a.unicode_len();
    if n != b.unicode_len() {
        return false;
    }
    let mut i: usize = 0;
    while i < n
        invariant
            n == a@.len(),
            n == b@.len(),
            i <= n,
            forall|k: int| 0 <= k < i ==> a@[k] == b@[k],
        decreases n - i,
    {
        if a.get_char(i) != b.get_char(i) {
            return false;
        }
        i = i + 1;
    }
    assert(a@ =~= b@);
    true
}

/// Text without `{` is kept as it is in front of a key that starts with `{`.
pub proof fn lemma_replaced_skips(a: Seq<char>, b: Seq<char>, key: Seq<char>, value: Seq<char>)
    requires
        key.len() > 0,
        key[0] == '{',
        forall|i: int| 0 <= i < a.len() ==> a[i] != '{',
    ensures
        replaced(a + b, key, value) == a + replaced(b, key, value),
    decreases a.len(),
{
    if a.len() > 0 {
        let s = a + b;
        if s.len() < key.len() {
            assert(replaced(b, key, value) == b);
        } else {
            assert(s.subrange(0, key.len() as int)[0] != key[0]);
            assert(s.subrange(1, s.len() as int) =~= a.drop_first() + b);
            lemma_replaced_skips(a.drop_first(), b, key, value);
            assert(s =~= seq![a[0]] + (a.drop_first() + b));
            assert(a =~= seq![a[0]] + a.drop_first());
        }
    } else {
        assert(a + b =~= b);
    }
}

/// A template with one placeholder `key` and no other `{` is filled by
/// putting `value` in its place.
pub proof fn lemma_fill_once(pre: Seq<char>, post: Seq<char>, key: Seq<char>, value: Seq<char>)
    requires
        key.len() > 0,
        key[0] == '{',
        forall|i: int| 0 <= i < pre.len() ==> pre[i] != '{',
        forall|i: int| 0 <= i < post.len() ==> post[i] != '{',
    ensures
        replaced(pre + key + post, key, value) == pre + value + post,
{
    assert(pre + key + post =~= pre + (key + post));
    lemma_replaced_skips(pre, key + post, key, value);
    let s = key + post;
    assert(s.subrange(0, key.len() as int) =~= key);
    assert(s.subrange(key.len() as int, s.len() as int) =~= post);
    lemma_replaced_skips(post, Seq::empty(), key, value);
    assert(post + Seq::<char>::empty() =~= post);
    assert(replaced(Seq::<char>::empty(), key, value) == Seq::<char>::empty());
    assert(replaced(post, key, value) == post);
    assert(pre + (value + post) =~= pre + value + post);
}

} // verus!
