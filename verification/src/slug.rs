//! Slugs: the URL-safe names under which articles are found.
//!
//! A slug is the article's id as a 22-character token, a hyphen, and the
//! title reduced to lower-case words joined by hyphens. Because the token
//! determines the id, two articles never share a slug, whatever their titles.

use vstd::prelude::*;
use vstd::string::*;

verus! {

/// The character that stands for the six-bit value `d` in the URL-safe
/// base-64 alphabet: `A`-`Z`, `a`-`z`, `0`-`9`, `-`, `_`.
pub open spec fn url_safe_digit(d: nat) -> char {
    if d < 26 {
        (65 + d) as char
    } else if d < 52 {
        (71 + d) as char
    } else if d < 62 {
        (d - 4) as char
    } else if d == 62 {
        '-'
    } else {
        '_'
    }
}

/// The last `len` base-64 digits of `n`, most significant first.
pub open spec fn base64_digits(n: nat, len: nat) -> Seq<char>
    decreases len,
{
    if len == 0 {
        Seq::empty()
    } else {
        base64_digits(n / 64, (len - 1) as nat).push(url_safe_digit(n % 64))
    }
}

/// The token of an id: its 128 bits, padded with four zero bits, as 22
/// base-64 digits.
pub open spec fn blob_of(id: u128) -> Seq<char> {
    base64_digits(id as nat * 16, 22)
}

/// The words of a title as `slug::slugify` renders them.
pub uninterp spec fn slugified(title: Seq<char>) -> Seq<char>;

/// Letters, digits, hyphen and underscore: what may stand in a URL path unescaped.
pub open spec fn is_url_safe_char(c: char) -> bool {
    ||| 'A' <= c <= 'Z'
    ||| 'a' <= c <= 'z'
    ||| '0' <= c <= '9'
    ||| c == '-'
    ||| c == '_'
}

/// Every character of `s` is URL-safe.
pub open spec fn is_url_safe(s: Seq<char>) -> bool {
    forall|i: int| 0 <= i < s.len() ==> is_url_safe_char(#[trigger] s[i])
}

/// Lower-case words joined by single hyphens: only `a`-`z`, `0`-`9` and `-`,
/// no hyphen at either end, no two hyphens in a row.
pub open spec fn is_slug_text(s: Seq<char>) -> bool {
    &&& forall|i: int|
        0 <= i < s.len() ==> {
            let c = #[trigger] s[i];
            'a' <= c <= 'z' || '0' <= c <= '9' || c == '-'
        }
    &&& s.len() > 0 ==> s.first() != '-' && s.last() != '-'
    &&& forall|i: int| 0 <= i < s.len() - 1 ==> !(#[trigger] s[i] == '-' && s[i + 1] == '-')
}

/// The slug of the article `id` under `title`.
pub open spec fn slug_of(id: u128, title: Seq<char>) -> Seq<char> {
    blob_of(id) + seq!['-'] + slugified(title)
}

/// Calls `blob_uuid::to_blob` on the UUID whose big-endian bytes are `id`.
/// Trusted: the result is the unpadded URL-safe base-64 encoding of those 16
/// bytes, which is the 22 base-64 digits of the 132-bit number `id * 16`.
#[verifier::external_body]
fn id_blob(id: u128) -> (blob: String)
    ensures
        blob@ == blob_of(id),
{
    blob_uuid::to_blob(&uuid::Uuid::from_u128(id))
}

/// Calls `slug::slugify`. Trusted: the result depends on the title alone,
/// and, as the crate documents, consists of `a`-`z`, `0`-`9` and `-`, never
/// starts or ends with `-`, and never holds two `-` in a row.
#[verifier::external_body]
fn slugify_title(title: &str) -> (words: String)
    ensures
        words@ == slugified(title@),
        is_slug_text(words@),
{
    slug::slugify(title)
}

/// Joins an id token and the words of a title with a hyphen.
pub fn compose_slug(blob: &str, words: &str) -> (slug: String)
    ensures
        slug@ == blob@ + seq!['-'] + words@,
{
    proof {
        reveal_strlit("-");
    }
    let slug = String::from_str(blob).concat("-").concat(words);
    assert("-"@ == seq!['-']);
    slug
}

/// The slug of the article `id` under `title`: never fails, depends on
/// nothing but its arguments, and is URL-safe.
pub fn generate_slug(id: u128, title: &str) -> (slug: String)
    ensures
        slug@ == slug_of(id, title@),
        is_url_safe(slug@),
{
    let blob = id_blob(id);
    let words = slugify_title(title);
    proof {
        lemma_digits(id as nat * 16, 22);
    }
    compose_slug(blob.as_str(), words.as_str())
}

/// `base64_digits(n, len)` has `len` characters, all of them URL-safe.
pub proof fn lemma_digits(n: nat, len: nat)
    ensures
        base64_digits(n, len).len() == len,
        is_url_safe(base64_digits(n, len)),
    decreases len,
{
    if len > 0 {
        lemma_digits(n / 64, (len - 1) as nat);
    }
}

/// 64 to the power `k`.
pub open spec fn pow64(k: nat) -> nat
    decreases k,
{
    if k == 0 {
        1
    } else {
        64 * pow64((k - 1) as nat)
    }
}

/// A number below `64^len` is determined by its last `len` base-64 digits.
pub proof fn lemma_digits_injective(n: nat, m: nat, len: nat)
    requires
        n < pow64(len),
        m < pow64(len),
        base64_digits(n, len) == base64_digits(m, len),
    ensures
        n == m,
    decreases len,
{
    if len > 0 {
        let rest = (len - 1) as nat;
        let high_n = base64_digits(n / 64, rest);
        let high_m = base64_digits(m / 64, rest);
        let low_n = url_safe_digit(n % 64);
        let low_m = url_safe_digit(m % 64);
        assert(high_n.push(low_n).last() == low_n);
        assert(high_m.push(low_m).last() == low_m);
        assert(high_n.push(low_n).drop_last() == high_n);
        assert(high_m.push(low_m).drop_last() == high_m);
        assert(n % 64 == m % 64);
        lemma_digits_injective(n / 64, m / 64, rest);
    }
}

/// The token determines the id.
pub proof fn lemma_blob_injective(a: u128, b: u128)
    requires
        blob_of(a) == blob_of(b),
    ensures
        a == b,
{
    assert(pow64(22) == 0x1_0000_0000_0000_0000_0000_0000_0000_0000_0) by {
        reveal_with_fuel(pow64, 23);
    }
    lemma_digits_injective(a as nat * 16, b as nat * 16, 22);
}

/// Two different articles never share a slug, whatever their titles are:
/// the id token in front tells them apart.
pub proof fn lemma_slugs_differ(a: u128, b: u128, title_a: Seq<char>, title_b: Seq<char>)
    requires
        a != b,
    ensures
        slug_of(a, title_a) != slug_of(b, title_b),
{
    lemma_digits(a as nat * 16, 22);
    lemma_digits(b as nat * 16, 22);
    let slug_a = slug_of(a, title_a);
    let slug_b = slug_of(b, title_b);
    assert(slug_a.subrange(0, 22) == blob_of(a));
    assert(slug_b.subrange(0, 22) == blob_of(b));
    if slug_a == slug_b {
        lemma_blob_injective(a, b);
    }
}

} // verus!
