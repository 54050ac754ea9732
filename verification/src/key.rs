//! The key under which the difference between two versions is cached.
//!
//! A key names the package, then the newer version, then the older one:
//! `package-<hex>-<newer>-<older>`, whichever way the package was referred to. The store on chain is read and written
//! under exactly this text.

use crate::text::{decimal, digit_char, has_prefix, is_digit, lemma_decimal_digits,
    lemma_decimal_injective, push_decimal, starts_with, strip_prefix};
use vstd::prelude::*;
use vstd::string::*;

verus! {

/// A package reference in its `package-` form. A reference may come as bare
/// hex, with the generic prefix `resource-` or `hash-`, or with the prefix
/// `package-` already. Only the prefix is exchanged: what follows it is kept
/// as it stands.
pub open spec fn normalized_package_hash(hash: Seq<char>) -> Seq<char> {
    if has_prefix(hash, "package-"@) {
        hash
    } else if has_prefix(hash, "resource-"@) {
        "package-"@ + hash.skip("resource-"@.len() as int)
    } else if has_prefix(hash, "hash-"@) {
        "package-"@ + hash.skip("hash-"@.len() as int)
    } else {
        "package-"@ + hash
    }
}

/// Brings a package reference into its `package-` form.
pub fn normalize_package_hash(hash: &str) -> (r: String)
    ensures
        r@ == normalized_package_hash(hash@),
{
    if starts_with(hash, "package-") {
        return String::from_str(hash);
    }
    let bare = match strip_prefix(hash, "resource-") {
        Some(rest) => rest,
        None => match strip_prefix(hash, "hash-") {
            Some(rest) => rest,
            None => hash,
        },
    };
    let mut r = String::from_str("package-");
    r.append(bare);
    r
}

/// `hash` has none of the three prefixes that a reference may come with.
pub open spec fn is_bare(hash: Seq<char>) -> bool {
    !has_prefix(hash, "package-"@) && !has_prefix(hash, "resource-"@) && !has_prefix(
        hash,
        "hash-"@,
    )
}

/// Every shape of a reference comes to the same: with `resource-`, `hash-` or
/// `package-` before it, or with nothing, `bare` is normalized to `package-`
/// and `bare`.
pub proof fn lemma_shapes_agree(bare: Seq<char>)
    ensures
        normalized_package_hash("package-"@ + bare) == "package-"@ + bare,
        normalized_package_hash("resource-"@ + bare) == "package-"@ + bare,
        normalized_package_hash("hash-"@ + bare) == "package-"@ + bare,
        is_bare(bare) ==> normalized_package_hash(bare) == "package-"@ + bare,
{
    reveal_strlit("package-");
    reveal_strlit("resource-");
    reveal_strlit("hash-");
    let p = "package-"@;
    let r = "resource-"@;
    let h = "hash-"@;
    assert((p + bare).subrange(0, p.len() as int) =~= p);
    assert((r + bare).subrange(0, r.len() as int) =~= r);
    assert((h + bare).subrange(0, h.len() as int) =~= h);
    assert((r + bare).skip(r.len() as int) =~= bare);
    assert((h + bare).skip(h.len() as int) =~= bare);
    assert(!has_prefix(r + bare, p)) by {
        if has_prefix(r + bare, p) {
            assert((r + bare).subrange(0, p.len() as int)[0] == p[0]);
        }
    }
    assert(!has_prefix(h + bare, p)) by {
        if has_prefix(h + bare, p) {
            assert((h + bare).subrange(0, p.len() as int)[0] == p[0]);
        }
    }
    assert(!has_prefix(h + bare, r)) by {
        if has_prefix(h + bare, r) {
            assert((h + bare).subrange(0, r.len() as int)[0] == r[0]);
        }
    }
}

/// Whichever way a package is referred to, the key is the same.
pub proof fn lemma_cache_key_of_any_shape(bare: Seq<char>, older_version: u32, newer_version: u32)
    ensures
        cache_key("resource-"@ + bare, older_version, newer_version) == cache_key(
            "package-"@ + bare,
            older_version,
            newer_version,
        ),
        cache_key("hash-"@ + bare, older_version, newer_version) == cache_key(
            "package-"@ + bare,
            older_version,
            newer_version,
        ),
        is_bare(bare) ==> cache_key(bare, older_version, newer_version) == cache_key(
            "package-"@ + bare,
            older_version,
            newer_version,
        ),
{
    lemma_shapes_agree(bare);
}

/// The two version numbers as they end a key: the newer one first.
pub open spec fn version_suffix(older_version: u32, newer_version: u32) -> Seq<char> {
    decimal(newer_version as nat) + seq!['-'] + decimal(older_version as nat)
}

/// The cache key for the difference from `older_version` to `newer_version` of
/// the package `package_hash`.
pub open spec fn cache_key(package_hash: Seq<char>, older_version: u32, newer_version: u32) -> Seq<
    char,
> {
    normalized_package_hash(package_hash) + seq!['-'] + version_suffix(
        older_version,
        newer_version,
    )
}

/// Derives the cache key for the difference from `older_version` to
/// `newer_version` of the package `package_hash`. Any text is accepted as a
/// package reference; whether it names a package is decided elsewhere.
pub fn derive_key(package_hash: &str, older_version: u32, newer_version: u32) -> (key: String)
    ensures
        key@ == cache_key(package_hash@, older_version, newer_version),
{
    let mut key = normalize_package_hash(package_hash);
    proof {
        reveal_strlit("-");
        assert("-"@ =~= seq!['-']);
    }
    key.append("-");
    push_decimal(&mut key, newer_version);
    key.append("-");
    push_decimal(&mut key, older_version);
    assert(key@ =~= cache_key(package_hash@, older_version, newer_version));
    key
}

/// The separator is no digit.
proof fn lemma_dash_is_no_digit()
    ensures
        !is_digit('-'),
{
    assert forall|d: nat| d < 10 implies '-' != #[trigger] digit_char(d) by {}
}

/// A version suffix tells both numbers.
pub proof fn lemma_version_suffix_injective(o1: u32, n1: u32, o2: u32, n2: u32)
    requires
        version_suffix(o1, n1) == version_suffix(o2, n2),
    ensures
        o1 == o2,
        n1 == n2,
{
    let a1 = decimal(n1 as nat);
    let b1 = decimal(o1 as nat);
    let a2 = decimal(n2 as nat);
    let b2 = decimal(o2 as nat);
    let x1 = version_suffix(o1, n1);
    let x2 = version_suffix(o2, n2);
    lemma_decimal_digits(n1 as nat);
    lemma_decimal_digits(n2 as nat);
    lemma_dash_is_no_digit();
    assert(x1[a1.len() as int] == '-');
    assert(x2[a2.len() as int] == '-');
    if a1.len() < a2.len() {
        assert(x2[a1.len() as int] == a2[a1.len() as int]);
        assert(is_digit(a2[a1.len() as int]));
    }
    if a2.len() < a1.len() {
        assert(x1[a2.len() as int] == a1[a2.len() as int]);
        assert(is_digit(a1[a2.len() as int]));
    }
    assert(a1 =~= x1.take(a1.len() as int));
    assert(a2 =~= x2.take(a2.len() as int));
    assert(b1 =~= x1.skip(a1.len() as int + 1));
    assert(b2 =~= x2.skip(a2.len() as int + 1));
    lemma_decimal_injective(n1 as nat, n2 as nat);
    lemma_decimal_injective(o1 as nat, o2 as nat);
}

/// For one package, different pairs of versions have different keys.
pub proof fn lemma_cache_key_injective(package_hash: Seq<char>, o1: u32, n1: u32, o2: u32, n2: u32)
    requires
        cache_key(package_hash, o1, n1) == cache_key(package_hash, o2, n2),
    ensures
        o1 == o2,
        n1 == n2,
{
    let p = normalized_package_hash(package_hash) + seq!['-'];
    assert(version_suffix(o1, n1) =~= cache_key(package_hash, o1, n1).skip(p.len() as int));
    assert(version_suffix(o2, n2) =~= cache_key(package_hash, o2, n2).skip(p.len() as int));
    lemma_version_suffix_injective(o1, n1, o2, n2);
}

/// A key tells which version is the newer one: exchanging two different
/// version numbers gives another key.
pub proof fn lemma_cache_key_order_matters(package_hash: Seq<char>, a: u32, b: u32)
    requires
        a != b,
    ensures
        cache_key(package_hash, a, b) != cache_key(package_hash, b, a),
{
    if cache_key(package_hash, a, b) == cache_key(package_hash, b, a) {
        lemma_cache_key_injective(package_hash, a, b, b, a);
    }
}

} // verus!
