//! The canonical request descriptor and its digest.
use vstd::prelude::*;
use vstd::utf8::encode_utf8;

use crate::text::{
    append_decimal, append_hex, decimal, hex_digits, is_hex_char, lemma_decimal_injective,
    lemma_decimal_shape, lemma_hex_digits_injective, lemma_hex_digits_shape, pow16,
};

verus! {

/// Starting value of 64-bit FNV-1a.
pub const FNV_OFFSET_BASIS: u64 = 0xcbf29ce484222325;

/// Multiplier of 64-bit FNV-1a.
pub const FNV_PRIME: u64 = 0x100000001b3;

/// One round of 64-bit FNV-1a: xor the byte in, then multiply by the prime modulo 2^64.
pub open spec fn fnv1a_step(hash: u64, byte: u8) -> u64 {
    (((hash ^ (byte as u64)) as nat * FNV_PRIME as nat) % 0x1_0000_0000_0000_0000nat) as u64
}

/// 64-bit FNV-1a of a byte sequence.
pub open spec fn fnv1a(bytes: Seq<u8>) -> u64
    decreases bytes.len(),
{
    if bytes.len() == 0 {
        FNV_OFFSET_BASIS
    } else {
        fnv1a_step(fnv1a(bytes.drop_last()), bytes.last())
    }
}

/// The canonical descriptor of a request, from its fields.
pub open spec fn canonical_of(location: Seq<char>, units: Seq<char>, days: u8, hours: u8) -> Seq<char> {
    location + "|units:"@ + units + "|days:"@ + decimal(days as nat) + "|hours:"@ + decimal(
        hours as nat,
    )
}

/// The digest of a canonical descriptor: FNV-1a of its UTF-8 bytes, as 16 lowercase hex digits.
pub open spec fn digest_of(canonical: Seq<char>) -> Seq<char> {
    hex_digits(fnv1a(encode_utf8(canonical)) as nat, 16)
}

/// Canonical request descriptor. Requests with different parameters get
/// different cache files. The location component is the input as given
/// (a named location, a coordinates pair, or the auto/IP marker).
pub struct CacheKey {
    pub location: String,
    pub units: &'static str,
    pub days: u8,
    pub hours: u8,
}

impl CacheKey {
    /// The canonical descriptor of this key.
    pub open spec fn spec_canonical(&self) -> Seq<char> {
        canonical_of(self.location@, self.units@, self.days, self.hours)
    }

    /// The digest of this key.
    pub open spec fn spec_digest(&self) -> Seq<char> {
        digest_of(self.spec_canonical())
    }

    /// `location|units:U|days:D|hours:H`, with the numbers in decimal.
    pub fn canonical(&self) -> (res: String)
        ensures
            res@ == self.spec_canonical(),
    {
        let mut s = self.location.clone();
        s.append("|units:");
        s.append(self.units);
        s.append("|days:");
        append_decimal(&mut s, self.days);
        s.append("|hours:");
        append_decimal(&mut s, self.hours);
        s
    }

    /// 16-hex digest of the canonical descriptor (FNV-1a 64-bit over its UTF-8 bytes).
    pub fn digest(&self) -> (res: String)
        ensures
            res@ == self.spec_digest(),
            res@.len() == 16,
            forall|i: int| 0 <= i < 16 ==> is_hex_char(#[trigger] res@[i]),
    {
        let c = self.canonical();
        let hash = fnv1a_hash(c.as_str().as_bytes());
        let mut res = String::new();
        append_hex(&mut res, hash, 16);
        proof {
            lemma_hex_digits_shape(hash as nat, 16);
        }
        res
    }
}

/// 64-bit FNV-1a, round by round: the hash of no bytes is the offset basis
/// 0xcbf29ce484222325, and appending any byte `b` (every value, 0x20 included)
/// xors `b` into the hash of the bytes before it and multiplies by the prime
/// 0x100000001b3 modulo 2^64. So every byte of the input, however long, enters
/// the hash.
pub proof fn lemma_fnv1a_rounds(bytes: Seq<u8>, b: u8)
    ensures
        fnv1a(Seq::<u8>::empty()) == 0xcbf29ce484222325u64,
        fnv1a(bytes.push(b)) == ((((fnv1a(bytes) ^ (b as u64)) as nat) * 0x100000001b3nat)
            % 0x1_0000_0000_0000_0000nat) as u64,
{
    assert(bytes.push(b).drop_last() =~= bytes);
}

/// The digest of a descriptor is the 64-bit FNV-1a hash of all of its UTF-8
/// bytes, in 16 lowercase hexadecimal digits, and two descriptors get the same
/// digest only when their byte strings' hashes are equal.
pub proof fn lemma_digest_is_hash_of_all_bytes(c1: Seq<char>, c2: Seq<char>)
    ensures
        digest_of(c1) == hex_digits(fnv1a(encode_utf8(c1)) as nat, 16),
        digest_of(c1).len() == 16,
        (digest_of(c1) == digest_of(c2)) <==> (fnv1a(encode_utf8(c1)) == fnv1a(encode_utf8(c2))),
{
    lemma_hex_digits_shape(fnv1a(encode_utf8(c1)) as nat, 16);
    lemma_digest_equal_iff_hash_equal(c1, c2);
}

/// Whether `s` holds no `|`, the separator of the descriptor's components.
pub open spec fn has_no_bar(s: Seq<char>) -> bool {
    forall|i: int| 0 <= i < s.len() ==> s[i] != '|'
}

/// If `a + sep + x == b + sep + y`, where `sep` holds `|` only at its start and
/// neither `x` nor `y` holds one, then the two splits are the same.
proof fn lemma_split_at_last_bar(
    a: Seq<char>,
    b: Seq<char>,
    sep: Seq<char>,
    x: Seq<char>,
    y: Seq<char>,
)
    requires
        a + sep + x == b + sep + y,
        sep.len() >= 1,
        sep[0] == '|',
        forall|i: int| 1 <= i < sep.len() ==> sep[i] != '|',
        has_no_bar(x),
        has_no_bar(y),
    ensures
        a == b,
        x == y,
{
    let s = a + sep + x;
    let t = b + sep + y;
    let n = s.len();
    if x.len() < y.len() {
        let i = a.len() as int;
        assert(s[i] == '|');
        let k = i - b.len();
        if k < sep.len() {
            assert(t[i] == sep[k]);
        } else {
            assert(t[i] == y[k - sep.len()]);
        }
        assert(false);
    } else if y.len() < x.len() {
        let i = b.len() as int;
        assert(t[i] == '|');
        let k = i - a.len();
        if k < sep.len() {
            assert(s[i] == sep[k]);
        } else {
            assert(s[i] == x[k - sep.len()]);
        }
        assert(false);
    }
    assert(x =~= s.subrange(n - x.len(), n as int));
    assert(y =~= t.subrange(n - y.len(), n as int));
    assert(a =~= s.subrange(0, a.len() as int));
    assert(b =~= t.subrange(0, b.len() as int));
}

/// Decimal renderings hold no `|`.
proof fn lemma_decimal_has_no_bar(n: nat)
    ensures
        has_no_bar(decimal(n)),
{
    lemma_decimal_shape(n);
    assert forall|i: int| 0 <= i < decimal(n).len() implies decimal(n)[i] != '|' by {
        assert(crate::text::is_decimal_char(decimal(n)[i]));
    }
}

/// Requests with different parameters get different canonical descriptors,
/// provided the units component holds no `|` (the separator of components).
/// Without that proviso two keys can collide: location `a|units:b` with units
/// `c`, and location `a` with units `b|units:c`.
pub proof fn lemma_canonical_injective(k1: &CacheKey, k2: &CacheKey)
    requires
        has_no_bar(k1.units@),
        has_no_bar(k2.units@),
        k1.spec_canonical() == k2.spec_canonical(),
    ensures
        k1.location@ == k2.location@,
        k1.units@ == k2.units@,
        k1.days == k2.days,
        k1.hours == k2.hours,
{
    reveal_strlit("|units:");
    reveal_strlit("|days:");
    reveal_strlit("|hours:");
    let su = "|units:"@;
    let sd = "|days:"@;
    let sh = "|hours:"@;
    let (l1, u1, d1, h1) = (k1.location@, k1.units@, decimal(k1.days as nat), decimal(k1.hours as nat));
    let (l2, u2, d2, h2) = (k2.location@, k2.units@, decimal(k2.days as nat), decimal(k2.hours as nat));
    lemma_decimal_has_no_bar(k1.days as nat);
    lemma_decimal_has_no_bar(k2.days as nat);
    lemma_decimal_has_no_bar(k1.hours as nat);
    lemma_decimal_has_no_bar(k2.hours as nat);
    lemma_split_at_last_bar(l1 + su + u1 + sd + d1, l2 + su + u2 + sd + d2, sh, h1, h2);
    lemma_split_at_last_bar(l1 + su + u1, l2 + su + u2, sd, d1, d2);
    lemma_split_at_last_bar(l1, l2, su, u1, u2);
    lemma_decimal_injective(k1.days as nat, k2.days as nat);
    lemma_decimal_injective(k1.hours as nat, k2.hours as nat);
}

/// Keys with the same fields have the same canonical descriptor and digest.
pub proof fn lemma_same_fields_same_digest(k1: &CacheKey, k2: &CacheKey)
    requires
        k1.location@ == k2.location@,
        k1.units@ == k2.units@,
        k1.days == k2.days,
        k1.hours == k2.hours,
    ensures
        k1.spec_canonical() == k2.spec_canonical(),
        k1.spec_digest() == k2.spec_digest(),
{
}

/// Two descriptors have the same digest exactly when their FNV-1a hashes are
/// equal: the hexadecimal rendering loses nothing.
pub proof fn lemma_digest_equal_iff_hash_equal(c1: Seq<char>, c2: Seq<char>)
    ensures
        (digest_of(c1) == digest_of(c2)) <==> (fnv1a(encode_utf8(c1)) == fnv1a(encode_utf8(c2))),
{
    let h1 = fnv1a(encode_utf8(c1));
    let h2 = fnv1a(encode_utf8(c2));
    assert(pow16(16) == 0x1_0000_0000_0000_0000nat) by {
        reveal_with_fuel(pow16, 17);
    }
    if digest_of(c1) == digest_of(c2) {
        lemma_hex_digits_injective(h1 as nat, h2 as nat, 16);
    }
}

/// 64-bit FNV-1a of `bytes`.
fn fnv1a_hash(bytes: &[u8]) -> (hash: u64)
    ensures
        hash == fnv1a(bytes@),
{
    let mut hash: u64 = FNV_OFFSET_BASIS;
    let mut i: usize = 0;
    while i < bytes.len()
        invariant
            i <= bytes@.len(),
            hash == fnv1a(bytes@.take(i as int)),
        decreases bytes@.len() - i,
    {
        assert(bytes@.take(i + 1).drop_last() == bytes@.take(i as int));
        hash = (hash ^ (bytes[i] as u64)).wrapping_mul(FNV_PRIME);
        i = i + 1;
    }
    assert(bytes@.take(i as int) == bytes@);
    hash
}

} // verus!
