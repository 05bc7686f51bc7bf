//! Object-storage keys of the agreement files. A user or housing id is a
//! UUID, held as its 128-bit value.
use vstd::prelude::*;
use vstd::string::StringExecFns;

verus! {

/// A lowercase hexadecimal digit.
pub open spec fn hex_digit(d: nat) -> char {
    if d < 10 {
        (48 + d) as char
    } else {
        (87 + d) as char
    }
}

/// The `n` lowest hexadecimal digits of `v`, most significant first.
pub open spec fn hex_digits(v: nat, n: nat) -> Seq<char>
    decreases n,
{
    if n == 0 {
        Seq::empty()
    } else {
        hex_digits(v / 16, (n - 1) as nat).push(hex_digit(v % 16))
    }
}

/// The hyphenated lowercase text of a UUID: 32 hex digits of its value,
/// big-endian, grouped 8-4-4-4-12.
pub open spec fn uuid_text(v: u128) -> Seq<char> {
    let h = hex_digits(v as nat, 32);
    h.subrange(0, 8) + "-"@ + h.subrange(8, 12) + "-"@ + h.subrange(12, 16) + "-"@ + h.subrange(
        16,
        20,
    ) + "-"@ + h.subrange(20, 32)
}

/// Formats `uuid::Uuid::from_u128(v)` with its `Display` implementation.
/// Trusted: the uuid crate documents `from_u128` as taking the value in
/// big-endian order and `Display` as the lowercase hyphenated form.
#[verifier::external_body]
fn uuid_string(v: u128) -> (r: String)
    ensures
        r@ == uuid_text(v),
{
    uuid::Uuid::from_u128(v).to_string()
}

/// The key of the agreement PDF of a tenant, a landlord and a housing.
pub open spec fn key_text(tenant_id: u128, landlord_id: u128, housing_id: u128) -> Seq<char> {
    uuid_text(tenant_id) + "_"@ + uuid_text(landlord_id) + "_"@ + uuid_text(housing_id)
}

/// `<tenant>_<landlord>_<housing>`.
pub fn get_key_for_s3(tenant_id: u128, landlord_id: u128, housing_id: u128) -> (r: String)
    ensures
        r@ == key_text(tenant_id, landlord_id, housing_id),
{
    let mut s = uuid_string(tenant_id);
    s.append("_");
    s.append(uuid_string(landlord_id).as_str());
    s.append("_");
    s.append(uuid_string(housing_id).as_str());
    s
}

/// `<tenant>_<landlord>_<housing>_signed`.
pub fn get_signature_key_for_s3(tenant_id: u128, landlord_id: u128, housing_id: u128) -> (r: String)
    ensures
        r@ == key_text(tenant_id, landlord_id, housing_id) + "_signed"@,
{
    let mut s = get_key_for_s3(tenant_id, landlord_id, housing_id);
    s.append("_signed");
    s
}

/// 16 to the power `n`.
pub open spec fn pow16(n: nat) -> nat
    decreases n,
{
    if n == 0 {
        1
    } else {
        16 * pow16((n - 1) as nat)
    }
}

proof fn lemma_hex_digits_len(v: nat, n: nat)
    ensures
        hex_digits(v, n).len() == n,
    decreases n,
{
    if n > 0 {
        lemma_hex_digits_len(v / 16, (n - 1) as nat);
    }
}

proof fn lemma_hex_digits_injective(v: nat, w: nat, n: nat)
    requires
        v < pow16(n),
        w < pow16(n),
        hex_digits(v, n) == hex_digits(w, n),
    ensures
        v == w,
    decreases n,
{
    if n > 0 {
        let p = pow16((n - 1) as nat);
        lemma_hex_digits_len(v / 16, (n - 1) as nat);
        lemma_hex_digits_len(w / 16, (n - 1) as nat);
        assert(hex_digits(v, n).drop_last() =~= hex_digits(v / 16, (n - 1) as nat));
        assert(hex_digits(w, n).drop_last() =~= hex_digits(w / 16, (n - 1) as nat));
        assert(hex_digits(v, n).last() == hex_digit(v % 16));
        assert(hex_digits(w, n).last() == hex_digit(w % 16));
        lemma_hex_digit_injective(v % 16, w % 16);
        assert(v / 16 < p) by (nonlinear_arith)
            requires
                v < 16 * p,
        ;
        assert(w / 16 < p) by (nonlinear_arith)
            requires
                w < 16 * p,
        ;
        lemma_hex_digits_injective(v / 16, w / 16, (n - 1) as nat);
        assert(v == 16 * (v / 16) + v % 16) by (nonlinear_arith);
        assert(w == 16 * (w / 16) + w % 16) by (nonlinear_arith);
    } else {
        assert(v == 0 && w == 0);
    }
}

proof fn lemma_hex_digit_injective(a: nat, b: nat)
    requires
        a < 16,
        b < 16,
        hex_digit(a) == hex_digit(b),
    ensures
        a == b,
{
    assert((hex_digit(a) as int) == (if a < 10 { 48 + a } else { 87 + a }));
    assert((hex_digit(b) as int) == (if b < 10 { 48 + b } else { 87 + b }));
}

proof fn lemma_uuid_hex(v: u128)
    ensures
        hex_digits(v as nat, 32) == ({
            let u = uuid_text(v);
            u.subrange(0, 8) + u.subrange(9, 13) + u.subrange(14, 18) + u.subrange(19, 23)
                + u.subrange(24, 36)
        }),
{
    reveal_strlit("-");
    lemma_hex_digits_len(v as nat, 32);
    let u = uuid_text(v);
    assert(hex_digits(v as nat, 32) =~= u.subrange(0, 8) + u.subrange(9, 13) + u.subrange(14, 18)
        + u.subrange(19, 23) + u.subrange(24, 36));
}

proof fn lemma_uuid_text_injective(a: u128, b: u128)
    requires
        uuid_text(a) == uuid_text(b),
    ensures
        a == b,
{
    lemma_uuid_hex(a);
    lemma_uuid_hex(b);
    assert(pow16(32) == 340282366920938463463374607431768211456nat) by {
        reveal_with_fuel(pow16, 33);
    }
    lemma_hex_digits_injective(a as nat, b as nat, 32);
}

proof fn lemma_uuid_text_len(v: u128)
    ensures
        uuid_text(v).len() == 36,
{
    reveal_strlit("-");
    lemma_hex_digits_len(v as nat, 32);
}

/// Different agreements never share a storage key: the key determines the
/// tenant, the landlord and the housing, and the key of the signed file is
/// the key of the PDF followed by `_signed`.
pub proof fn law_keys_identify_agreements(
    t1: u128,
    l1: u128,
    h1: u128,
    t2: u128,
    l2: u128,
    h2: u128,
)
    ensures
        key_text(t1, l1, h1) == key_text(t2, l2, h2) ==> t1 == t2 && l1 == l2 && h1 == h2,
        key_text(t1, l1, h1).len() == 110,
        (key_text(t1, l1, h1) + "_signed"@).subrange(0, 110) == key_text(t1, l1, h1),
{
    reveal_strlit("_");
    reveal_strlit("_signed");
    lemma_uuid_text_len(t1);
    lemma_uuid_text_len(l1);
    lemma_uuid_text_len(h1);
    lemma_uuid_text_len(t2);
    lemma_uuid_text_len(l2);
    lemma_uuid_text_len(h2);
    let k1 = key_text(t1, l1, h1);
    let k2 = key_text(t2, l2, h2);
    assert(k1.subrange(0, 36) =~= uuid_text(t1));
    assert(k1.subrange(37, 73) =~= uuid_text(l1));
    assert(k1.subrange(74, 110) =~= uuid_text(h1));
    assert(k2.subrange(0, 36) =~= uuid_text(t2));
    assert(k2.subrange(37, 73) =~= uuid_text(l2));
    assert(k2.subrange(74, 110) =~= uuid_text(h2));
    if k1 == k2 {
        lemma_uuid_text_injective(t1, t2);
        lemma_uuid_text_injective(l1, l2);
        lemma_uuid_text_injective(h1, h2);
    }
    assert((k1 + "_signed"@).subrange(0, 110) =~= k1);
}

} // verus!
