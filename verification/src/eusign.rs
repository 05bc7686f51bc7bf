//! Identity documents received from the Diia sharing service, and the
//! certification-authority settings of the signing library.
use vstd::prelude::*;
use vstd::string::{StrSliceExecFns, StringSliceAdditionalSpecFns};
use crate::text::{ParseIntError, parse_u64, parse_u64_spec};

verus! {

/// A taxpayer card as shared by Diia.
#[derive(Debug)]
pub struct TaxpayerCard {
    pub creation_date: String,
    pub doc_number: String,
    pub last_name_ua: String,
    pub first_name_ua: String,
    pub middle_name_ua: String,
    pub birthday: String,
    pub file_name: String,
}

/// An internal passport as shared by Diia.
#[derive(Debug)]
pub struct InternalPassport {
    pub taxpayer_number: String,
    pub residence_ua: String,
    pub doc_number: String,
    pub gender_ua: String,
    pub nationality_ua: String,
    pub last_name_ua: String,
    pub first_name_ua: String,
    pub middle_name_ua: String,
    pub birthday: String,
    pub birth_place_ua: String,
    pub issue_date: String,
    pub expiration_date: String,
    pub record_number: String,
    pub department: String,
    pub gender_en: String,
    pub id: String,
    pub last_name_en: String,
    pub first_name_en: String,
    pub file_name: String,
}

/// The documents kept for one user.
#[derive(Debug)]
pub struct DocumentUnit {
    pub taxpayer_card: TaxpayerCard,
    pub internal_passport: InternalPassport,
}

/// The documents of a decrypted sharing package.
#[derive(Debug)]
pub struct DocumentData {
    pub taxpayer_card: Vec<TaxpayerCard>,
    pub internal_passport: Vec<InternalPassport>,
}

/// A decrypted sharing package.
#[derive(Debug)]
pub struct DecryptionResult {
    pub request_id: String,
    pub document_types: Vec<String>,
    pub data: DocumentData,
}

/// Access settings of one certification authority.
#[derive(Debug)]
pub struct CASettings {
    pub issuer_cns: Vec<String>,
    pub address: String,
    pub ocsp_access_point_address: String,
    pub ocsp_access_point_port: String,
    pub cmp_address: String,
    pub tsp_address: String,
    pub tsp_address_port: String,
    pub certs_in_key: Option<bool>,
    pub direct_access: Option<bool>,
    pub qscd_sn_in_cert: Option<bool>,
    pub cmp_compatibility: Option<i32>,
    pub code_edrpou: String,
}

/// The OCSP access point of each issuer of one authority, as
/// (issuer common name, address, port).
pub open spec fn ocsp_entries(ca: CASettings) -> Seq<(Seq<char>, Seq<char>, Seq<char>)> {
    Seq::new(
        ca.issuer_cns@.len(),
        |j: int| (ca.issuer_cns@[j]@, ca.ocsp_access_point_address@, ca.ocsp_access_point_port@),
    )
}

/// The OCSP access points of all authorities, authority by authority and,
/// within one, issuer by issuer.
pub open spec fn ocsp_access_list(cas: Seq<CASettings>) -> Seq<(Seq<char>, Seq<char>, Seq<char>)>
    decreases cas.len(),
{
    if cas.len() == 0 {
        Seq::empty()
    } else {
        ocsp_access_list(cas.drop_last()) + ocsp_entries(cas.last())
    }
}

/// The view of a list of text triples.
pub open spec fn triples_view(v: Seq<(String, String, String)>) -> Seq<(Seq<char>, Seq<char>, Seq<char>)> {
    Seq::new(v.len(), |i: int| (v[i].0@, v[i].1@, v[i].2@))
}

/// The OCSP access settings that the signing library gets at start-up, one
/// per issuer of each certification authority, in order.
pub fn ocsp_access_points(cas: &Vec<CASettings>) -> (r: Vec<(String, String, String)>)
    ensures
        triples_view(r@) == ocsp_access_list(cas@),
{
    let mut out: Vec<(String, String, String)> = Vec::new();
    let mut i: usize = 0;
    assert(cas@.take(0) =~= Seq::<CASettings>::empty());
    assert(triples_view(out@) =~= Seq::<(Seq<char>, Seq<char>, Seq<char>)>::empty());
    while i < cas.len()
        invariant
            i <= cas@.len(),
            triples_view(out@) == ocsp_access_list(cas@.take(i as int)),
        decreases cas@.len() - i,
    {
        let ca = &cas[i];
        let ghost before = triples_view(out@);
        let mut j: usize = 0;
        assert(before + ocsp_entries(*ca).take(0) =~= before);
        while j < ca.issuer_cns.len()
            invariant
                j <= ca.issuer_cns@.len(),
                triples_view(out@) == before + ocsp_entries(*ca).take(j as int),
            decreases ca.issuer_cns@.len() - j,
        {
            let ghost prev = out@;
            let entry = (
                ca.issuer_cns[j].clone(),
                ca.ocsp_access_point_address.clone(),
                ca.ocsp_access_point_port.clone(),
            );
            assert(entry.0@ == ca.issuer_cns@[j as int]@);
            out.push(entry);
            assert(triples_view(out@) =~= triples_view(prev).push(ocsp_entries(*ca)[j as int]));
            assert(ocsp_entries(*ca).take(j + 1) =~= ocsp_entries(*ca).take(j as int).push(
                ocsp_entries(*ca)[j as int],
            ));
            assert(triples_view(out@) =~= before + ocsp_entries(*ca).take(j + 1));
            j = j + 1;
        }
        assert(ocsp_entries(*ca).take(j as int) =~= ocsp_entries(*ca));
        assert(cas@.take(i + 1).drop_last() =~= cas@.take(i as int));
        i = i + 1;
    }
    assert(cas@.take(i as int) =~= cas@);
    out
}

/// `word` stands somewhere in `text`.
pub open spec fn contains_text(text: Seq<char>, word: Seq<char>) -> bool {
    exists|i: int| 0 <= i && i + word.len() <= text.len() && #[trigger] text.subrange(i, i + word.len()) == word
}

/// A flag of the authority list, given as text: set when the text contains
/// `true`.
pub fn flag_from_text(text: &str) -> (r: bool)
    ensures
        r == contains_text(text@, "true"@),
{
    proof {
        reveal_strlit("true");
    }
    let n = text.unicode_len();
    if n < 4 {
        proof {
            assert forall|i: int| 0 <= i && i + 4 <= text@.len() implies #[trigger] text@.subrange(i, i + 4) != "true"@ by {}
        }
        return false;
    }
    let mut i: usize = 0;
    while i <= n - 4
        invariant
            n == text@.len(),
            4 <= n,
            i <= n - 3,
            forall|l: int| 0 <= l < i ==> #[trigger] text@.subrange(l, l + 4) != "true"@,
        decreases n - i,
    {
        proof {
            reveal_strlit("true");
        }
        let c0 = text.get_char(i);
        let c1 = text.get_char(i + 1);
        let c2 = text.get_char(i + 2);
        let c3 = text.get_char(i + 3);
        let ghost w = text@.subrange(i as int, i + 4);
        assert(w[0] == c0 && w[1] == c1 && w[2] == c2 && w[3] == c3);
        if c0 == 't' && c1 == 'r' && c2 == 'u' && c3 == 'e' {
            assert(w =~= "true"@);
            return true;
        }
        assert(w != "true"@) by {
            if w == "true"@ {
                assert(w[0] == 't' && w[1] == 'r' && w[2] == 'u' && w[3] == 'e');
            }
        }
        i = i + 1;
    }
    false
}

/// The compatibility number of the authority list, given as decimal digits:
/// the number when `u64::from_str` reads it and it fits an `i32`.
pub open spec fn compatibility_spec(text: Seq<u8>) -> Result<i32, ParseIntError> {
    match parse_u64_spec(text) {
        Ok(n) => if n <= 0x7fff_ffff {
            Ok(n as i32)
        } else {
            Err(ParseIntError::PosOverflow)
        },
        Err(e) => Err(e),
    }
}

/// Reads the compatibility number of the authority list from its digits.
pub fn compatibility_from_text(text: &str) -> (r: Result<i32, ParseIntError>)
    ensures
        r == compatibility_spec(text.spec_bytes()),
{
    match parse_u64(text) {
        Ok(n) => if n <= 0x7fff_ffff {
            Ok(n as i32)
        } else {
            Err(ParseIntError::PosOverflow)
        },
        Err(e) => Err(e),
    }
}

} // verus!
