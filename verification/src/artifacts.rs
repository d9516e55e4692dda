//! Artifact provenance: selecting the lexicographically-latest JSON
//! artifact file of a category, and recording a (path, content-hash)
//! reference for it. The digest itself comes from the `sha2` crate and
//! is only named, never restated.

use vstd::prelude::*;
use vstd::string::StrSliceExecFns;
use vstd::string::StringExecFns;
use sha2::Digest;
use crate::strutil::lex_le;
use crate::strutil::str_eq;
use crate::strutil::str_lex_le;
use crate::strutil::lemma_lex_le_total;
use crate::strutil::lemma_lex_le_trans;

verus! {

/// The lowercase hexadecimal SHA-256 digest of a byte sequence, as the
/// `sha2` crate computes it. The digest is a function of the bytes
/// alone; nothing more is assumed of it.
pub uninterp spec fn sha256_hex_of(data: Seq<u8>) -> Seq<char>;

/// Relies on sha2's `Sha256` (update with the whole input, then
/// finalize) and on the lower-hex formatting of the 32-byte digest,
/// which renders exactly two hex characters per byte.
#[verifier::external_body]
pub(crate) fn sha256_hex(data: &[u8]) -> (r: String)
    ensures
        r@ == sha256_hex_of(data@),
        r@.len() == 64,
{
    let mut hasher = sha2::Sha256::new();
    hasher.update(data);
    format!("{:x}", hasher.finalize())
}

/// A recorded provenance reference: the artifact's path and the digest
/// of its content.
pub struct ArtifactRef {
    pub path: String,
    pub hash: String,
}

/// The mathematical value of an [`ArtifactRef`].
pub struct ArtifactRefV {
    pub path: Seq<char>,
    pub hash: Seq<char>,
}

impl View for ArtifactRef {
    type V = ArtifactRefV;

    open spec fn view(&self) -> ArtifactRefV {
        ArtifactRefV { path: self.path@, hash: self.hash@ }
    }
}

impl DeepView for ArtifactRef {
    type V = ArtifactRefV;

    open spec fn deep_view(&self) -> ArtifactRefV {
        self.view()
    }
}

/// Builds the provenance reference for an artifact whose content is
/// `data`.
pub fn artifact_reference(path: String, data: &[u8]) -> (r: ArtifactRef)
    ensures
        r.path@ == path@,
        r.hash@ == sha256_hex_of(data@),
{
    let hash = sha256_hex(data);
    ArtifactRef { path, hash }
}

/// The artifact categories recorded per message, in recording order.
pub fn artifact_categories() -> (r: Vec<String>)
    ensures
        r.deep_view() == seq!["raw"@, "features"@, "signals"@, "news"@, "calibration"@],
{
    let mut v: Vec<String> = Vec::new();
    v.push(String::from_str("raw"));
    v.push(String::from_str("features"));
    v.push(String::from_str("signals"));
    v.push(String::from_str("news"));
    v.push(String::from_str("calibration"));
    proof {
        assert(v.deep_view() =~= seq!["raw"@, "features"@, "signals"@, "news"@, "calibration"@]);
    }
    v
}

/// The name has a non-empty stem followed by the `.json` extension.
pub open spec fn has_json_ext(s: Seq<char>) -> bool {
    s.len() > 5 && s.subrange(s.len() - 5, s.len() as int) == ".json"@
}

/// Decides whether a file name carries the `.json` extension.
pub fn is_json_name(s: &str) -> (r: bool)
    ensures
        r == has_json_ext(s@),
{
    let len = s.unicode_len();
    if len <= 5 {
        false
    } else {
        str_eq(s.substring_char(len - 5, len), ".json")
    }
}

/// Selects the lexicographically-greatest `.json` file name. Returns
/// `None` exactly when no name carries the extension; the selected
/// name is one of the inputs, carries the extension, and is an upper
/// bound of every `.json` name in the list.
pub fn latest_json_name(names: &Vec<String>) -> (r: Option<String>)
    ensures
        r is Some <==> exists|i: int|
            0 <= i < names.deep_view().len() && has_json_ext(#[trigger] names.deep_view()[i]),
        r is Some ==> has_json_ext(r->0@) && (exists|i: int|
            0 <= i < names.deep_view().len() && #[trigger] names.deep_view()[i] == r->0@)
            && (forall|j: int|
            0 <= j < names.deep_view().len() && has_json_ext(#[trigger] names.deep_view()[j])
                ==> lex_le(names.deep_view()[j], r->0@)),
{
    let ghost dv = names.deep_view();
    proof {
        assert forall|k: int| 0 <= k < dv.len() implies dv[k] == names@[k]@ by {}
    }
    let mut best: Option<usize> = None;
    let mut i: usize = 0;
    while i < names.len()
        invariant
            dv == names.deep_view(),
            dv.len() == names.len(),
            forall|k: int| 0 <= k < dv.len() ==> #[trigger] dv[k] == names@[k]@,
            i <= names.len(),
            best is None ==> forall|j: int| 0 <= j < i ==> !has_json_ext(#[trigger] dv[j]),
            best is Some ==> best->0 < i && has_json_ext(dv[best->0 as int]) && (forall|j: int|
                0 <= j < i && has_json_ext(#[trigger] dv[j]) ==> lex_le(dv[j], dv[best->0 as int])),
        decreases names.len() - i,
    {
        if is_json_name(names[i].as_str()) {
            match best {
                None => {
                    proof {
                        lemma_lex_le_total(dv[i as int], dv[i as int]);
                    }
                    best = Some(i);
                },
                Some(b) => {
                    if str_lex_le(names[b].as_str(), names[i].as_str()) {
                        proof {
                            assert forall|j: int|
                                0 <= j < i + 1 && has_json_ext(#[trigger] dv[j]) implies lex_le(
                                dv[j],
                                dv[i as int],
                            ) by {
                                if j < i {
                                    lemma_lex_le_trans(dv[j], dv[b as int], dv[i as int]);
                                } else {
                                    lemma_lex_le_total(dv[i as int], dv[i as int]);
                                }
                            }
                        }
                        best = Some(i);
                    } else {
                        proof {
                            lemma_lex_le_total(dv[b as int], dv[i as int]);
                        }
                    }
                },
            }
        }
        i += 1;
    }
    match best {
        None => None,
        Some(b) => Some(names[b].clone()),
    }
}

} // verus!
