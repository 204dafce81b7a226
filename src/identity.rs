use sha2::Digest;
use vstd::prelude::*;
use vstd::string::StringSliceAdditionalSpecFns;

verus! {

/// The lowercase hexadecimal SHA-256 digest of a byte string.
pub uninterp spec fn sha256_hex(data: Seq<u8>) -> Seq<char>;

/// Relies on sha2's `Sha256::digest` for the 32-byte digest, rendered by
/// generic-array's `LowerHex` (two lowercase hex digits per byte).
#[verifier::external_body]
fn sha256(data: &[u8]) -> (r: String)
    ensures
        r@ == sha256_hex(data@),
        r@.len() == 64,
{
    format!("{:x}", sha2::Sha256::digest(data))
}

/// The key that selects a board's firmware payload: the board model, an
/// underscore, and the hash of the embedded controller's project name (the
/// empty name where the board has no embedded controller).
pub open spec fn firmware_id_spec(model: Seq<char>, ec_project: Seq<u8>) -> Seq<char> {
    model + seq!['_'] + sha256_hex(ec_project)
}

pub fn firmware_id(bios_model: &str, ec_project: &str) -> (r: String)
    ensures
        r@ == firmware_id_spec(bios_model@, ec_project.spec_bytes()),
{
    let hash = sha256(ec_project.as_bytes());
    proof {
        reveal_strlit("_");
    }
    String::from_str(bios_model).concat("_").concat(hash.as_str())
}

/// The firmware key is the model, then `_`, then a 64-digit hash that depends
/// on the embedded controller's project name alone; so the key is defined for
/// every project name, the empty one included.
pub proof fn lemma_firmware_id_parts(model: Seq<char>, ec_project: Seq<u8>, hash: Seq<char>)
    requires
        hash == sha256_hex(ec_project),
        hash.len() == 64,
    ensures
        firmware_id_spec(model, ec_project).len() == model.len() + 65,
        firmware_id_spec(model, ec_project).subrange(0, model.len() as int) == model,
        firmware_id_spec(model, ec_project)[model.len() as int] == '_',
        firmware_id_spec(model, ec_project).subrange(model.len() + 1 as int, model.len() + 65 as int) == hash,
{
    let id = firmware_id_spec(model, ec_project);
    assert(id.subrange(0, model.len() as int) =~= model);
    assert(id.subrange(model.len() + 1 as int, model.len() + 65 as int) =~= hash);
}

} // verus!
