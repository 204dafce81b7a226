use vstd::prelude::*;
use crate::error::{err_str, FirmwareError};
use crate::models::same_text;

verus! {

#[verifier::external_type_specification]
#[verifier::external_body]
pub struct ExJsonError(serde_json::Error);

/// The file entries (file name, content digest) of the manifest that a byte
/// string holds as JSON; `None` where the bytes hold no manifest.
pub uninterp spec fn manifest_entries_of(bytes: Seq<u8>) -> Option<Seq<(Seq<char>, Seq<char>)>>;

/// The name of the archive holding the generic updater.
pub const UPDATER_FILE: &'static str = "system76-firmware-update.tar.xz";

/// A manifest: the content digest of each published file.
pub struct ManifestRecord {
    pub files: Vec<(String, String)>,
}

impl ManifestRecord {
    pub open spec fn entries(&self) -> Seq<(Seq<char>, Seq<char>)> {
        self.files@.map_values(|p: (String, String)| (p.0@, p.1@))
    }
}

/// Relies on `serde_json::from_slice` into buildchain's `Manifest`: whether
/// the bytes decode, and the entries of its `files` map, depend on the bytes
/// alone.
#[verifier::external_body]
fn parse_manifest(bytes: &[u8]) -> (r: Result<Vec<(String, String)>, serde_json::Error>)
    ensures
        r is Ok <==> manifest_entries_of(bytes@) is Some,
        r matches Ok(files) ==> manifest_entries_of(bytes@) == Some(
            files@.map_values(|p: (String, String)| (p.0@, p.1@)),
        ),
{
    match serde_json::from_slice::<buildchain::Manifest>(bytes) {
        Ok(m) => Ok(m.files.into_iter().collect()),
        Err(e) => Err(e),
    }
}

/// Parses the bytes of a manifest; bytes that hold no manifest are an error.
pub fn resolve_manifest(bytes: &[u8]) -> (r: Result<ManifestRecord, FirmwareError>)
    ensures
        match r {
            Ok(m) => manifest_entries_of(bytes@) == Some(m.entries()),
            Err(e) => manifest_entries_of(bytes@) is None && e is MalformedManifest,
        },
{
    match parse_manifest(bytes) {
        Ok(files) => Ok(ManifestRecord { files }),
        Err(e) => Err(FirmwareError::MalformedManifest(err_str(e))),
    }
}

/// `i` is the first entry of `entries` under file name `name`.
pub open spec fn is_first_entry(entries: Seq<(Seq<char>, Seq<char>)>, name: Seq<char>, i: int) -> bool {
    0 <= i < entries.len() && entries[i].0 == name && forall|j: int| 0 <= j < i ==> entries[j].0 != name
}

/// The digest that the manifest gives for file `name`, or `NotFound` naming
/// the file where it lists no such file.
pub fn payload_digest(manifest: &ManifestRecord, name: &str) -> (r: Result<String, FirmwareError>)
    ensures
        match r {
            Ok(d) => exists|i: int| #[trigger] is_first_entry(manifest.entries(), name@, i)
                && d@ == manifest.entries()[i].1,
            Err(e) => (forall|i: int| 0 <= i < manifest.entries().len() ==> (#[trigger] manifest.entries()[i]).0 != name@)
                && (e matches FirmwareError::NotFound(n) && n@ == name@),
        },
{
    let n = manifest.files.len();
    let mut i: usize = 0;
    while i < n
        invariant
            n == manifest.files@.len(),
            i <= n,
            forall|j: int| 0 <= j < i ==> (#[trigger] manifest.entries()[j]).0 != name@,
        decreases n - i,
    {
        if same_text(manifest.files[i].0.as_str(), name) {
            assert(is_first_entry(manifest.entries(), name@, i as int));
            return Ok(manifest.files[i].1.clone());
        }
        i = i + 1;
    }
    Err(FirmwareError::NotFound(String::from_str(name)))
}

/// The name of the archive holding the firmware for the board keyed `id`.
pub fn firmware_file(id: &str) -> (r: String)
    ensures
        r@ == id@ + ".tar.xz"@,
{
    String::from_str(id).concat(".tar.xz")
}

} // verus!
