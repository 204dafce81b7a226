use vstd::prelude::*;
use crate::error::FirmwareError;

verus! {

/// The fixed set of board models that firmware updates are published for.
/// Membership is exact and case-sensitive.
pub open spec fn is_supported_model(m: Seq<char>) -> bool {
    m == "addw1"@ || m == "bonw11"@ || m == "bonw12"@ || m == "bonw13"@
    || m == "darp5"@ || m == "galp2"@ || m == "galp3"@ || m == "galp3-b"@
    || m == "galp3-c"@ || m == "gaze10"@ || m == "gaze11"@ || m == "gaze12"@
    || m == "gaze13"@ || m == "gaze14"@ || m == "kudu2"@ || m == "kudu3"@
    || m == "kudu4"@ || m == "kudu5"@ || m == "lemu6"@ || m == "lemu7"@
    || m == "lemu8"@ || m == "meer4"@ || m == "orxp1"@ || m == "oryp2"@
    || m == "oryp2-ess"@ || m == "oryp3"@ || m == "oryp3-b"@ || m == "oryp3-ess"@
    || m == "oryp4"@ || m == "oryp4-b"@ || m == "oryp5"@ || m == "serw9"@
    || m == "serw10"@ || m == "serw11"@ || m == "serw11-b"@ || m == "thelio-b1"@
    || m == "thelio-major-b1"@ || m == "thelio-major-b1.1"@ || m == "thelio-major-b2"@
    || m == "thelio-major-r1"@ || m == "thelio-r1"@
}

/// Character-wise equality of two strings.
pub(crate) fn same_text(a: &str, b: &str) -> (r: bool)
    ensures
        r == (a@ == b@),
{
    let n = a.unicode_len();
    if n != b.unicode_len() {
        return false;
    }
    let mut i: usize = 0;
    while i < n
        invariant
            n == a@.len(),
            n == b@.len(),
            i <= n,
            forall|j: int| 0 <= j < i ==> a@[j] == b@[j],
        decreases n - i,
    {
        if a.get_char(i) != b.get_char(i) {
            return false;
        }
        i = i + 1;
    }
    assert(a@ =~= b@);
    true
}

/// Whether firmware updates are published for this board model.
pub fn model_is_whitelisted(model: &str) -> (r: bool)
    ensures
        r == is_supported_model(model@),
{
    same_text(model, "addw1") || same_text(model, "bonw11") || same_text(model, "bonw12")
    || same_text(model, "bonw13") || same_text(model, "darp5") || same_text(model, "galp2")
    || same_text(model, "galp3") || same_text(model, "galp3-b") || same_text(model, "galp3-c")
    || same_text(model, "gaze10") || same_text(model, "gaze11") || same_text(model, "gaze12")
    || same_text(model, "gaze13") || same_text(model, "gaze14") || same_text(model, "kudu2")
    || same_text(model, "kudu3") || same_text(model, "kudu4") || same_text(model, "kudu5")
    || same_text(model, "lemu6") || same_text(model, "lemu7") || same_text(model, "lemu8")
    || same_text(model, "meer4") || same_text(model, "orxp1") || same_text(model, "oryp2")
    || same_text(model, "oryp2-ess") || same_text(model, "oryp3") || same_text(model, "oryp3-b")
    || same_text(model, "oryp3-ess") || same_text(model, "oryp4") || same_text(model, "oryp4-b")
    || same_text(model, "oryp5") || same_text(model, "serw9") || same_text(model, "serw10")
    || same_text(model, "serw11") || same_text(model, "serw11-b") || same_text(model, "thelio-b1")
    || same_text(model, "thelio-major-b1") || same_text(model, "thelio-major-b1.1")
    || same_text(model, "thelio-major-b2") || same_text(model, "thelio-major-r1")
    || same_text(model, "thelio-r1")
}

/// Refuses a board model that no firmware is published for, with an error
/// that names it.
pub fn check_model(model: &str) -> (r: Result<(), FirmwareError>)
    ensures
        r is Ok <==> is_supported_model(model@),
        r matches Err(e) ==> (e matches FirmwareError::UnsupportedHardware(m) && m@ == model@),
{
    if model_is_whitelisted(model) {
        Ok(())
    } else {
        Err(FirmwareError::UnsupportedHardware(String::from_str(model)))
    }
}

} // verus!
