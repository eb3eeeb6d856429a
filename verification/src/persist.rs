//! The secure write path: the one externally reachable arbitrary-path
//! write of the subsystem.
//!
//! A write request arrives as a canonical save directory, a canonical
//! destination, and transport-encoded bytes. Containment is validated
//! strictly before anything else; only a request that passes yields
//! bytes to write, together with the `ResolvedPath` evidence. The
//! caller performs the write itself and must write only through that
//! evidence.

use vstd::prelude::*;

use crate::codec::base64_of;
use crate::codec::decode_transport;
use crate::errors::ScreenshotError;
use crate::paths::path_within;
use crate::paths::validate_destination;
use crate::paths::ResolvedPath;

verus! {

/// Validates the destination and decodes the transport-encoded bytes,
/// in that order. A destination outside the save directory is a
/// `PathEscape` — the data is not even decoded; a contained destination
/// with malformed data is a `DecodeFailed`; otherwise the resolved
/// destination and the exact decoded bytes are returned for the caller
/// to persist.
pub fn prepare_image_write(
    save_dir_canonical: &str,
    target_canonical: &str,
    data_base64: &str,
) -> (r: Result<(ResolvedPath, Vec<u8>), ScreenshotError>)
    ensures
        !path_within(save_dir_canonical@, target_canonical@) ==> (r matches Err(e) && (e matches
            ScreenshotError::PathEscape { target, save_dir } && target@ == target_canonical@
            && save_dir@ == save_dir_canonical@)),
        r matches Ok(p) ==> {
            &&& path_within(save_dir_canonical@, target_canonical@)
            &&& p.0.wf()
            &&& p.0.path@ == target_canonical@
            &&& p.0.save_dir@ == save_dir_canonical@
            &&& data_base64@ == base64_of(p.1@)
        },
        forall|b: Seq<u8>|
            (path_within(save_dir_canonical@, target_canonical@) && data_base64@ == base64_of(b))
                ==> (r matches Ok(p) && p.1@ == b),
        (path_within(save_dir_canonical@, target_canonical@) && (forall|b: Seq<u8>|
            data_base64@ != base64_of(b))) ==> r == Err::<(ResolvedPath, Vec<u8>), ScreenshotError>(
            ScreenshotError::DecodeFailed,
        ),
{
    let resolved = match validate_destination(save_dir_canonical, target_canonical) {
        Ok(rp) => rp,
        Err(e) => {
            return Err(e);
        },
    };
    match decode_transport(data_base64) {
        Ok(bytes) => Ok((resolved, bytes)),
        Err(e) => Err(e),
    }
}

} // verus!
