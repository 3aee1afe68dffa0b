//! Naming of the temporary sibling file a download is streamed into.

use vstd::prelude::*;
use vstd::string::StringExecFns;

verus! {

/// The temporary sibling of `dest`: `dest` with `.part` appended after any
/// existing extension, so `report.csv` becomes `report.csv.part` and `README`
/// becomes `README.part`.
pub open spec fn temp_path_spec(dest: Seq<char>) -> Seq<char> {
    dest + ".part"@
}

/// Compute the path of the temporary file a download is streamed into before
/// it is published to `dest` by an atomic rename.
pub fn temp_path_for(dest: &str) -> (r: String)
    ensures
        r@ == temp_path_spec(dest@),
{
    let mut r: String = dest.to_owned();
    r.append(".part");
    r
}

} // verus!
