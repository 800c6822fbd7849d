use vstd::prelude::*;
use vstd::string::StringSliceAdditionalSpecFns;

use crate::error::{AnnoyError, Operation};

verus! {

/// Whether a path can be handed to the native engine: as a C string it may
/// hold no zero byte.
pub open spec fn path_ok(bytes: Seq<u8>) -> bool {
    forall|i: int| 0 <= i < bytes.len() ==> bytes[i] != 0u8
}

/// Checks that `path` can be handed to the native engine for `op`.
pub fn check_path(op: Operation, path: &str) -> (r: Result<(), AnnoyError>)
    ensures
        r == (if path_ok(path.spec_bytes()) {
            Ok(())
        } else {
            Err(AnnoyError::InvalidPath { operation: op })
        }),
{
    let bytes = path.as_bytes();
    let mut i: usize = 0;
    while i < bytes.len()
        invariant
            bytes@ == path.spec_bytes(),
            i <= bytes@.len(),
            forall|j: int| 0 <= j < i ==> bytes@[j] != 0u8,
        decreases bytes@.len() - i,
    {
        if bytes[i] == 0u8 {
            return Err(AnnoyError::InvalidPath { operation: op });
        }
        i = i + 1;
    }
    Ok(())
}

/// What a query hands back once the native engine has filled `scratch` and
/// reported `returned` results: the first `returned` entries, or an error
/// where the engine claims more results than `scratch` can hold.
pub open spec fn negotiated<T>(op: Operation, scratch: Seq<T>, returned: nat) -> Result<Seq<T>, AnnoyError> {
    if returned <= scratch.len() {
        Ok(scratch.take(returned as int))
    } else {
        Err(AnnoyError::TooManyResults { operation: op, capacity: scratch.len() as usize, returned: returned as usize })
    }
}

/// Copies the `returned` results that the native engine wrote to the front
/// of `scratch` into a fresh vector of exactly that length. A count beyond the
/// scratch buffer's length is refused, so no slot past what was written is
/// ever exposed.
pub fn truncate_results<T: Copy>(op: Operation, scratch: &[T], returned: usize) -> (r: Result<Vec<T>, AnnoyError>)
    ensures
        r matches Ok(v) ==> negotiated(op, scratch@, returned as nat) == Ok::<Seq<T>, AnnoyError>(v@),
        r matches Err(e) ==> negotiated(op, scratch@, returned as nat) == Err::<Seq<T>, AnnoyError>(e),
        r is Ok <==> returned <= scratch@.len(),
        r matches Ok(v) ==> v@.len() == returned,
{
    if returned > scratch.len() {
        return Err(AnnoyError::TooManyResults { operation: op, capacity: scratch.len(), returned });
    }
    let mut out: Vec<T> = Vec::with_capacity(returned);
    let mut i: usize = 0;
    while i < returned
        invariant
            returned <= scratch@.len(),
            i <= returned,
            out@ == scratch@.take(i as int),
        decreases returned - i,
    {
        out.push(scratch[i]);
        proof {
            assert(scratch@.take(i as int).push(scratch@[i as int]) =~= scratch@.take(i + 1));
        }
        i = i + 1;
    }
    Ok(out)
}

} // verus!
