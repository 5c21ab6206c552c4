//! Connection-time decisions: validating a display name for use as a
//! null-terminated string, and the screen record read once from the
//! server's setup reply.

use vstd::prelude::*;

use crate::errors::ConnectionError;

verus! {

/// What the bridge reads from the server's setup reply at connect time:
/// the root window identifier and the screen's pixel dimensions. Immutable
/// for the process lifetime in this design.
#[derive(Clone, Copy, PartialEq, Eq, Structural, Debug)]
pub struct Screen {
    pub root: u32,
    pub width: u16,
    pub height: u16,
}

/// Whether `name` can be represented as a null-terminated string: it holds
/// no interior zero byte.
pub open spec fn display_name_representable(name: Seq<u8>) -> bool {
    forall|i: int| 0 <= i < name.len() ==> name[i] != 0
}

/// Validate an explicit display name before the connection attempt. The
/// name is rejected exactly when it contains a zero byte, which has no
/// null-terminated representation.
pub fn validate_display_name(name: &Vec<u8>) -> (r: Result<(), ConnectionError>)
    ensures
        r is Ok <==> display_name_representable(name@),
        r is Err ==> r == Err::<(), ConnectionError>(ConnectionError::InvalidDisplayName),
{
    let mut i: usize = 0;
    while i < name.len()
        invariant
            0 <= i <= name@.len(),
            forall|j: int| 0 <= j < i ==> name@[j] != 0,
        decreases name@.len() - i,
    {
        if name[i] == 0 {
            return Err(ConnectionError::InvalidDisplayName);
        }
        i += 1;
    }
    Ok(())
}

} // verus!
