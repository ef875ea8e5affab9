//! The pure part of the fallback user-session probe. The driver runs
//! the login manager's listing tool and hands its exit status and
//! captured output here; the session bridge in [`crate::bridge`] is the
//! primary way to ask the same question over the control bus.

use vstd::prelude::*;

use crate::text::{char_is_space, is_space_char};

verus! {

/// Whether the listing shows any user session: the tool succeeded and
/// printed something beyond whitespace.
pub fn is_any_user_active(command_succeeded: bool, output: &str) -> (r: bool)
    ensures
        r == (command_succeeded && exists|k: int|
            0 <= k < output@.len() && !(#[trigger] is_space_char(output@[k]))),
{
    if !command_succeeded {
        return false;
    }
    let len = output.unicode_len();
    let mut i: usize = 0;
    while i < len
        invariant
            command_succeeded,
            len == output@.len(),
            0 <= i <= len,
            forall|k: int| 0 <= k < i ==> #[trigger] is_space_char(output@[k]),
        decreases len - i,
    {
        if !char_is_space(output.get_char(i)) {
            proof {
                assert(0 <= i < output@.len() && !is_space_char(output@[i as int]));
            }
            return true;
        }
        i += 1;
    }
    false
}

} // verus!
