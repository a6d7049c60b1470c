//! Outbound command shaping. Commands are short ASCII strings written
//! verbatim to the stream; a downstream fixed-size receive buffer caps
//! their length, so an over-long command is cut to the byte budget —
//! truncated, never rounded or reformatted — and trailing characters are
//! silently dropped. Callers that must not lose characters pre-format to
//! fit.

use vstd::prelude::*;
use vstd::string::StrSliceExecFns;

verus! {

/// The command byte budget of the device's fixed-size receive buffer.
pub const MAX_COMMAND_LEN: usize = 9;

/// Cuts a command to `budget` characters: the command unchanged when it
/// fits, else exactly its first `budget` characters. ASCII only, so the
/// character budget is the byte budget.
pub fn truncate_command(command: &str, budget: usize) -> (r: String)
    requires
        command.is_ascii(),
    ensures
        r@ == if command@.len() <= budget {
            command@
        } else {
            command@.subrange(0, budget as int)
        },
{
    let len = command.unicode_len();
    if len <= budget {
        command.to_owned()
    } else {
        command.substring_ascii(0, budget).to_owned()
    }
}

} // verus!
