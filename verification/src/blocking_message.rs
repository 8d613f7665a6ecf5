//! The message shown to the user while the block is in place.

use vstd::prelude::*;
use vstd::string::*;

verus! {

/// The text of the message: the blocked duration, and the task when one
/// was named.
pub open spec fn blocking_message_spec(time: Seq<char>, task: Option<Seq<char>>) -> Seq<char> {
    match task {
        Some(t) => "Blocked websites for "@ + time + " for task: "@ + t,
        None => "Blocked websites for "@ + time,
    }
}

/// Builds the message informing the user what is blocked, for how long,
/// and for which task, exactly as [`blocking_message_spec`] describes.
pub fn generate_blocking_message(user_input_time: &String, task: Option<&String>) -> (r: String)
    ensures
        r@ == blocking_message_spec(
            user_input_time@,
            match task {
                Some(t) => Some(t@),
                None => None,
            },
        ),
{
    let mut message = String::from_str("Blocked websites for ");
    message.append(user_input_time.as_str());
    match task {
        Some(t) => {
            message.append(" for task: ");
            message.append(t.as_str());
            proof {
                assert(message@ =~= "Blocked websites for "@ + user_input_time@ + " for task: "@
                    + t@);
            }
        },
        None => {},
    }
    message
}

} // verus!
