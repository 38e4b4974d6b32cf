//! What the console boundary decides: the kinds of status message an agent
//! can emit, the text of such a message, and the reading of the operator's
//! answer at the safety gate. Printing itself and the blocking reads stay
//! outside the library.

use vstd::prelude::*;

use crate::general::str_eq;

verus! {

/// The kind of a status message; the console renders each kind differently.
#[derive(Debug, PartialEq, Eq, Structural, Clone, Copy)]
pub enum PrintCommand {
    AICall,
    UnitTest,
    Issue,
}

/// The text of an agent's status message.
pub open spec fn agent_message_line(position: Seq<char>, statement: Seq<char>) -> Seq<char> {
    "Agent: "@ + position + ": "@ + statement
}

impl PrintCommand {
    /// The line the console prints for an agent's statement.
    pub fn agent_message_text(&self, agent_position: &str, agent_statement: &str) -> (r: String)
        ensures
            r@ == agent_message_line(agent_position@, agent_statement@),
    {
        let mut r = String::from_str("Agent: ");
        r.append(agent_position);
        r.append(": ");
        r.append(agent_statement);
        r
    }
}

/// The operator accepted the safety gate.
pub open spec fn accept_token(t: Seq<char>) -> bool {
    t == "1"@ || t == "ok"@ || t == "y"@ || t == "yes"@
}

/// The operator declined the safety gate.
pub open spec fn decline_token(t: Seq<char>) -> bool {
    t == "2"@ || t == "no"@ || t == "quit"@ || t == "stop"@ || t == "n"@
}

/// Reads the operator's trimmed, lowercased answer to the safety gate:
/// `Some(true)` on an accepting token, `Some(false)` on a declining one, and
/// `None` on anything else, which asks the console to prompt again.
pub fn classify_confirmation(token: &str) -> (r: Option<bool>)
    ensures
        (r == Some(true)) == accept_token(token@),
        (r == Some(false)) == (decline_token(token@) && !accept_token(token@)),
        (r is None) == (!accept_token(token@) && !decline_token(token@)),
{
    if str_eq(token, "1") || str_eq(token, "ok") || str_eq(token, "y") || str_eq(token, "yes") {
        Some(true)
    } else if str_eq(token, "2") || str_eq(token, "no") || str_eq(token, "quit") || str_eq(
        token,
        "stop",
    ) || str_eq(token, "n") {
        Some(false)
    } else {
        None
    }
}

} // verus!
