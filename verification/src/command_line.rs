use vstd::prelude::*;
use vstd::string::StringExecFns;

verus! {

/// The kind of console report a driver should make for an agent statement;
/// each kind is rendered in its own color by the unverified console layer.
#[derive(Debug, Clone, Copy, PartialEq, Eq, Structural)]
pub enum PrintCommand {
    AICall,
    UnitTest,
    Issue,
}

/// Whether a trimmed, lowercased console reply approves running generated
/// code: `Some(true)` for an approval, `Some(false)` for a refusal, `None`
/// where the reply is not recognized and must be asked again.
pub open spec fn spec_confirmation(reply: Seq<char>) -> Option<bool> {
    if reply == "1"@ || reply == "ok"@ || reply == "y"@ {
        Some(true)
    } else if reply == "2"@ || reply == "no"@ || reply == "n"@ {
        Some(false)
    } else {
        None
    }
}

/// Interprets a human reply to the run-generated-code confirmation gate.  The
/// caller hands the reply already trimmed and lowercased.
pub fn interpret_confirmation(reply: &str) -> (r: Option<bool>)
    ensures
        r == spec_confirmation(reply@),
{
    let reply_string = reply.to_owned();
    if reply_string == String::from_str("1") || reply_string == String::from_str("ok")
        || reply_string == String::from_str("y") {
        Some(true)
    } else if reply_string == String::from_str("2") || reply_string == String::from_str("no")
        || reply_string == String::from_str("n") {
        Some(false)
    } else {
        None
    }
}

} // verus!
