//! The two commands the helper supports, parsed from a single uppercase
//! token.

use vstd::prelude::*;

verus! {

/// The operation selected for one invocation: list every device's identifier
/// (`Info`), or resolve one identifier to its primary device node (`Add`).
pub enum Command {
    Info,
    Add,
}

impl Command {
    /// Parses a command token: `"INFO"` and `"ADD"` map to their variants,
    /// and any other token fails with a message that carries the token.
    pub fn from_str(s: &String) -> (r: Result<Command, String>)
        ensures
            match r {
                Ok(c) => (s@ == "INFO"@ && c is Info) || (s@ == "ADD"@ && c is Add),
                Err(m) => s@ != "INFO"@ && s@ != "ADD"@ && m@ == "Unsupported command: "@ + s@,
            },
    {
        if s.eq(&String::from_str("INFO")) {
            Ok(Command::Info)
        } else if s.eq(&String::from_str("ADD")) {
            Ok(Command::Add)
        } else {
            let mut m = String::new();
            m.append("Unsupported command: ");
            m.append(s.as_str());
            assert(m@ =~= "Unsupported command: "@ + s@);
            Err(m)
        }
    }
}

} // verus!
