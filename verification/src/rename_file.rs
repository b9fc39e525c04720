//! The rename-file command: renames a file together with the class it
//! declares. The editor collaborator performs the rename itself; the
//! daemon's part is to validate the arguments and acknowledge.

use vstd::prelude::*;

use crate::error::DaemonError;
use crate::state::DaemonState;

verus! {

/// Rename file + class.
#[derive(Debug)]
pub struct RenameFile {
    /// Path of the file to rename.
    pub path: String,
    /// Current class name.
    pub name: String,
    /// New class name.
    pub new_name: String,
}

impl RenameFile {
    /// The command key under which this command is dispatched.
    pub fn key() -> (r: &'static str)
        ensures
            r@ == "rename_file"@,
    {
        "rename_file"
    }

    /// Validates the ordered argument list `[path, name, new_name]`.
    /// Fails exactly when one of the three arguments is missing.
    pub fn new(args: Vec<&str>) -> (r: Result<Self, DaemonError>)
        ensures
            args@.len() >= 3 ==> (r matches Ok(c) && c.path@ == args@[0]@ && c.name@ == args@[1]@
                && c.new_name@ == args@[2]@),
            args@.len() < 3 ==> (r matches Err(e) && e is MissingArguments),
    {
        if args.len() < 3 {
            return Err(
                DaemonError::MissingArguments(
                    String::from_str("expected [path, old_name, new_name]"),
                ),
            );
        }
        Ok(
            RenameFile {
                path: args[0].to_owned(),
                name: args[1].to_owned(),
                new_name: args[2].to_owned(),
            },
        )
    }

    /// The request payload for this command: its key followed by its
    /// ordered arguments, ready to be written to the daemon's channel.
    pub fn request(path: &str, name: &str, new_name: &str) -> (r: Vec<String>)
        ensures
            r@.len() == 4,
            r@[0]@ == "rename_file"@,
            r@[1]@ == path@,
            r@[2]@ == name@,
            r@[3]@ == new_name@,
    {
        let mut v: Vec<String> = Vec::new();
        v.push(String::from_str(Self::key()));
        v.push(path.to_owned());
        v.push(name.to_owned());
        v.push(new_name.to_owned());
        v
    }

    /// Handles the command against shared state. The rename is performed
    /// editor-side, so the daemon only acknowledges: the shared state is
    /// left exactly as it was and the handler always succeeds.
    pub fn handle(&self, _state: &mut DaemonState) -> (r: Result<(), DaemonError>)
        ensures
            *final(_state) == *old(_state),
            r is Ok,
    {
        Ok(())
    }
}

} // verus!
