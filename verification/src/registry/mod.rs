//! An application registered for the lifetime of a test.
use crate::init::drg::{context_name, Drg, DrgCommand, DrgError};
use vstd::prelude::*;

verus! {

/// An application that a test created; it is deleted again when the test
/// is done with it.
pub struct Application {
    drg: Drg,
    name: String,
}

impl Application {
    /// The application's name.
    pub closed spec fn name_view(&self) -> Seq<char> {
        self.name@
    }

    /// The application once `drg create app <name>` has run with `outcome`:
    /// it exists exactly when the command succeeded.
    pub fn new(drg: Drg, name: String, outcome: Result<String, DrgError>) -> (r: Result<
        Self,
        DrgError,
    >)
        ensures
            outcome is Ok <==> r is Ok,
            r matches Ok(a) ==> a.name_view() == name@,
            outcome matches Err(e) ==> r == Err::<Self, DrgError>(e),
    {
        match outcome {
            Ok(_) => Ok(Application { drg, name }),
            Err(e) => Err(e),
        }
    }

    /// The command that deletes the application: `drg delete app <name>`.
    pub fn release(&self) -> (r: DrgCommand)
        ensures
            r@.args == seq!["delete"@, "app"@, self.name_view()],
            r@.input is None,
            r@.context == context_name(),
    {
        self.drg.delete_app(self.name.as_str())
    }
}

} // verus!
