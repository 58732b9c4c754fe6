//! Logging the web driver in to the console.
use vstd::prelude::*;

verus! {

/// What looking for the user menu on the console page found.
#[derive(Clone, Copy, Debug, PartialEq, Eq, Structural)]
pub enum LoginProbe {
    /// The user menu is there.
    Found,
    /// The wait for it timed out.
    WaitTimeout,
    /// There is no such element.
    NoSuchElement,
    /// The web driver failed otherwise.
    Failed,
}

/// What to do after probing for the user menu.
#[derive(Clone, Copy, Debug, PartialEq, Eq, Structural)]
pub enum LoginStep {
    /// Already logged in.
    Done,
    /// Fill in and submit the login form.
    LogIn,
    /// Give up with the driver's error.
    Fail,
}

/// The decision after the probe: logged in when the menu is there, log in
/// when it is missing, fail on any other error.
pub fn after_probe(probe: LoginProbe) -> (r: LoginStep)
    ensures
        probe is Found <==> r is Done,
        (probe is WaitTimeout || probe is NoSuchElement) <==> r is LogIn,
        probe is Failed <==> r is Fail,
{
    match probe {
        LoginProbe::Found => LoginStep::Done,
        LoginProbe::WaitTimeout => LoginStep::LogIn,
        LoginProbe::NoSuchElement => LoginStep::LogIn,
        LoginProbe::Failed => LoginStep::Fail,
    }
}

} // verus!
