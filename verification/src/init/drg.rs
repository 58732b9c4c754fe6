//! The `drg` command line client: the commands this crate runs with it, and
//! how their outcome is read.
//!
//! Running a command is the caller's business; this module says which
//! arguments, standard input and context each operation uses, and what the
//! output of a finished run means.
use crate::codec::utf8_string;
use crate::text::{owned, trim, trimmed};
use vstd::prelude::*;
use vstd::utf8::*;

verus! {

/// The `drg` context that every command runs in (`DRG_CONTEXT`).
pub open spec fn context_name() -> Seq<char> {
    "system-tests"@
}

fn context() -> (r: String)
    ensures
        r@ == context_name(),
{
    owned("system-tests")
}

/// One run of `drg`: its arguments, what it reads on standard input, and the
/// value of `DRG_CONTEXT` in its environment.
#[derive(Clone, Debug)]
pub struct DrgCommand {
    pub args: Vec<String>,
    pub input: Option<Vec<u8>>,
    pub context: String,
}

pub struct DrgCommandView {
    pub args: Seq<Seq<char>>,
    pub input: Option<Seq<u8>>,
    pub context: Seq<char>,
}

/// The views of a list of strings.
pub open spec fn strings_view(v: Seq<String>) -> Seq<Seq<char>> {
    v.map_values(|s: String| s@)
}

impl View for DrgCommand {
    type V = DrgCommandView;

    open spec fn view(&self) -> DrgCommandView {
        DrgCommandView {
            args: strings_view(self.args@),
            input: match self.input {
                Some(b) => Some(b@),
                None => None,
            },
            context: self.context@,
        }
    }
}

/// The ways a `drg` operation fails.
#[derive(Clone, Debug, PartialEq, Eq)]
pub enum DrgError {
    /// The process exited unsuccessfully, with this exit code if it had one.
    CommandFailed { code: Option<i32> },
    /// The process wrote output that is not UTF-8.
    InvalidOutput,
    /// A device specification that is neither an object nor null.
    InvalidDeviceSpec,
}

/// A device specification, as far as `drg` is concerned: a JSON object
/// (held as its serialization), JSON `null`, or any other JSON value.
#[derive(Clone, Debug)]
pub enum DeviceSpec {
    Null,
    Object(Vec<u8>),
    Other,
}

/// What `drg create device` reads on standard input for a specification:
/// the serialization of an object, nothing for null.
pub open spec fn device_input(spec: DeviceSpec) -> Option<Seq<u8>> {
    match spec {
        DeviceSpec::Object(b) => Some(b@),
        _ => None,
    }
}

/// A command with the given arguments, no input, in the crate's context.
fn command(args: Vec<String>) -> (r: DrgCommand)
    ensures
        r@.args == strings_view(args@),
        r@.input is None,
        r@.context == context_name(),
{
    DrgCommand { args, input: None, context: context() }
}

fn push_arg(args: &mut Vec<String>, s: &str)
    ensures
        strings_view(final(args)@) == strings_view(old(args)@).push(s@),
{
    let ghost before = args@;
    args.push(owned(s));
    assert(strings_view(args@) =~= strings_view(before).push(s@));
}

/// The client for the `drg` command line tool.
#[derive(Clone, Debug)]
pub struct Drg {}

impl Drg {
    pub fn new() -> (r: Self) {
        Drg {  }
    }

    /// What a finished run returns: its standard output as text when the
    /// process succeeded and wrote UTF-8.
    pub fn output(success: bool, code: Option<i32>, stdout: Vec<u8>) -> (r: Result<String, DrgError>)
        ensures
            !success ==> r == Err::<String, DrgError>(DrgError::CommandFailed { code }),
            success && valid_utf8(stdout@) ==> (r matches Ok(s) && s@ == decode_utf8(stdout@)),
            success && !valid_utf8(stdout@) ==> r == Err::<String, DrgError>(
                DrgError::InvalidOutput,
            ),
    {
        if !success {
            return Err(DrgError::CommandFailed { code });
        }
        match utf8_string(stdout) {
            Some(s) => Ok(s),
            None => Err(DrgError::InvalidOutput),
        }
    }

    /// `drg context delete system-tests`.
    pub fn delete_context(&self) -> (r: DrgCommand)
        ensures
            r@.args == seq!["context"@, "delete"@, context_name()],
            r@.input is None,
            r@.context == context_name(),
    {
        let mut args = Vec::new();
        push_arg(&mut args, "context");
        push_arg(&mut args, "delete");
        push_arg(&mut args, "system-tests");
        command(args)
    }

    /// `drg login <url> -t <refresh_token> --context system-tests`.
    pub fn login(&self, url: String, refresh_token: &str) -> (r: DrgCommand)
        ensures
            r@.args == seq!["login"@, url@, "-t"@, refresh_token@, "--context"@, context_name()],
            r@.input is None,
            r@.context == context_name(),
    {
        let mut args = Vec::new();
        push_arg(&mut args, "login");
        push_arg(&mut args, url.as_str());
        push_arg(&mut args, "-t");
        push_arg(&mut args, refresh_token);
        push_arg(&mut args, "--context");
        push_arg(&mut args, "system-tests");
        command(args)
    }

    /// `drg version`.
    pub fn version_str(&self) -> (r: DrgCommand)
        ensures
            r@.args == seq!["version"@],
            r@.input is None,
            r@.context == context_name(),
    {
        let mut args = Vec::new();
        push_arg(&mut args, "version");
        command(args)
    }

    /// `drg context list`.
    pub fn contexts_str(&self) -> (r: DrgCommand)
        ensures
            r@.args == seq!["context"@, "list"@],
            r@.input is None,
            r@.context == context_name(),
    {
        let mut args = Vec::new();
        push_arg(&mut args, "context");
        push_arg(&mut args, "list");
        command(args)
    }

    /// `drg create app <name>`.
    pub fn create_app(&self, name: &str) -> (r: DrgCommand)
        ensures
            r@.args == seq!["create"@, "app"@, name@],
            r@.input is None,
            r@.context == context_name(),
    {
        let mut args = Vec::new();
        push_arg(&mut args, "create");
        push_arg(&mut args, "app");
        push_arg(&mut args, name);
        command(args)
    }

    /// `drg delete app <name>`.
    pub fn delete_app(&self, name: &str) -> (r: DrgCommand)
        ensures
            r@.args == seq!["delete"@, "app"@, name@],
            r@.input is None,
            r@.context == context_name(),
    {
        let mut args = Vec::new();
        push_arg(&mut args, "delete");
        push_arg(&mut args, "app");
        push_arg(&mut args, name);
        command(args)
    }

    /// `drg create device --app <app> <name>`, reading the device
    /// specification on standard input when it is an object; refused when the
    /// specification is neither an object nor null.
    pub fn create_device(&self, app: &str, name: &str, spec: &DeviceSpec) -> (r: Result<
        DrgCommand,
        DrgError,
    >)
        ensures
            spec is Other <==> r == Err::<DrgCommand, DrgError>(DrgError::InvalidDeviceSpec),
            !(spec is Other) <==> r is Ok,
            r matches Ok(c) ==> {
                &&& c@.args == seq!["create"@, "device"@, "--app"@, app@, name@]
                &&& c@.context == context_name()
                &&& c@.input == device_input(*spec)
            },
    {
        let input = match spec {
            DeviceSpec::Object(b) => Some(b.clone()),
            DeviceSpec::Null => None,
            DeviceSpec::Other => {
                return Err(DrgError::InvalidDeviceSpec);
            },
        };
        let mut args = Vec::new();
        push_arg(&mut args, "create");
        push_arg(&mut args, "device");
        push_arg(&mut args, "--app");
        push_arg(&mut args, app);
        push_arg(&mut args, name);
        let mut c = command(args);
        c.input = input;
        Ok(c)
    }

    /// `drg delete device --app <app> <name>`.
    pub fn delete_device(&self, app: &str, name: &str) -> (r: DrgCommand)
        ensures
            r@.args == seq!["delete"@, "device"@, "--app"@, app@, name@],
            r@.input is None,
            r@.context == context_name(),
    {
        let mut args = Vec::new();
        push_arg(&mut args, "delete");
        push_arg(&mut args, "device");
        push_arg(&mut args, "--app");
        push_arg(&mut args, app);
        push_arg(&mut args, name);
        command(args)
    }

    /// `drg whoami -t`, whose output holds the current access token.
    pub fn whoami(&self) -> (r: DrgCommand)
        ensures
            r@.args == seq!["whoami"@, "-t"@],
            r@.input is None,
            r@.context == context_name(),
    {
        let mut args = Vec::new();
        push_arg(&mut args, "whoami");
        push_arg(&mut args, "-t");
        command(args)
    }

    /// The access token in the output of `drg whoami -t`: the output without
    /// surrounding white space.
    pub fn token_from_output(output: &str) -> (r: String)
        ensures
            r@ == trimmed(output@),
    {
        trim(output)
    }
}

} // verus!
