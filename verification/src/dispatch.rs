//! From a command line to the requests that launch it.

use vstd::prelude::*;
use crate::config::{lookup, Config};
use crate::shell::DispatchError;

verus! {

/// Where the host shows the launched command.
#[derive(Clone, Copy, Debug, PartialEq, Eq, Structural)]
pub enum Placement {
    /// In the layout, beside the other panes.
    Embedded,
    /// Over the layout.
    Floating,
}

/// The host is asked to run a program. Nothing comes back.
#[derive(Clone, Debug, PartialEq, Eq)]
pub struct ExecRequest {
    pub path: String,
    pub args: Vec<String>,
    pub cwd: Option<String>,
    pub placement: Placement,
}

/// The value of an [`ExecRequest`].
pub struct ExecModel {
    pub path: Seq<char>,
    pub args: Seq<Seq<char>>,
    pub cwd: Option<Seq<char>>,
    pub placement: Placement,
}

impl View for ExecRequest {
    type V = ExecModel;

    open spec fn view(&self) -> ExecModel {
        ExecModel {
            path: self.path@,
            args: self.args.deep_view(),
            cwd: self.cwd.deep_view(),
            placement: self.placement,
        }
    }
}

/// What the engine asks of the host.
#[derive(Clone, Debug, PartialEq, Eq)]
pub enum Request {
    /// Run a program in a new pane.
    Run(ExecRequest),
    /// Close the terminal pane with this identifier.
    ClosePane(u32),
    /// Close the launcher itself.
    CloseSelf,
}

/// The value of a [`Request`].
pub enum RequestModel {
    Run(ExecModel),
    ClosePane(u32),
    CloseSelf,
}

impl View for Request {
    type V = RequestModel;

    open spec fn view(&self) -> RequestModel {
        match self {
            Request::Run(exec) => RequestModel::Run(exec@),
            Request::ClosePane(id) => RequestModel::ClosePane(*id),
            Request::CloseSelf => RequestModel::CloseSelf,
        }
    }
}

/// The values of some requests, in their order.
pub open spec fn requests_view(requests: Seq<Request>) -> Seq<RequestModel> {
    Seq::new(requests.len(), |i: int| requests[i]@)
}

/// The key under which the interpreter's path is configured.
pub const KEY_SHELL: &'static str = "shell";

/// The key of the flag that the interpreter gets before the command.
pub const KEY_SHELL_FLAG: &'static str = "shell_flag";

/// The key of the working directory of launched commands.
pub const KEY_EXEC_CWD: &'static str = "exec_cwd";

/// The older key of the working directory, read where the other is absent.
pub const KEY_CWD: &'static str = "cwd";

/// The key whose value `true` selects the embedded placement.
pub const KEY_EMBEDDED: &'static str = "embedded";

/// Both the interpreter and its flag are configured.
pub open spec fn config_complete(config: Seq<(Seq<char>, Seq<char>)>) -> bool {
    lookup(config, KEY_SHELL@) is Some && lookup(config, KEY_SHELL_FLAG@) is Some
}

/// The working directory that the configuration names.
pub open spec fn working_dir(config: Seq<(Seq<char>, Seq<char>)>) -> Option<Seq<char>> {
    match lookup(config, KEY_EXEC_CWD@) {
        Some(dir) => Some(dir),
        None => lookup(config, KEY_CWD@),
    }
}

/// The placement that a session in this mode asks for.
pub open spec fn placement_of(embedded: bool) -> Placement {
    if embedded {
        Placement::Embedded
    } else {
        Placement::Floating
    }
}

/// What launching `command` comes to: the interpreter is run with its flag and the
/// whole command as one argument. A command that is not well quoted is not launched,
/// nor is any while the interpreter or its flag is missing.
pub open spec fn plan(
    command: Seq<char>,
    well_quoted: bool,
    config: Seq<(Seq<char>, Seq<char>)>,
    embedded: bool,
) -> Result<ExecModel, DispatchError> {
    if !well_quoted {
        Err(DispatchError::MalformedCommand)
    } else if !config_complete(config) {
        Err(DispatchError::IncompleteConfiguration)
    } else {
        Ok(
            ExecModel {
                path: lookup(config, KEY_SHELL@).unwrap(),
                args: seq![lookup(config, KEY_SHELL_FLAG@).unwrap(), command],
                cwd: working_dir(config),
                placement: placement_of(embedded),
            },
        )
    }
}

/// Whether the interpreter and its flag are both configured.
pub fn is_config_complete(config: &Config) -> (r: bool)
    ensures
        r == config_complete(config@),
{
    config.has(KEY_SHELL) && config.has(KEY_SHELL_FLAG)
}

/// The working directory for launched commands, if one is configured.
pub fn configured_cwd(config: &Config) -> (r: Option<String>)
    ensures
        r.deep_view() == working_dir(config@),
{
    match config.get(KEY_EXEC_CWD) {
        Some(dir) => Some(dir.clone()),
        None => match config.get(KEY_CWD) {
            Some(dir) => Some(dir.clone()),
            None => None,
        },
    }
}

/// The request that launches `command`, given whether it is well quoted; or the reason
/// why there is none.
pub fn plan_dispatch(command: String, well_quoted: bool, config: &Config, embedded: bool) -> (r:
    Result<ExecRequest, DispatchError>)
    ensures
        match r {
            Ok(exec) => plan(command@, well_quoted, config@, embedded) == Ok::<
                ExecModel,
                DispatchError,
            >(exec@),
            Err(e) => plan(command@, well_quoted, config@, embedded) == Err::<
                ExecModel,
                DispatchError,
            >(e),
        },
{
    if !well_quoted {
        return Err(DispatchError::MalformedCommand);
    }
    let shell = match config.get(KEY_SHELL) {
        Some(shell) => shell,
        None => {
            return Err(DispatchError::IncompleteConfiguration);
        },
    };
    let flag = match config.get(KEY_SHELL_FLAG) {
        Some(flag) => flag,
        None => {
            return Err(DispatchError::IncompleteConfiguration);
        },
    };
    let mut args: Vec<String> = Vec::new();
    args.push(flag.clone());
    args.push(command);
    let exec = ExecRequest {
        path: shell.clone(),
        args,
        cwd: configured_cwd(config),
        placement: if embedded {
            Placement::Embedded
        } else {
            Placement::Floating
        },
    };
    assert(exec.args.deep_view() =~= seq![flag@, command@]);
    Ok(exec)
}

} // verus!
