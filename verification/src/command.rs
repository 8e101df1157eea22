//! The commands that a driver runs on behalf of the machines of this crate.
//!
//! A plan is data: the program, its argument list, and what is written to its
//! standard input. The credential of a start is only ever part of the latter.

use crate::text::texts;
use vstd::prelude::*;
use vstd::string::StringExecFns;

verus! {

/// A command to spawn. It has no `Debug` form: its input may be a credential.
pub struct CommandPlan {
    pub program: String,
    pub arguments: Vec<String>,
    /// Text to write to the spawned process's standard input, if any.
    pub input: Option<String>,
}

/// A plan as plain values.
pub struct CommandPlanView {
    pub program: Seq<char>,
    pub arguments: Seq<Seq<char>>,
    pub input: Option<Seq<char>>,
}

impl View for CommandPlan {
    type V = CommandPlanView;

    open spec fn view(&self) -> CommandPlanView {
        CommandPlanView {
            program: self.program@,
            arguments: texts(self.arguments@),
            input: match self.input {
                Some(text) => Some(text@),
                None => None,
            },
        }
    }
}

/// Where the executable of a service is installed.
pub open spec fn spec_install_path(name: Seq<char>) -> Seq<char> {
    "/Applications/iNodeClient/"@ + name
}

/// The service's own stop command, run without elevation.
pub open spec fn spec_graceful_stop(name: Seq<char>) -> CommandPlanView {
    CommandPlanView { program: spec_install_path(name), arguments: seq!["-k"@], input: None }
}

/// The elevated spawn: the escalation wrapper reads the credential from its
/// standard input and runs the service's executable.
pub open spec fn spec_elevated_start(name: Seq<char>, credential: Seq<char>) -> CommandPlanView {
    CommandPlanView {
        program: "sudo"@,
        arguments: seq!["-S"@, spec_install_path(name)],
        input: Some(credential),
    }
}

/// The unconditional kill by name.
pub open spec fn spec_force_kill(name: Seq<char>) -> CommandPlanView {
    CommandPlanView { program: "killall"@, arguments: seq!["-9"@, name], input: None }
}

/// The process-table query: one bare command name per line.
pub open spec fn spec_process_table() -> CommandPlanView {
    CommandPlanView {
        program: "ps"@,
        arguments: seq!["-A"@, "-c"@, "-o"@, "comm="@],
        input: None,
    }
}

/// One echo request to a host.
pub open spec fn spec_echo(target: Seq<char>) -> CommandPlanView {
    CommandPlanView { program: "ping"@, arguments: seq!["-c"@, "1"@, target], input: None }
}

/// A network-configuration query with one flag.
pub open spec fn spec_network_setup(flag: Seq<char>) -> CommandPlanView {
    CommandPlanView { program: "networksetup"@, arguments: seq![flag], input: None }
}

/// The link status query for a device.
pub open spec fn spec_link_status(device: Seq<char>) -> CommandPlanView {
    CommandPlanView { program: "ifconfig"@, arguments: seq![device], input: None }
}

pub fn install_path(name: &str) -> (path: String)
    ensures
        path@ == spec_install_path(name@),
{
    String::from_str("/Applications/iNodeClient/").concat(name)
}

fn plan(program: String, arguments: Vec<String>, input: Option<String>) -> (plan: CommandPlan)
    ensures
        plan.program == program,
        plan.arguments == arguments,
        plan.input == input,
{
    CommandPlan { program, arguments, input }
}

pub fn graceful_stop_command(name: &str) -> (plan: CommandPlan)
    ensures
        plan@ == spec_graceful_stop(name@),
{
    let arguments = vec![String::from_str("-k")];
    assert(texts(arguments@) =~= seq!["-k"@]);
    plan(install_path(name), arguments, None)
}

pub fn elevated_start_command(name: &str, credential: &str) -> (plan: CommandPlan)
    ensures
        plan@ == spec_elevated_start(name@, credential@),
{
    let arguments = vec![String::from_str("-S"), install_path(name)];
    assert(texts(arguments@) =~= seq!["-S"@, spec_install_path(name@)]);
    plan(String::from_str("sudo"), arguments, Some(String::from_str(credential)))
}

pub fn force_kill_command(name: &str) -> (plan: CommandPlan)
    ensures
        plan@ == spec_force_kill(name@),
{
    let arguments = vec![String::from_str("-9"), String::from_str(name)];
    assert(texts(arguments@) =~= seq!["-9"@, name@]);
    plan(String::from_str("killall"), arguments, None)
}

pub fn process_table_command() -> (plan: CommandPlan)
    ensures
        plan@ == spec_process_table(),
{
    let arguments = vec![
        String::from_str("-A"),
        String::from_str("-c"),
        String::from_str("-o"),
        String::from_str("comm="),
    ];
    assert(texts(arguments@) =~= seq!["-A"@, "-c"@, "-o"@, "comm="@]);
    plan(String::from_str("ps"), arguments, None)
}

pub fn echo_command(target: &str) -> (plan: CommandPlan)
    ensures
        plan@ == spec_echo(target@),
{
    let arguments = vec![String::from_str("-c"), String::from_str("1"), String::from_str(target)];
    assert(texts(arguments@) =~= seq!["-c"@, "1"@, target@]);
    plan(String::from_str("ping"), arguments, None)
}

pub fn list_services_command() -> (plan: CommandPlan)
    ensures
        plan@ == spec_network_setup("-listallnetworkservices"@),
{
    let arguments = vec![String::from_str("-listallnetworkservices")];
    assert(texts(arguments@) =~= seq!["-listallnetworkservices"@]);
    plan(String::from_str("networksetup"), arguments, None)
}

pub fn list_hardware_ports_command() -> (plan: CommandPlan)
    ensures
        plan@ == spec_network_setup("-listallhardwareports"@),
{
    let arguments = vec![String::from_str("-listallhardwareports")];
    assert(texts(arguments@) =~= seq!["-listallhardwareports"@]);
    plan(String::from_str("networksetup"), arguments, None)
}

pub fn link_status_command(device: &str) -> (plan: CommandPlan)
    ensures
        plan@ == spec_link_status(device@),
{
    let arguments = vec![String::from_str(device)];
    assert(texts(arguments@) =~= seq![device@]);
    plan(String::from_str("ifconfig"), arguments, None)
}

/// The credential of a start never reaches the program or the argument list
/// of the spawned command: both are the same for any two credentials. It is
/// handed over on standard input, and nothing else is.
pub proof fn lemma_credential_only_on_input(
    name: Seq<char>,
    credential: Seq<char>,
    other: Seq<char>,
)
    ensures
        spec_elevated_start(name, credential).program == spec_elevated_start(name, other).program,
        spec_elevated_start(name, credential).arguments == spec_elevated_start(
            name,
            other,
        ).arguments,
        spec_elevated_start(name, credential).input == Some(credential),
{
}

} // verus!
