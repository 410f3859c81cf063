use vstd::prelude::*;
use vstd::string::StringExecFns;

verus! {

/// How many seconds the reset pauses between disabling and re-enabling the
/// device, so that the operating system can settle the disabled state.
pub const WAIT_SECONDS: u64 = 3;

/// The mathematical value of a list of command arguments.
pub open spec fn args_model(args: Seq<String>) -> Seq<Seq<char>> {
    args.map_values(|s: String| s@)
}

/// The name of the device-lifecycle cmdlet: disable or enable.
pub open spec fn cmdlet_model(disable: bool) -> Seq<char> {
    if disable {
        ("Disable-PnpDevice")@
    } else {
        ("Enable-PnpDevice")@
    }
}

/// The cmdlet that disables (`disable == true`) or enables the device.
pub fn cmdlet_name(disable: bool) -> (r: &'static str)
    ensures
        r@ == cmdlet_model(disable),
{
    if disable {
        "Disable-PnpDevice"
    } else {
        "Enable-PnpDevice"
    }
}

/// The one command line handed to the external command interpreter: the
/// cmdlet applied to the instance identifier, with confirmation suppressed
/// and errors promoted to failures.
pub open spec fn pnp_command_model(instance_id: Seq<char>, disable: bool) -> Seq<char> {
    cmdlet_model(disable) + (" -InstanceId \"")@ + instance_id
        + ("\" -Confirm:$false -ErrorAction Stop")@
}

/// Builds the command-interpreter command for the given instance identifier.
pub fn pnp_command_text(instance_id: &str, disable: bool) -> (r: String)
    ensures
        r@ == pnp_command_model(instance_id@, disable),
{
    let mut t = String::from_str(cmdlet_name(disable));
    t.append(" -InstanceId \"");
    t.append(instance_id);
    t.append("\" -Confirm:$false -ErrorAction Stop");
    proof {
        assert(t@ =~= pnp_command_model(instance_id@, disable));
    }
    t
}

/// The program that interprets the device-lifecycle commands.
pub fn interpreter_program() -> (r: &'static str)
    ensures
        r@ == ("powershell")@,
{
    "powershell"
}

/// The full argument list of one device-lifecycle invocation: no profile, no
/// interaction, then the command itself.
pub open spec fn interpreter_args_model(instance_id: Seq<char>, disable: bool) -> Seq<Seq<char>> {
    seq![("-NoProfile")@, ("-NonInteractive")@, ("-Command")@, pnp_command_model(instance_id, disable)]
}

/// Builds the argument list for one device-lifecycle invocation.
pub fn interpreter_args(instance_id: &str, disable: bool) -> (r: Vec<String>)
    ensures
        args_model(r@) == interpreter_args_model(instance_id@, disable),
{
    let mut v: Vec<String> = Vec::new();
    v.push(String::from_str("-NoProfile"));
    v.push(String::from_str("-NonInteractive"));
    v.push(String::from_str("-Command"));
    v.push(pnp_command_text(instance_id, disable));
    proof {
        assert(args_model(v@) =~= interpreter_args_model(instance_id@, disable));
    }
    v
}

} // verus!
