use vstd::prelude::*;
use vstd::string::StringExecFns;

verus! {

/// The system library that the loader stands in for: a build replaces either
/// `dinput8.dll` or `dsound.dll`.
#[derive(PartialEq, Eq, Structural, Debug, Clone, Copy)]
pub enum Proxied {
    Dinput8,
    Dsound,
}

/// File name of the system library stood in for.
pub open spec fn spec_dll_name(p: Proxied) -> Seq<char> {
    match p {
        Proxied::Dinput8 => "dinput8.dll"@,
        Proxied::Dsound => "dsound.dll"@,
    }
}

/// File name of the replacement that, placed next to the executable, is loaded
/// in place of the system library.
pub open spec fn spec_override_name(p: Proxied) -> Seq<char> {
    match p {
        Proxied::Dinput8 => "dinput8_c.dll"@,
        Proxied::Dsound => "dsound_c.dll"@,
    }
}

/// What is appended to the 32-bit system folder to name the system library.
pub open spec fn spec_system_file(p: Proxied) -> Seq<char> {
    match p {
        Proxied::Dinput8 => "\\dinput8.dll"@,
        Proxied::Dsound => "\\dsound.dll"@,
    }
}

/// Caption of the message box that reports a failure to load the system
/// library.
pub const ERROR_CAPTION: &'static str = "Cardamom Loader error";

/// Environment variable that marks a process in which the loader already ran.
pub const LOADED_ENV_VAR: &'static str = "CARDAMOM_LOADED";

/// File name of the system library stood in for.
pub fn dll_name(p: Proxied) -> (s: &'static str)
    ensures
        s@ == spec_dll_name(p),
{
    match p {
        Proxied::Dinput8 => "dinput8.dll",
        Proxied::Dsound => "dsound.dll",
    }
}

/// File name of the replacement library looked for next to the executable:
/// `dinput8_c.dll` or `dsound_c.dll`.
pub fn override_name(p: Proxied) -> (s: &'static str)
    ensures
        s@ == spec_override_name(p),
{
    match p {
        Proxied::Dinput8 => "dinput8_c.dll",
        Proxied::Dsound => "dsound_c.dll",
    }
}

/// Path of the system library, given the 32-bit system folder.
pub fn real_dll_path(p: Proxied, system_dir: &str) -> (path: String)
    ensures
        path@ == system_dir@ + spec_system_file(p),
{
    let mut path = String::from_str(system_dir);
    match p {
        Proxied::Dinput8 => path.append("\\dinput8.dll"),
        Proxied::Dsound => path.append("\\dsound.dll"),
    }
    path
}

/// Text of the message box shown when the system library cannot be loaded:
/// `Failed to load real <library> from system dir`, then `": "`, then the
/// cause.
pub fn dinput_load_error(p: Proxied, cause: &str) -> (message: String)
    ensures
        message@ == "Failed to load real "@ + spec_dll_name(p) + " from system dir: "@ + cause@,
{
    let mut message = String::from_str("Failed to load real ");
    message.append(dll_name(p));
    message.append(" from system dir: ");
    message.append(cause);
    message
}

} // verus!
