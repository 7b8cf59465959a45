//! Derivation of every name, path and value that registration writes to the
//! two external stores: the per-user registry and the Start Menu folder.
//!
//! Each derivation exists twice: a spec function that states the exact
//! character sequence, and an executable builder proved to return it.

use vstd::prelude::*;
use vstd::string::StringExecFns;

verus! {

/// The display name used for the shortcut: the caller-supplied name when one
/// was given, otherwise the application's AUMID.
pub open spec fn effective_app_name_spec(aumid: Seq<char>, app_name: Option<Seq<char>>) -> Seq<char> {
    match app_name {
        Some(name) => name,
        None => aumid,
    }
}

/// A CLSID wrapped in braces, the syntax the registry and the COM property
/// layer expect for GUID values.
pub open spec fn braced_spec(clsid: Seq<char>) -> Seq<char> {
    "{"@ + clsid + "}"@
}

/// The per-user registry path of the activation-server subtree for a CLSID.
pub open spec fn clsid_key_path_spec(clsid: Seq<char>) -> Seq<char> {
    "Software\\Classes\\CLSID\\"@ + braced_spec(clsid)
}

/// The per-user registry path of the application-identifier subtree for a
/// CLSID, whose empty `DllSurrogate` value selects surrogate-free local
/// activation.
pub open spec fn appid_key_path_spec(clsid: Seq<char>) -> Seq<char> {
    "Software\\Classes\\AppID\\"@ + braced_spec(clsid)
}

/// The activation command stored as the `LocalServer32` default value: the
/// quoted executable path, one space, and the fixed activation flag.
pub open spec fn local_server_command_spec(exe_path: Seq<char>) -> Seq<char> {
    "\""@ + exe_path + "\" -ToastActivated"@
}

/// The absolute path of the shortcut file: the user's roaming application
/// data directory, the fixed Start Menu programs subpath, and the application
/// name with the shell-link extension.
pub open spec fn shortcut_path_spec(appdata_dir: Seq<char>, app_name: Seq<char>) -> Seq<char> {
    appdata_dir + "\\Microsoft\\Windows\\Start Menu\\Programs\\"@ + app_name + ".lnk"@
}

/// Resolves the effective application name from the AUMID and the optional
/// caller-supplied name.
pub fn effective_app_name(aumid: &str, app_name: Option<&str>) -> (r: String)
    ensures
        r@ == effective_app_name_spec(
            aumid@,
            match app_name {
                Some(name) => Some(name@),
                None => None,
            },
        ),
{
    match app_name {
        Some(name) => String::from_str(name),
        None => String::from_str(aumid),
    }
}

/// Wraps a CLSID string in braces.
pub fn braced(clsid: &str) -> (r: String)
    ensures
        r@ == braced_spec(clsid@),
{
    let mut s = String::from_str("{");
    s.append(clsid);
    s.append("}");
    proof {
        assert(s@ =~= braced_spec(clsid@));
    }
    s
}

/// Builds the registry path of the activation-server subtree for a CLSID.
pub fn clsid_key_path(clsid: &str) -> (r: String)
    ensures
        r@ == clsid_key_path_spec(clsid@),
{
    let mut s = String::from_str("Software\\Classes\\CLSID\\");
    let b = braced(clsid);
    s.append(b.as_str());
    proof {
        assert(s@ =~= clsid_key_path_spec(clsid@));
    }
    s
}

/// Builds the registry path of the application-identifier subtree for a CLSID.
pub fn appid_key_path(clsid: &str) -> (r: String)
    ensures
        r@ == appid_key_path_spec(clsid@),
{
    let mut s = String::from_str("Software\\Classes\\AppID\\");
    let b = braced(clsid);
    s.append(b.as_str());
    proof {
        assert(s@ =~= appid_key_path_spec(clsid@));
    }
    s
}

/// Builds the `LocalServer32` activation command for an executable path.
pub fn local_server_command(exe_path: &str) -> (r: String)
    ensures
        r@ == local_server_command_spec(exe_path@),
{
    let mut s = String::from_str("\"");
    s.append(exe_path);
    s.append("\" -ToastActivated");
    proof {
        assert(s@ =~= local_server_command_spec(exe_path@));
    }
    s
}

/// Builds the absolute shortcut path for an application name.
pub fn shortcut_path(appdata_dir: &str, app_name: &str) -> (r: String)
    ensures
        r@ == shortcut_path_spec(appdata_dir@, app_name@),
{
    let mut s = String::from_str(appdata_dir);
    s.append("\\Microsoft\\Windows\\Start Menu\\Programs\\");
    s.append(app_name);
    s.append(".lnk");
    proof {
        assert(s@ =~= shortcut_path_spec(appdata_dir@, app_name@));
    }
    s
}

} // verus!
