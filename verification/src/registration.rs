//! The registration/deregistration engine: the two-phase toggle that creates
//! or deletes the activation-server registry records and the shortcut record
//! as a pair, bracketed by the object-activation runtime context.
//!
//! Each phase's effect on the external state is a spec transition; the
//! executable functions are proved to perform exactly those transitions and
//! to report exactly the stated errors.

use vstd::prelude::*;
use vstd::string::StringExecFns;

use crate::naming::appid_key_path;
use crate::naming::appid_key_path_spec;
use crate::naming::braced;
use crate::naming::braced_spec;
use crate::naming::clsid_key_path;
use crate::naming::clsid_key_path_spec;
use crate::naming::effective_app_name;
use crate::naming::effective_app_name_spec;
use crate::naming::local_server_command;
use crate::naming::local_server_command_spec;
use crate::naming::shortcut_path;
use crate::naming::shortcut_path_spec;
use crate::shell_link::ShellLinkSession;
use crate::system::ActivationServerRecord;
use crate::system::ActivationServerRecordView;
use crate::system::ShortcutRecordView;
use crate::system::SystemState;
use crate::system::SystemStateView;

verus! {

/// A registration failure, carrying the attempted path or CLSID so the
/// caller can diagnose it without inspecting internals.
///
/// The engine itself fails only with `NotFound`: the other variants stand
/// for failures that only the real platform can produce — a failing COM
/// protocol step, a registry permission error, a filesystem error — and are
/// the taxonomy into which the platform adapter maps them.
#[derive(Debug)]
pub enum ToastError {
    /// Deregistration attempted against a record that does not exist; holds
    /// the attempted registry path or shortcut path.
    NotFound(String),
    /// The shell-link or property-store protocol failed; holds the attempted
    /// path or value.
    Platform(String),
    /// A registry key could not be created, written or deleted; holds the
    /// attempted registry path.
    Registry(String),
    /// A filesystem operation failed; holds the attempted path.
    Io(String),
}

impl ToastError {
    /// A human-readable description of the failure.
    pub fn message(&self) -> (r: String)
        ensures
            (match self {
                ToastError::NotFound(p) => r@ == "record not found: "@ + p@,
                ToastError::Platform(p) => r@ == "platform object protocol failed: "@ + p@,
                ToastError::Registry(p) => r@ == "registry operation failed: "@ + p@,
                ToastError::Io(p) => r@ == "filesystem operation failed: "@ + p@,
            }),
    {
        match self {
            ToastError::NotFound(p) => {
                let mut s = String::from_str("record not found: ");
                s.append(p.as_str());
                s
            },
            ToastError::Platform(p) => {
                let mut s = String::from_str("platform object protocol failed: ");
                s.append(p.as_str());
                s
            },
            ToastError::Registry(p) => {
                let mut s = String::from_str("registry operation failed: ");
                s.append(p.as_str());
                s
            },
            ToastError::Io(p) => {
                let mut s = String::from_str("filesystem operation failed: ");
                s.append(p.as_str());
                s
            },
        }
    }
}

/// The state after the activation-server registrar has registered a CLSID:
/// the `Software\Classes\CLSID\{clsid}` record holds the CLSID as its
/// `AppID` value and the activation command as its `LocalServer32` default
/// value, and the `Software\Classes\AppID\{clsid}` record holds an empty
/// `DllSurrogate` value. Registering an already-registered CLSID overwrites.
pub open spec fn com_server_registered(s: SystemStateView, clsid: Seq<char>) -> SystemStateView {
    SystemStateView {
        com_classes: s.com_classes.insert(
            clsid_key_path_spec(clsid),
            ActivationServerRecordView {
                app_id: clsid,
                local_server: local_server_command_spec(s.exe_path),
            },
        ),
        app_ids: s.app_ids.insert(appid_key_path_spec(clsid), Seq::<char>::empty()),
        ..s
    }
}

/// The state after the registrar has deregistered a CLSID: the
/// `Software\Classes\CLSID\{clsid}` subtree is gone. The
/// `Software\Classes\AppID\{clsid}` record is deliberately left in place,
/// as deregistration deletes only the CLSID subtree.
pub open spec fn com_server_removed(s: SystemStateView, clsid: Seq<char>) -> SystemStateView {
    SystemStateView { com_classes: s.com_classes.remove(clsid_key_path_spec(clsid)), ..s }
}

/// The state after the shortcut manager has created the shortcut: one record
/// at the derived path, targeting the current executable and carrying the
/// AUMID and the braced activator CLSID as its two custom properties. An
/// existing file at that path is overwritten.
pub open spec fn shortcut_registered(
    s: SystemStateView,
    aumid: Seq<char>,
    clsid: Seq<char>,
    app_name: Seq<char>,
) -> SystemStateView {
    SystemStateView {
        shortcuts: s.shortcuts.insert(
            shortcut_path_spec(s.appdata_dir, app_name),
            ShortcutRecordView {
                target_path: s.exe_path,
                aumid,
                activator_clsid: braced_spec(clsid),
            },
        ),
        ..s
    }
}

/// The state after the shortcut manager has deleted the shortcut.
pub open spec fn shortcut_removed(s: SystemStateView, app_name: Seq<char>) -> SystemStateView {
    SystemStateView { shortcuts: s.shortcuts.remove(shortcut_path_spec(s.appdata_dir, app_name)), ..s }
}

/// The state a register call produces: the registrar's records, then the
/// shortcut record, in the orchestrator's fixed order.
pub open spec fn register_transition(
    s: SystemStateView,
    aumid: Seq<char>,
    clsid: Seq<char>,
    app_name: Seq<char>,
) -> SystemStateView {
    shortcut_registered(com_server_registered(s, clsid), aumid, clsid, app_name)
}

/// Whether a deregister call is owed success: both the activation-server
/// record and the shortcut record exist.
pub open spec fn deregister_succeeds(
    s: SystemStateView,
    clsid: Seq<char>,
    app_name: Seq<char>,
) -> bool {
    s.com_classes.contains_key(clsid_key_path_spec(clsid)) && s.shortcuts.contains_key(
        shortcut_path_spec(s.appdata_dir, app_name),
    )
}

/// The path a failing deregister call reports: the registry path when the
/// activation-server record is missing (checked first), otherwise the
/// shortcut path.
pub open spec fn deregister_error_path(
    s: SystemStateView,
    clsid: Seq<char>,
    app_name: Seq<char>,
) -> Seq<char> {
    if !s.com_classes.contains_key(clsid_key_path_spec(clsid)) {
        clsid_key_path_spec(clsid)
    } else {
        shortcut_path_spec(s.appdata_dir, app_name)
    }
}

/// The state a deregister call produces. When the activation-server record
/// is missing the call fails before mutating anything. When it exists it is
/// deleted even if the shortcut then turns out to be missing: a failure
/// between the two phases is not rolled back.
pub open spec fn deregister_transition(
    s: SystemStateView,
    clsid: Seq<char>,
    app_name: Seq<char>,
) -> SystemStateView {
    if !s.com_classes.contains_key(clsid_key_path_spec(clsid)) {
        s
    } else {
        shortcut_removed(com_server_removed(s, clsid), app_name)
    }
}

/// The activation-server registrar: creates or deletes the registry records
/// for a CLSID, per the direction flag.
pub fn handle_com_server(state: &mut SystemState, clsid: &str, is_registering: bool) -> (r: Result<
    (),
    ToastError,
>)
    requires
        old(state).wf(),
    ensures
        final(state).wf(),
        is_registering ==> r is Ok && final(state)@ == com_server_registered(old(state)@, clsid@),
        !is_registering ==> {
            if old(state)@.com_classes.contains_key(clsid_key_path_spec(clsid@)) {
                r is Ok && final(state)@ == com_server_removed(old(state)@, clsid@)
            } else {
                (r matches Err(e) && e matches ToastError::NotFound(p) && p@ == clsid_key_path_spec(
                    clsid@,
                )) && final(state)@ == old(state)@
            }
        },
{
    let clsid_path = clsid_key_path(clsid);

    if !is_registering {
        let existed = state.com_classes.remove(&clsid_path);
        if !existed {
            proof {
                assert(state@ =~= old(state)@);
            }
            return Err(ToastError::NotFound(clsid_path));
        }
        proof {
            assert(state@ =~= com_server_removed(old(state)@, clsid@));
        }
        return Ok(());
    }

    let command = local_server_command(state.exe_path.as_str());
    let record = ActivationServerRecord { app_id: String::from_str(clsid), local_server: command };
    state.com_classes.insert(clsid_path, record);
    let appid_path = appid_key_path(clsid);
    state.app_ids.insert(appid_path, String::new());
    proof {
        assert(state@ =~= com_server_registered(old(state)@, clsid@));
    }
    Ok(())
}

/// The shortcut manager: creates or deletes the Start Menu shortcut record,
/// per the direction flag. Creation drives the shell-link protocol, which
/// needs the object-activation runtime; deletion only checks for the file
/// and removes it, and returns an empty path.
pub fn handle_shortcuts(
    state: &mut SystemState,
    aumid: &str,
    clsid: &str,
    app_name: &str,
    is_registering: bool,
) -> (r: Result<String, ToastError>)
    requires
        old(state).wf(),
        is_registering ==> old(state).runtime_active,
    ensures
        final(state).wf(),
        is_registering ==> (r matches Ok(p) && p@ == shortcut_path_spec(
            old(state)@.appdata_dir,
            app_name@,
        )) && final(state)@ == shortcut_registered(old(state)@, aumid@, clsid@, app_name@),
        !is_registering ==> {
            if old(state)@.shortcuts.contains_key(
                shortcut_path_spec(old(state)@.appdata_dir, app_name@),
            ) {
                (r matches Ok(p) && p@ == Seq::<char>::empty()) && final(state)@
                    == shortcut_removed(old(state)@, app_name@)
            } else {
                (r matches Err(e) && e matches ToastError::NotFound(p) && p@ == shortcut_path_spec(
                    old(state)@.appdata_dir,
                    app_name@,
                )) && final(state)@ == old(state)@
            }
        },
{
    let path = shortcut_path(state.appdata_dir.as_str(), app_name);

    if !is_registering {
        let existed = state.shortcuts.remove(&path);
        if !existed {
            proof {
                assert(state@ =~= old(state)@);
            }
            return Err(ToastError::NotFound(path));
        }
        proof {
            assert(state@ =~= shortcut_removed(old(state)@, app_name@));
        }
        return Ok(String::new());
    }

    let mut link = ShellLinkSession::create();
    link.set_target(state.exe_path.clone());
    link.stage_aumid(String::from_str(aumid));
    link.stage_activator(braced(clsid));
    link.commit();
    let record = link.persist_record();
    let result = path.clone();
    state.shortcuts.insert(path, record);
    proof {
        assert(state@ =~= shortcut_registered(old(state)@, aumid@, clsid@, app_name@));
    }
    Ok(result)
}

/// The orchestrator's body: initializes the object-activation runtime,
/// drives the registrar and then the shortcut manager in that fixed order,
/// and tears the runtime down on every exit path before returning the first
/// error or the shortcut path.
pub fn handle_notification_support(
    state: &mut SystemState,
    aumid: &str,
    clsid: &str,
    app_name: &str,
    is_registering: bool,
) -> (r: Result<String, ToastError>)
    requires
        old(state).wf(),
        !old(state).runtime_active,
    ensures
        final(state).wf(),
        !final(state).runtime_active,
        is_registering ==> (r matches Ok(p) && p@ == shortcut_path_spec(
            old(state)@.appdata_dir,
            app_name@,
        )) && final(state)@ == register_transition(old(state)@, aumid@, clsid@, app_name@),
        !is_registering ==> final(state)@ == deregister_transition(old(state)@, clsid@, app_name@)
            && {
            if deregister_succeeds(old(state)@, clsid@, app_name@) {
                r matches Ok(p) && p@ == Seq::<char>::empty()
            } else {
                r matches Err(e) && e matches ToastError::NotFound(p) && p@
                    == deregister_error_path(old(state)@, clsid@, app_name@)
            }
        },
{
    state.runtime_active = true;

    match handle_com_server(state, clsid, is_registering) {
        Ok(_) => {},
        Err(e) => {
            state.runtime_active = false;
            proof {
                assert(state@ =~= old(state)@);
            }
            return Err(e);
        },
    }

    match handle_shortcuts(state, aumid, clsid, app_name, is_registering) {
        Ok(p) => {
            state.runtime_active = false;
            proof {
                if is_registering {
                    assert(state@ =~= register_transition(old(state)@, aumid@, clsid@, app_name@));
                } else {
                    assert(state@ =~= deregister_transition(old(state)@, clsid@, app_name@));
                }
            }
            Ok(p)
        },
        Err(e) => {
            state.runtime_active = false;
            proof {
                assert(state@ =~= deregister_transition(old(state)@, clsid@, app_name@));
            }
            Err(e)
        },
    }
}

/// Registers the application with the notification subsystem: creates the
/// activation-server registry records for `clsid` and the Start Menu
/// shortcut carrying `aumid` and the braced `clsid`, and returns the
/// shortcut's path. The shortcut is named by `app_name`, defaulting to
/// `aumid`. Registering the same identity again overwrites both records.
pub fn register(
    state: &mut SystemState,
    aumid: &str,
    clsid: &str,
    app_name: Option<&str>,
) -> (r: Result<String, ToastError>)
    requires
        old(state).wf(),
        !old(state).runtime_active,
        aumid@.len() > 0,
        clsid@.len() > 0,
    ensures
        final(state).wf(),
        !final(state).runtime_active,
        ({
            let name = effective_app_name_spec(
                aumid@,
                match app_name {
                    Some(n) => Some(n@),
                    None => None,
                },
            );
            (r matches Ok(p) && p@ == shortcut_path_spec(old(state)@.appdata_dir, name)) && final(
                state)@ == register_transition(old(state)@, aumid@, clsid@, name)
        }),
{
    let name = effective_app_name(aumid, app_name);
    handle_notification_support(state, aumid, clsid, name.as_str(), true)
}

/// Deregisters the application: deletes the activation-server registry
/// subtree for `clsid` and the shortcut named by `app_name` (defaulting to
/// `aumid`). The inputs must equal the ones the identity was registered
/// with. Deregistering an identity whose records are absent fails with
/// `ToastError::NotFound` naming the attempted path; a missing
/// activation-server record is reported before anything is mutated.
pub fn deregister(
    state: &mut SystemState,
    aumid: &str,
    clsid: &str,
    app_name: Option<&str>,
) -> (r: Result<(), ToastError>)
    requires
        old(state).wf(),
        !old(state).runtime_active,
        aumid@.len() > 0,
        clsid@.len() > 0,
    ensures
        final(state).wf(),
        !final(state).runtime_active,
        ({
            let name = effective_app_name_spec(
                aumid@,
                match app_name {
                    Some(n) => Some(n@),
                    None => None,
                },
            );
            final(state)@ == deregister_transition(old(state)@, clsid@, name) && (
            if deregister_succeeds(old(state)@, clsid@, name) {
                r is Ok
            } else {
                r matches Err(e) && e matches ToastError::NotFound(p) && p@
                    == deregister_error_path(old(state)@, clsid@, name)
            })
        }),
{
    let name = effective_app_name(aumid, app_name);
    match handle_notification_support(state, aumid, clsid, name.as_str(), false) {
        Ok(_) => Ok(()),
        Err(e) => Err(e),
    }
}

} // verus!
