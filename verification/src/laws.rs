//! The engine's laws: properties that hold of every identity and every
//! starting state, proved over the spec transitions that the executable
//! `register` and `deregister` are proved to perform.

use vstd::prelude::*;

use crate::naming::appid_key_path_spec;
use crate::naming::braced_spec;
use crate::naming::clsid_key_path_spec;
use crate::naming::local_server_command_spec;
use crate::naming::shortcut_path_spec;
use crate::registration::deregister_error_path;
use crate::registration::deregister_succeeds;
use crate::registration::deregister_transition;
use crate::registration::register_transition;
use crate::system::SystemStateView;

verus! {

/// Law: registering an identity and then deregistering it with the same
/// inputs is owed success and leaves both the activation-server record and
/// the shortcut record absent; and when neither record existed beforehand,
/// the registry's CLSID store and the shortcut store return exactly to their
/// starting contents. The application-identifier record is not part of this
/// claim: deregistration deliberately leaves it in place.
pub proof fn lemma_register_then_deregister(
    s: SystemStateView,
    aumid: Seq<char>,
    clsid: Seq<char>,
    app_name: Seq<char>,
)
    ensures
        deregister_succeeds(register_transition(s, aumid, clsid, app_name), clsid, app_name),
        !deregister_transition(
            register_transition(s, aumid, clsid, app_name),
            clsid,
            app_name,
        ).com_classes.contains_key(clsid_key_path_spec(clsid)),
        !deregister_transition(
            register_transition(s, aumid, clsid, app_name),
            clsid,
            app_name,
        ).shortcuts.contains_key(shortcut_path_spec(s.appdata_dir, app_name)),
        !s.com_classes.contains_key(clsid_key_path_spec(clsid)) ==> deregister_transition(
            register_transition(s, aumid, clsid, app_name),
            clsid,
            app_name,
        ).com_classes == s.com_classes,
        !s.shortcuts.contains_key(shortcut_path_spec(s.appdata_dir, app_name))
            ==> deregister_transition(
            register_transition(s, aumid, clsid, app_name),
            clsid,
            app_name,
        ).shortcuts == s.shortcuts,
{
    let registered = register_transition(s, aumid, clsid, app_name);
    let ckey = clsid_key_path_spec(clsid);
    let spath = shortcut_path_spec(s.appdata_dir, app_name);
    let round = deregister_transition(registered, clsid, app_name);
    if !s.com_classes.contains_key(ckey) {
        assert(round.com_classes =~= s.com_classes);
    }
    if !s.shortcuts.contains_key(spath) {
        assert(round.shortcuts =~= s.shortcuts);
    }
}

/// Law: registering the same identity twice overwrites both records without
/// change — the second call produces exactly the state of the first — and
/// the derived shortcut path, hence the second call's returned path, is the
/// same both times.
pub proof fn lemma_register_idempotent(
    s: SystemStateView,
    aumid: Seq<char>,
    clsid: Seq<char>,
    app_name: Seq<char>,
)
    ensures
        register_transition(register_transition(s, aumid, clsid, app_name), aumid, clsid, app_name)
            == register_transition(s, aumid, clsid, app_name),
        shortcut_path_spec(register_transition(s, aumid, clsid, app_name).appdata_dir, app_name)
            == shortcut_path_spec(s.appdata_dir, app_name),
{
    let once = register_transition(s, aumid, clsid, app_name);
    let twice = register_transition(once, aumid, clsid, app_name);
    assert(twice.com_classes =~= once.com_classes);
    assert(twice.app_ids =~= once.app_ids);
    assert(twice.shortcuts =~= once.shortcuts);
    assert(twice =~= once);
}

/// Law: deregistering an identity whose activation-server record is absent —
/// in particular one that was never registered — fails, reports the
/// attempted registry path, and mutates nothing.
pub proof fn lemma_deregister_never_registered(
    s: SystemStateView,
    clsid: Seq<char>,
    app_name: Seq<char>,
)
    requires
        !s.com_classes.contains_key(clsid_key_path_spec(clsid)),
    ensures
        !deregister_succeeds(s, clsid, app_name),
        deregister_transition(s, clsid, app_name) == s,
        deregister_error_path(s, clsid, app_name) == clsid_key_path_spec(clsid),
{
}

/// Law: after a register, reading the records back yields exactly what the
/// inputs and the environment determine — the `AppID` value is the CLSID
/// string, the `LocalServer32` default value is the quoted executable path
/// followed by the activation flag, the `DllSurrogate` value is empty, and
/// the shortcut targets the executable and carries the AUMID and the braced
/// CLSID as its two custom properties.
pub proof fn lemma_register_records(
    s: SystemStateView,
    aumid: Seq<char>,
    clsid: Seq<char>,
    app_name: Seq<char>,
)
    ensures
        ({
            let t = register_transition(s, aumid, clsid, app_name);
            let ckey = clsid_key_path_spec(clsid);
            let akey = appid_key_path_spec(clsid);
            let spath = shortcut_path_spec(s.appdata_dir, app_name);
            t.com_classes.contains_key(ckey) && t.com_classes[ckey].app_id == clsid
                && t.com_classes[ckey].local_server == local_server_command_spec(s.exe_path)
                && t.app_ids.contains_key(akey) && t.app_ids[akey] == Seq::<char>::empty()
                && t.shortcuts.contains_key(spath) && t.shortcuts[spath].target_path == s.exe_path
                && t.shortcuts[spath].aumid == aumid && t.shortcuts[spath].activator_clsid
                == braced_spec(clsid)
        }),
{
}

} // verus!
