//! The model of the external state that registration drives: the per-user
//! registry subtrees, the Start Menu shortcut files, the environment the
//! process reads at call time, and the object-activation runtime context.
//!
//! True ownership of this state lives in the operating system; the model
//! holds, as plain values, exactly what the registration engine reads and
//! writes, so that the engine's transitions can be stated and proved. A
//! platform adapter maps the model's records onto the real stores.

use vstd::prelude::*;

use crate::store::StringMap;

verus! {

/// The activation-server record kept under the registry subtree
/// `Software\Classes\CLSID\{clsid}`: the `AppID` value and the default value
/// of the `LocalServer32` child key.
pub struct ActivationServerRecord {
    pub app_id: String,
    pub local_server: String,
}

/// The view of an activation-server record.
#[verifier::ext_equal]
pub struct ActivationServerRecordView {
    pub app_id: Seq<char>,
    pub local_server: Seq<char>,
}

impl View for ActivationServerRecord {
    type V = ActivationServerRecordView;

    open spec fn view(&self) -> ActivationServerRecordView {
        ActivationServerRecordView { app_id: self.app_id@, local_server: self.local_server@ }
    }
}

/// A shortcut file's record: its target and the two custom identity
/// properties the notification layer reads from it.
pub struct ShortcutRecord {
    pub target_path: String,
    pub aumid: String,
    pub activator_clsid: String,
}

/// The view of a shortcut record.
#[verifier::ext_equal]
pub struct ShortcutRecordView {
    pub target_path: Seq<char>,
    pub aumid: Seq<char>,
    pub activator_clsid: Seq<char>,
}

impl View for ShortcutRecord {
    type V = ShortcutRecordView;

    open spec fn view(&self) -> ShortcutRecordView {
        ShortcutRecordView {
            target_path: self.target_path@,
            aumid: self.aumid@,
            activator_clsid: self.activator_clsid@,
        }
    }
}

/// Everything outside the process that registration reads or writes.
///
/// `com_classes` holds one activation-server record per registry path
/// `Software\Classes\CLSID\{clsid}`; `app_ids` holds the `DllSurrogate`
/// value per path `Software\Classes\AppID\{clsid}`; `shortcuts` holds one
/// record per shortcut file path. `exe_path` and `appdata_dir` are the
/// environment values the process reads at call time. `runtime_active` says
/// whether the object-activation runtime is initialized for the current
/// call; it is never left active between calls.
pub struct SystemState {
    pub com_classes: StringMap<ActivationServerRecord>,
    pub app_ids: StringMap<String>,
    pub shortcuts: StringMap<ShortcutRecord>,
    pub exe_path: String,
    pub appdata_dir: String,
    pub runtime_active: bool,
}

/// The view of the external state.
#[verifier::ext_equal]
pub struct SystemStateView {
    pub com_classes: Map<Seq<char>, ActivationServerRecordView>,
    pub app_ids: Map<Seq<char>, Seq<char>>,
    pub shortcuts: Map<Seq<char>, ShortcutRecordView>,
    pub exe_path: Seq<char>,
    pub appdata_dir: Seq<char>,
    pub runtime_active: bool,
}

impl View for SystemState {
    type V = SystemStateView;

    open spec fn view(&self) -> SystemStateView {
        SystemStateView {
            com_classes: self.com_classes@,
            app_ids: self.app_ids@,
            shortcuts: self.shortcuts@,
            exe_path: self.exe_path@,
            appdata_dir: self.appdata_dir@,
            runtime_active: self.runtime_active,
        }
    }
}

impl SystemState {
    /// The three stores keep one record per key.
    pub open spec fn wf(&self) -> bool {
        self.com_classes.wf() && self.app_ids.wf() && self.shortcuts.wf()
    }

    /// A fresh model: no records anywhere, the runtime inactive, and the
    /// given environment.
    pub fn new(exe_path: String, appdata_dir: String) -> (r: Self)
        ensures
            r.wf(),
            r@.com_classes == Map::<Seq<char>, ActivationServerRecordView>::empty(),
            r@.app_ids == Map::<Seq<char>, Seq<char>>::empty(),
            r@.shortcuts == Map::<Seq<char>, ShortcutRecordView>::empty(),
            r@.exe_path == exe_path@,
            r@.appdata_dir == appdata_dir@,
            !r@.runtime_active,
    {
        SystemState {
            com_classes: StringMap::new(),
            app_ids: StringMap::new(),
            shortcuts: StringMap::new(),
            exe_path,
            appdata_dir,
            runtime_active: false,
        }
    }
}

} // verus!
