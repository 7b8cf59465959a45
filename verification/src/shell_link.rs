//! The shell-link protocol that shortcut creation drives: set the link's
//! target, stage the two custom identity properties, commit them, and only
//! then persist.
//!
//! The platform's property store is transactional: a property that is set
//! but not committed is not durable. The session models that discipline —
//! staged values move to the committed side only on `commit`, and a record
//! can be persisted only from a session whose target is set and whose
//! properties are committed — so a registration path that skipped a step
//! would not verify.

use vstd::pervasive::unreached;
use vstd::prelude::*;

use crate::system::ShortcutRecord;
use crate::system::ShortcutRecordView;

verus! {

/// The view of an optional string value.
pub open spec fn str_opt_view(o: Option<String>) -> Option<Seq<char>> {
    match o {
        Some(s) => Some(s@),
        None => None,
    }
}

/// An in-progress shell-link object: its target path, and each identity
/// property on the staged and the committed side of the property store.
pub struct ShellLinkSession {
    target_path: Option<String>,
    staged_aumid: Option<String>,
    staged_activator: Option<String>,
    committed_aumid: Option<String>,
    committed_activator: Option<String>,
}

/// The view of a session.
#[verifier::ext_equal]
pub struct ShellLinkSessionView {
    pub target_path: Option<Seq<char>>,
    pub staged_aumid: Option<Seq<char>>,
    pub staged_activator: Option<Seq<char>>,
    pub committed_aumid: Option<Seq<char>>,
    pub committed_activator: Option<Seq<char>>,
}

impl View for ShellLinkSession {
    type V = ShellLinkSessionView;

    closed spec fn view(&self) -> ShellLinkSessionView {
        ShellLinkSessionView {
            target_path: str_opt_view(self.target_path),
            staged_aumid: str_opt_view(self.staged_aumid),
            staged_activator: str_opt_view(self.staged_activator),
            committed_aumid: str_opt_view(self.committed_aumid),
            committed_activator: str_opt_view(self.committed_activator),
        }
    }
}

impl ShellLinkSession {
    /// A freshly instantiated link object: no target, nothing staged,
    /// nothing committed.
    pub fn create() -> (r: Self)
        ensures
            r@.target_path is None,
            r@.staged_aumid is None,
            r@.staged_activator is None,
            r@.committed_aumid is None,
            r@.committed_activator is None,
    {
        ShellLinkSession {
            target_path: None,
            staged_aumid: None,
            staged_activator: None,
            committed_aumid: None,
            committed_activator: None,
        }
    }

    /// Sets the link's target executable path.
    pub fn set_target(&mut self, path: String)
        ensures
            final(self)@ == (ShellLinkSessionView { target_path: Some(path@), ..old(self)@ }),
    {
        self.target_path = Some(path);
    }

    /// Stages the AUMID property; it is not durable until committed.
    pub fn stage_aumid(&mut self, value: String)
        ensures
            final(self)@ == (ShellLinkSessionView { staged_aumid: Some(value@), ..old(self)@ }),
    {
        self.staged_aumid = Some(value);
    }

    /// Stages the activator-CLSID property; it is not durable until
    /// committed.
    pub fn stage_activator(&mut self, value: String)
        ensures
            final(self)@ == (ShellLinkSessionView { staged_activator: Some(value@), ..old(self)@ }),
    {
        self.staged_activator = Some(value);
    }

    /// Commits the property store: every staged property becomes durable.
    pub fn commit(&mut self)
        ensures
            final(self)@ == (ShellLinkSessionView {
                committed_aumid: old(self)@.staged_aumid,
                committed_activator: old(self)@.staged_activator,
                ..old(self)@
            }),
    {
        self.committed_aumid = match &self.staged_aumid {
            Some(value) => Some(value.clone()),
            None => None,
        };
        self.committed_activator = match &self.staged_activator {
            Some(value) => Some(value.clone()),
            None => None,
        };
    }

    /// Persists the link as a shortcut record. Only a fully driven session —
    /// target set, both identity properties committed — may be persisted,
    /// and the record carries exactly the committed values.
    pub fn persist_record(self) -> (r: ShortcutRecord)
        requires
            self@.target_path is Some,
            self@.committed_aumid is Some,
            self@.committed_activator is Some,
        ensures
            r@ == (ShortcutRecordView {
                target_path: self@.target_path->0,
                aumid: self@.committed_aumid->0,
                activator_clsid: self@.committed_activator->0,
            }),
    {
        let target_path = match self.target_path {
            Some(p) => p,
            None => unreached(),
        };
        let aumid = match self.committed_aumid {
            Some(a) => a,
            None => unreached(),
        };
        let activator_clsid = match self.committed_activator {
            Some(c) => c,
            None => unreached(),
        };
        ShortcutRecord { target_path, aumid, activator_clsid }
    }
}

} // verus!
