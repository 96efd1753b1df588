//! The object that every recording call is handed: the upload switch, the
//! metrics store and the error log.

use vstd::prelude::*;
use crate::error_recording::{ErrorLog, ErrorRecord, ErrorType};
use crate::metrics::Metric;
use crate::storage::{Storage, StoreKey};

verus! {

/// The state that metrics record into.
pub struct Glean {
    /// Whether anything may be recorded at all.
    pub upload_enabled: bool,
    /// The values recorded so far.
    pub storage: Storage,
    /// The misuses reported so far.
    pub errors: ErrorLog,
}

/// The mathematical content of a `Glean` object.
pub struct GleanView {
    pub upload_enabled: bool,
    pub store: Map<StoreKey, Metric>,
    pub errors: Seq<ErrorRecord>,
}

impl GleanView {
    /// This state with one more record at the end of the error log.
    pub open spec fn with_error(self, identifier: Seq<char>, kind: ErrorType, message: Seq<char>)
        -> GleanView {
        GleanView { errors: self.errors.push(ErrorRecord { identifier, kind, message }), ..self }
    }
}

impl View for Glean {
    type V = GleanView;

    open spec fn view(&self) -> GleanView {
        GleanView {
            upload_enabled: self.upload_enabled,
            store: self.storage@,
            errors: self.errors@,
        }
    }
}

impl Glean {
    /// A fresh state: nothing stored, nothing reported.
    pub fn new(upload_enabled: bool) -> (glean: Glean)
        ensures
            glean@ == (GleanView {
                upload_enabled,
                store: Map::<StoreKey, Metric>::empty(),
                errors: Seq::<ErrorRecord>::empty(),
            }),
    {
        Glean { upload_enabled, storage: Storage::new(), errors: ErrorLog::new() }
    }

    /// Whether anything may be recorded at all.
    pub fn is_upload_enabled(&self) -> (enabled: bool)
        ensures
            enabled == self@.upload_enabled,
    {
        self.upload_enabled
    }

    /// Switches recording on or off; what is stored and reported stays.
    pub fn set_upload_enabled(&mut self, flag: bool)
        ensures
            final(self)@ == (GleanView { upload_enabled: flag, ..old(self)@ }),
    {
        self.upload_enabled = flag;
    }

    /// The metrics store.
    pub fn storage(&self) -> (storage: &Storage)
        ensures
            storage@ == self@.store,
    {
        &self.storage
    }
}

} // verus!
