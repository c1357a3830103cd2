//! One run of the startup step, as a machine that decides and a host that
//! performs: the host does the file-system work the machine asks for and
//! hands back what happened, until the machine reports an outcome.
use crate::error::{LoadError, Outcome, StoreError};
use crate::json::{decode_failure_text, decode_policies, decoded_policies, Policy};
use crate::path::{has_json_extension, is_json_extension, path_extension};
use crate::store::PolicyStore;
use vstd::prelude::*;
use vstd::string::*;

verus! {

/// Where a run stands. Each phase is left at most once, toward `Done`.
#[derive(Debug, Clone, Copy, PartialEq, Eq, Structural)]
pub enum Phase {
    /// Waiting to learn whether the file exists.
    Probing,
    /// Waiting for the file to be opened.
    Opening,
    /// Waiting for the file's contents.
    Reading,
    /// Holding decoded records for the store.
    Applying,
    /// The run is over.
    Done,
}

/// What the host must do next.
#[derive(Debug)]
pub enum Action {
    /// Find out whether a file exists at this path, then call `file_checked`.
    CheckExists(String),
    /// Open the file at this path for reading, then call `file_opened`.
    Open(String),
    /// Read the whole opened file as text, then call `file_read`.
    Read,
    /// Hand these records to the store through `apply`.
    Apply(Vec<Policy>),
    /// The run is over with this outcome, which the host reports.
    Finish(Outcome),
}

impl Action {
    /// Whether the run is over with exactly the outcome `o`.
    pub open spec fn ends_with(&self, o: Outcome) -> bool {
        match self {
            Action::Finish(x) => *x == o,
            _ => false,
        }
    }

    /// Whether the run is over because the text did not decode, with the
    /// decoder's message `msg`.
    pub open spec fn ends_in_decode_failure(&self, msg: Seq<char>) -> bool {
        match self {
            Action::Finish(Outcome::LoadFailed(LoadError::DecodeFailure(m))) => m@ == msg,
            _ => false,
        }
    }

    /// Whether the store is to receive exactly the records `ps`, in order.
    pub open spec fn applies(&self, ps: Seq<Policy>) -> bool {
        match self {
            Action::Apply(v) => v@ == ps,
            _ => false,
        }
    }

    /// Whether the host is asked whether a file exists at `path`.
    pub open spec fn asks_exists(&self, path: Seq<char>) -> bool {
        match self {
            Action::CheckExists(p) => p@ == path,
            _ => false,
        }
    }

    /// Whether the host is asked to open the file at `path`.
    pub open spec fn asks_open(&self, path: Seq<char>) -> bool {
        match self {
            Action::Open(p) => p@ == path,
            _ => false,
        }
    }
}

/// Whether a configured path switches the step off: absent or empty.
pub open spec fn is_disabled(configured: Option<String>) -> bool {
    match configured {
        None => true,
        Some(p) => p@.len() == 0,
    }
}

/// How a run ends on the store's reply to its one replace.
pub open spec fn outcome_of_reply(reply: Result<usize, StoreError>) -> Outcome {
    match reply {
        Ok(n) => Outcome::Applied(n),
        Err(e) => Outcome::ApplyFailed(e),
    }
}

/// One run of the startup step for one configured path.
pub struct Bootstrap {
    path: String,
    phase: Phase,
}

impl Bootstrap {
    /// The path this run loads from.
    pub closed spec fn spec_path(&self) -> Seq<char> {
        self.path@
    }

    /// Where this run stands.
    pub closed spec fn phase(&self) -> Phase {
        self.phase
    }

    /// Starts a run. An absent or empty path disables the step: the run is
    /// over at once, and no file is looked at and no store is called.
    /// Otherwise the first thing asked is whether the file exists.
    pub fn new(configured: Option<String>) -> (r: (Bootstrap, Action))
        ensures
            is_disabled(configured) ==> r.1.ends_with(Outcome::Disabled) && r.0.phase() is Done,
            !is_disabled(configured) ==> r.1.asks_exists(configured->Some_0@) && r.0.phase() is Probing
                && r.0.spec_path() == configured->Some_0@,
    {
        match configured {
            None => (
                Bootstrap { path: String::new(), phase: Phase::Done },
                Action::Finish(Outcome::Disabled),
            ),
            Some(p) => {
                if p.as_str().unicode_len() == 0 {
                    (Bootstrap { path: p, phase: Phase::Done }, Action::Finish(Outcome::Disabled))
                } else {
                    let asked = p.clone();
                    (Bootstrap { path: p, phase: Phase::Probing }, Action::CheckExists(asked))
                }
            },
        }
    }

    /// Where this run stands.
    pub fn current_phase(&self) -> (r: Phase)
        ensures
            r == self.phase(),
    {
        self.phase
    }

    /// The path this run loads from.
    pub fn path(&self) -> (r: &str)
        ensures
            r@ == self.spec_path(),
    {
        self.path.as_str()
    }

    /// Takes whether the file exists. A missing file ends the run with
    /// `NotFound`; then an extension other than exactly `json` ends it with
    /// `UnsupportedFormat`, before anything is opened. Otherwise the file is
    /// to be opened.
    pub fn file_checked(&mut self, exists: bool) -> (a: Action)
        requires
            old(self).phase() is Probing,
        ensures
            final(self).spec_path() == old(self).spec_path(),
            !exists ==> a.ends_with(Outcome::LoadFailed(LoadError::NotFound)) && final(self).phase() is Done,
            exists && !is_json_extension(path_extension(old(self).spec_path())) ==> a.ends_with(
                Outcome::LoadFailed(LoadError::UnsupportedFormat),
            ) && final(self).phase() is Done,
            exists && is_json_extension(path_extension(old(self).spec_path())) ==> a.asks_open(
                old(self).spec_path(),
            ) && final(self).phase() is Opening,
    {
        if !exists {
            self.phase = Phase::Done;
            return Action::Finish(Outcome::LoadFailed(LoadError::NotFound));
        }
        if !has_json_extension(self.path.as_str()) {
            self.phase = Phase::Done;
            return Action::Finish(Outcome::LoadFailed(LoadError::UnsupportedFormat));
        }
        self.phase = Phase::Opening;
        Action::Open(self.path.clone())
    }

    /// Takes the result of opening the file: a failure ends the run with
    /// `OpenFailure` and its cause; otherwise the contents are to be read.
    pub fn file_opened(&mut self, opened: Result<(), String>) -> (a: Action)
        requires
            old(self).phase() is Opening,
        ensures
            final(self).spec_path() == old(self).spec_path(),
            opened is Err ==> a.ends_with(Outcome::LoadFailed(LoadError::OpenFailure(opened->Err_0)))
                && final(self).phase() is Done,
            opened is Ok ==> a is Read && final(self).phase() is Reading,
    {
        match opened {
            Err(m) => {
                self.phase = Phase::Done;
                Action::Finish(Outcome::LoadFailed(LoadError::OpenFailure(m)))
            },
            Ok(()) => {
                self.phase = Phase::Reading;
                Action::Read
            },
        }
    }

    /// Takes the result of reading the file: a failure ends the run with
    /// `ReadFailure`; text is decoded, all of it or nothing.
    pub fn file_read(&mut self, read: Result<String, String>) -> (a: Action)
        requires
            old(self).phase() is Reading,
        ensures
            final(self).spec_path() == old(self).spec_path(),
            read is Err ==> a.ends_with(Outcome::LoadFailed(LoadError::ReadFailure(read->Err_0)))
                && final(self).phase() is Done,
            read is Ok ==> match decoded_policies(read->Ok_0@) {
                Some(ps) => a.applies(ps) && final(self).phase() is Applying,
                None => a.ends_in_decode_failure(decode_failure_text(read->Ok_0@))
                    && final(self).phase() is Done,
            },
    {
        match read {
            Err(m) => {
                self.phase = Phase::Done;
                Action::Finish(Outcome::LoadFailed(LoadError::ReadFailure(m)))
            },
            Ok(text) => {
                let d = decode_policies(text.as_str());
                self.decoded(d)
            },
        }
    }

    /// Takes the decoder's result for the file's text: records go to the
    /// store, exactly as decoded; a decoder message ends the run with
    /// `DecodeFailure`.
    pub fn decoded(&mut self, decoded: Result<Vec<Policy>, String>) -> (a: Action)
        requires
            old(self).phase() is Reading,
        ensures
            final(self).spec_path() == old(self).spec_path(),
            decoded is Ok ==> a.applies(decoded->Ok_0@) && final(self).phase() is Applying,
            decoded is Err ==> a.ends_with(Outcome::LoadFailed(LoadError::DecodeFailure(decoded->Err_0)))
                && final(self).phase() is Done,
    {
        match decoded {
            Ok(ps) => {
                self.phase = Phase::Applying;
                Action::Apply(ps)
            },
            Err(m) => {
                self.phase = Phase::Done;
                Action::Finish(Outcome::LoadFailed(LoadError::DecodeFailure(m)))
            },
        }
    }

    /// Hands the decoded records to the store in one replace and ends the run:
    /// `Applied` with the count the store reports, or `ApplyFailed` with the
    /// store's error, in which case the store keeps its previous set. The
    /// store is called exactly once, with exactly `policies`; nothing is
    /// retried.
    pub fn apply<S: PolicyStore>(&mut self, store: &mut S, policies: Vec<Policy>) -> (o: Outcome)
        requires
            old(self).phase() is Applying,
        ensures
            final(self).spec_path() == old(self).spec_path(),
            final(self).phase() is Done,
            final(store).calls() == old(store).calls().push(
                (policies@, final(store).calls().last().1),
            ),
            o == outcome_of_reply(final(store).calls().last().1),
            old(store).never_fails() ==> o is Applied,
            o is Applied ==> o->Applied_0 == policies@.len() && final(store).active() == policies@,
            o is ApplyFailed ==> final(store).active() == old(store).active(),
    {
        self.phase = Phase::Done;
        match store.update_policies(policies) {
            Ok(n) => Outcome::Applied(n),
            Err(e) => Outcome::ApplyFailed(e),
        }
    }
}

} // verus!
