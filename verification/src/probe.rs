//! Reading the answer of the session query.
//!
//! The query lists the sessions of logged-on users, one per line. The
//! caller runs it and hands over whether it ended well and what it printed.

use crate::chars::{blank, is_blank};
use vstd::prelude::*;

verus! {

/// What one query for logged-on users came to.
#[derive(Clone, Copy, Debug, PartialEq, Eq, Structural)]
pub enum Probe {
    /// The query ended well and listed nothing.
    NoUsers,
    /// The query ended well and listed at least one session.
    UsersPresent,
    /// The query could not be run, or ended with a failure status.
    Failed,
}

/// The reading of a query that ended with `success` and printed `output`.
pub open spec fn probe_of(success: bool, output: Seq<char>) -> Probe {
    if !success {
        Probe::Failed
    } else if is_blank(output) {
        Probe::NoUsers
    } else {
        Probe::UsersPresent
    }
}

impl Probe {
    /// Whether the monitor takes this reading as "somebody is there".
    ///
    /// A failed query says nothing about who is logged on. The monitor
    /// sides with the idle countdown then: only a listed session counts
    /// as presence, so a query that keeps failing does not keep the
    /// machine awake.
    pub open spec fn counts_as_present(self) -> bool {
        self is UsersPresent
    }

    /// Whether this reading stops the idle countdown.
    pub fn is_present(self) -> (present: bool)
        ensures
            present == self.counts_as_present(),
    {
        match self {
            Probe::UsersPresent => true,
            Probe::NoUsers => false,
            Probe::Failed => false,
        }
    }
}

/// Reads the answer of the session query.
///
/// `success` says whether the query ran and ended with a success status;
/// `output` is what it printed. Output of white space only lists nobody.
pub fn read_probe(success: bool, output: &str) -> (probe: Probe)
    ensures
        probe == probe_of(success, output@),
{
    if !success {
        Probe::Failed
    } else if blank(output) {
        Probe::NoUsers
    } else {
        Probe::UsersPresent
    }
}

/// Whether the answer of the session query shows a logged-on user.
///
/// This is `read_probe` followed by `Probe::is_present`: true exactly
/// when the query ended well and printed something besides white space.
pub fn is_any_user_logged_on(success: bool, output: &str) -> (present: bool)
    ensures
        present == probe_of(success, output@).counts_as_present(),
        present == (success && !is_blank(output@)),
{
    read_probe(success, output).is_present()
}

} // verus!
