//! The ways in which assembling and indexing a checkpoint fail.

use vstd::prelude::*;
use vstd::string::StringExecFns;

verus! {

/// What the failure says when the full node answered a request for a changed
/// object with anything but the object.
pub const PAST_OBJECT_MISSING: &'static str =
    "Failed to generate changed objects of checkpoint: past object not found";

/// A failure to assemble or to index a checkpoint.
#[derive(Clone, Debug, PartialEq, Eq)]
pub enum IndexerError {
    /// The full node failed a read; the text is the client's account of it.
    FullNodeReadingError(String),
    /// The changed objects of a checkpoint could not be had from the full
    /// node: a call failed, or an answer was not an object. The text says
    /// which.
    SerdeError(String),
    /// A checkpoint that starts an epoch came without the system state.
    SystemStateUnavailable,
    /// The bytes of the event that closes an epoch are not those of such an
    /// event.
    EpochEventMalformed,
}

/// The model of an [`IndexerError`].
pub ghost enum IndexerErrorView {
    FullNodeReadingError(Seq<char>),
    SerdeError(Seq<char>),
    SystemStateUnavailable,
    EpochEventMalformed,
}

impl DeepView for IndexerError {
    type V = IndexerErrorView;

    open spec fn deep_view(&self) -> IndexerErrorView {
        match self {
            IndexerError::FullNodeReadingError(text) => IndexerErrorView::FullNodeReadingError(
                text@,
            ),
            IndexerError::SerdeError(text) => IndexerErrorView::SerdeError(text@),
            IndexerError::SystemStateUnavailable => IndexerErrorView::SystemStateUnavailable,
            IndexerError::EpochEventMalformed => IndexerErrorView::EpochEventMalformed,
        }
    }
}

/// The failure for an answer of the full node that is not the object asked
/// for.
pub open spec fn past_object_missing() -> IndexerErrorView {
    IndexerErrorView::SerdeError(PAST_OBJECT_MISSING@)
}

impl IndexerError {
    /// The failure for an answer of the full node that is not the object
    /// asked for.
    pub fn past_object_missing() -> (r: IndexerError)
        ensures
            r.deep_view() == past_object_missing(),
    {
        IndexerError::SerdeError(String::from_str(PAST_OBJECT_MISSING))
    }
}

} // verus!
