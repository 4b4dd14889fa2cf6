//! The list of ideas: its loading state and the confirm-then-delete flow.

use vstd::prelude::*;
use crate::error::IdeaError;
use crate::idea::{optional_text, Idea};

verus! {

/// Where the list stands after its last fetch.
pub enum ListPhase {
    Loading,
    Ready(Vec<Idea>),
    Failed(String),
}

/// The list of ideas, and the identifier awaiting a confirmation to delete.
pub struct IdeaList {
    pub phase: ListPhase,
    pub pending_delete: Option<String>,
}

impl IdeaList {
    /// A list waiting for its first fetch.
    pub fn new() -> (r: IdeaList)
        ensures
            r.phase is Loading,
            r.pending_delete is None,
    {
        IdeaList { phase: ListPhase::Loading, pending_delete: None }
    }

    /// Starts fetching the list again.
    pub fn refresh(&mut self)
        ensures
            final(self).phase is Loading,
            final(self).pending_delete == old(self).pending_delete,
    {
        self.phase = ListPhase::Loading;
    }

    /// Takes the outcome of a fetch: the ideas, or the text of the failure.
    pub fn loaded(&mut self, outcome: Result<Vec<Idea>, IdeaError>)
        ensures
            final(self).pending_delete == old(self).pending_delete,
            outcome matches Ok(v) ==> final(self).phase == ListPhase::Ready(v),
            outcome matches Err(e) ==> final(self).phase matches ListPhase::Failed(m) && m@
                == "Failed to load ideas: "@ + e.spec_message(),
    {
        match outcome {
            Ok(v) => {
                self.phase = ListPhase::Ready(v);
            },
            Err(e) => {
                let text = e.message();
                self.phase = ListPhase::Failed(
                    String::from_str("Failed to load ideas: ").concat(text.as_str()),
                );
            },
        }
    }

    /// The user asked to delete `idea`; only an idea with an identifier can
    /// be deleted, and only after a confirmation, which the answer asks for.
    pub fn request_delete(&mut self, idea: &Idea) -> (ask: bool)
        ensures
            ask == idea.id is Some,
            ask ==> optional_text(final(self).pending_delete) == optional_text(idea.id),
            !ask ==> final(self).pending_delete == old(self).pending_delete,
            final(self).phase == old(self).phase,
    {
        match &idea.id {
            Some(id) => {
                self.pending_delete = Some(id.clone());
                true
            },
            None => false,
        }
    }

    /// The user answered the confirmation; the answer is the identifier to
    /// delete, given only when the user confirmed.
    pub fn confirm_delete(&mut self, confirmed: bool) -> (r: Option<String>)
        ensures
            final(self).pending_delete is None,
            final(self).phase == old(self).phase,
            optional_text(r) == if confirmed {
                optional_text(old(self).pending_delete)
            } else {
                None
            },
    {
        let pending = self.pending_delete.take();
        if confirmed {
            pending
        } else {
            None
        }
    }

    /// Takes the outcome of a delete; after a success the list is fetched
    /// again, which the answer asks for.
    pub fn delete_finished(&mut self, outcome: Result<(), IdeaError>) -> (refresh: bool)
        ensures
            refresh == outcome is Ok,
            refresh ==> final(self).phase is Loading,
            !refresh ==> final(self).phase == old(self).phase,
            final(self).pending_delete == old(self).pending_delete,
    {
        match outcome {
            Ok(()) => {
                self.phase = ListPhase::Loading;
                true
            },
            Err(_) => false,
        }
    }
}

} // verus!
