//! The development view of one idea: its checklist and notes, every edit of
//! which is saved at once with the whole current state.

use vstd::prelude::*;
use crate::error::IdeaError;
use crate::idea::{copy_strings, optional_text, texts, Idea};

verus! {

/// Where the view stands after loading its idea.
pub enum DevelopmentPhase {
    Loading,
    Ready,
    Failed(String),
}

/// The full state sent to the update request.
pub struct UpdateRequest {
    pub id: String,
    pub title: String,
    pub description: String,
    pub tags: Vec<String>,
    pub what_must_be_true: Vec<String>,
    pub development_notes: String,
}

/// Whether `req` carries the identifier, title, description and tags of
/// `idea` (an absent identifier as the empty text) with the given checklist
/// and notes.
pub open spec fn carries(
    req: UpdateRequest,
    idea: Idea,
    what_must_be_true: Seq<Seq<char>>,
    development_notes: Seq<char>,
) -> bool {
    &&& req.id@ == match optional_text(idea.id) {
        Some(t) => t,
        None => Seq::<char>::empty(),
    }
    &&& req.title@ == idea.title@
    &&& req.description@ == idea.description@
    &&& texts(req.tags@) == texts(idea.tags@)
    &&& texts(req.what_must_be_true@) == what_must_be_true
    &&& req.development_notes@ == development_notes
}

/// The development view: the loaded idea, the edit buffers seeded from it,
/// the statement being typed, and whether a save is under way.
pub struct IdeaDevelopment {
    pub phase: DevelopmentPhase,
    pub idea: Option<Idea>,
    pub what_must_be_true: Vec<String>,
    pub development_notes: String,
    pub new_statement: String,
    pub is_saving: bool,
}

impl IdeaDevelopment {
    /// A view waiting for its idea.
    pub fn new() -> (r: IdeaDevelopment)
        ensures
            r.phase is Loading,
            r.idea is None,
            r.what_must_be_true@.len() == 0,
            r.development_notes@.len() == 0,
            r.new_statement@.len() == 0,
            !r.is_saving,
    {
        IdeaDevelopment {
            phase: DevelopmentPhase::Loading,
            idea: None,
            what_must_be_true: Vec::new(),
            development_notes: String::new(),
            new_statement: String::new(),
            is_saving: false,
        }
    }

    /// Takes the outcome of loading the idea: on success the buffers are
    /// seeded from it, on failure the view shows the error.
    pub fn loaded(&mut self, outcome: Result<Idea, IdeaError>)
        ensures
            final(self).new_statement == old(self).new_statement,
            final(self).is_saving == old(self).is_saving,
            outcome matches Ok(idea) ==> {
                &&& final(self).phase is Ready
                &&& final(self).idea matches Some(i) && i@ == idea@
                &&& texts(final(self).what_must_be_true@) == texts(idea.what_must_be_true@)
                &&& final(self).development_notes@ == idea.development_notes@
            },
            outcome matches Err(e) ==> {
                &&& final(self).phase matches DevelopmentPhase::Failed(m) && m@
                    == "Failed to load idea: "@ + e.spec_message()
                &&& final(self).idea is None
                &&& final(self).what_must_be_true == old(self).what_must_be_true
                &&& final(self).development_notes == old(self).development_notes
            },
    {
        match outcome {
            Ok(idea) => {
                self.what_must_be_true = copy_strings(&idea.what_must_be_true);
                self.development_notes = idea.development_notes.clone();
                self.idea = Some(idea);
                self.phase = DevelopmentPhase::Ready;
            },
            Err(e) => {
                let text = e.message();
                self.idea = None;
                self.phase = DevelopmentPhase::Failed(
                    String::from_str("Failed to load idea: ").concat(text.as_str()),
                );
            },
        }
    }

    /// The save of the current state: given whenever an idea is loaded, and
    /// marks the view as saving.
    fn save(&mut self) -> (r: Option<UpdateRequest>)
        ensures
            final(self).phase == old(self).phase,
            final(self).idea == old(self).idea,
            final(self).what_must_be_true == old(self).what_must_be_true,
            final(self).development_notes == old(self).development_notes,
            final(self).new_statement == old(self).new_statement,
            r is Some <==> old(self).idea is Some,
            final(self).is_saving == (old(self).is_saving || r is Some),
            r matches Some(req) ==> carries(
                req,
                old(self).idea->0,
                texts(old(self).what_must_be_true@),
                old(self).development_notes@,
            ),
    {
        match &self.idea {
            Some(idea) => {
                let id = match &idea.id {
                    Some(t) => t.clone(),
                    None => String::new(),
                };
                let req = UpdateRequest {
                    id,
                    title: idea.title.clone(),
                    description: idea.description.clone(),
                    tags: copy_strings(&idea.tags),
                    what_must_be_true: copy_strings(&self.what_must_be_true),
                    development_notes: self.development_notes.clone(),
                };
                self.is_saving = true;
                Some(req)
            },
            None => None,
        }
    }

    /// Appends the statement being typed to the checklist, clears it and
    /// saves; an empty statement changes nothing.
    pub fn add_statement(&mut self) -> (r: Option<UpdateRequest>)
        ensures
            final(self).idea == old(self).idea,
            final(self).development_notes == old(self).development_notes,
            old(self).new_statement@.len() == 0 ==> r is None && final(self).what_must_be_true
                == old(self).what_must_be_true && final(self).new_statement == old(
                self,
            ).new_statement && final(self).is_saving == old(self).is_saving,
            old(self).new_statement@.len() > 0 ==> {
                &&& texts(final(self).what_must_be_true@) == texts(old(self).what_must_be_true@).push(
                    old(self).new_statement@,
                )
                &&& final(self).new_statement@.len() == 0
                &&& (r is Some <==> old(self).idea is Some)
                &&& final(self).is_saving == (old(self).is_saving || r is Some)
                &&& r matches Some(req) ==> carries(
                    req,
                    old(self).idea->0,
                    texts(final(self).what_must_be_true@),
                    old(self).development_notes@,
                )
            },
    {
        if self.new_statement.unicode_len() == 0 {
            return None;
        }
        let ghost before = self.what_must_be_true@;
        let statement = self.new_statement.clone();
        self.new_statement = String::new();
        self.what_must_be_true.push(statement);
        assert(texts(self.what_must_be_true@) =~= texts(before).push(old(self).new_statement@));
        self.save()
    }

    /// Replaces the checklist statement at `index` and saves.
    pub fn edit_statement(&mut self, index: usize, text: String) -> (r: Option<UpdateRequest>)
        requires
            index < old(self).what_must_be_true@.len(),
        ensures
            final(self).idea == old(self).idea,
            final(self).development_notes == old(self).development_notes,
            final(self).new_statement == old(self).new_statement,
            texts(final(self).what_must_be_true@) == texts(old(self).what_must_be_true@).update(
                index as int,
                text@,
            ),
            r is Some <==> old(self).idea is Some,
            final(self).is_saving == (old(self).is_saving || r is Some),
            r matches Some(req) ==> carries(
                req,
                old(self).idea->0,
                texts(final(self).what_must_be_true@),
                old(self).development_notes@,
            ),
    {
        let ghost before = self.what_must_be_true@;
        let ghost text_view = text@;
        self.what_must_be_true.set(index, text);
        assert(texts(self.what_must_be_true@) =~= texts(before).update(index as int, text_view));
        self.save()
    }

    /// Removes the checklist statement at `index` and saves.
    pub fn remove_statement(&mut self, index: usize) -> (r: Option<UpdateRequest>)
        requires
            index < old(self).what_must_be_true@.len(),
        ensures
            final(self).idea == old(self).idea,
            final(self).development_notes == old(self).development_notes,
            final(self).new_statement == old(self).new_statement,
            texts(final(self).what_must_be_true@) == texts(old(self).what_must_be_true@).remove(
                index as int,
            ),
            r is Some <==> old(self).idea is Some,
            final(self).is_saving == (old(self).is_saving || r is Some),
            r matches Some(req) ==> carries(
                req,
                old(self).idea->0,
                texts(final(self).what_must_be_true@),
                old(self).development_notes@,
            ),
    {
        let ghost before = self.what_must_be_true@;
        let _removed = self.what_must_be_true.remove(index);
        assert(texts(self.what_must_be_true@) =~= texts(before).remove(index as int));
        self.save()
    }

    /// Replaces the notes and saves.
    pub fn edit_notes(&mut self, text: String) -> (r: Option<UpdateRequest>)
        ensures
            final(self).idea == old(self).idea,
            final(self).what_must_be_true == old(self).what_must_be_true,
            final(self).new_statement == old(self).new_statement,
            final(self).development_notes@ == text@,
            r is Some <==> old(self).idea is Some,
            final(self).is_saving == (old(self).is_saving || r is Some),
            r matches Some(req) ==> carries(
                req,
                old(self).idea->0,
                texts(old(self).what_must_be_true@),
                text@,
            ),
    {
        self.development_notes = text;
        self.save()
    }

    /// A save has come back.
    pub fn save_finished(&mut self)
        ensures
            !final(self).is_saving,
            final(self).idea == old(self).idea,
            final(self).what_must_be_true == old(self).what_must_be_true,
            final(self).development_notes == old(self).development_notes,
    {
        self.is_saving = false;
    }
}

} // verus!
