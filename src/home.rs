//! The home page: whether the submission form is open, and the counter whose
//! every change asks the list to be fetched again.

use vstd::prelude::*;

verus! {

/// The counter after one more refresh, wrapping at the top of its range.
pub open spec fn next_trigger(t: u32) -> u32 {
    if t == u32::MAX {
        0
    } else {
        (t + 1) as u32
    }
}

/// The home page state.
pub struct Home {
    pub refresh_trigger: u32,
    pub show_form: bool,
}

impl Home {
    /// The page as first shown: form closed, no refresh asked yet.
    pub fn new() -> (r: Home)
        ensures
            r.refresh_trigger == 0,
            !r.show_form,
    {
        Home { refresh_trigger: 0, show_form: false }
    }

    /// Opens the submission form.
    pub fn open_form(&mut self)
        ensures
            final(self).show_form,
            final(self).refresh_trigger == old(self).refresh_trigger,
    {
        self.show_form = true;
    }

    /// Closes the submission form without submitting.
    pub fn cancel_form(&mut self)
        ensures
            !final(self).show_form,
            final(self).refresh_trigger == old(self).refresh_trigger,
    {
        self.show_form = false;
    }

    fn bump(&mut self)
        ensures
            final(self).refresh_trigger == next_trigger(old(self).refresh_trigger),
            final(self).show_form == old(self).show_form,
    {
        self.refresh_trigger = if self.refresh_trigger == u32::MAX {
            0
        } else {
            self.refresh_trigger + 1
        };
    }

    /// A submission succeeded: the form closes and the list is fetched again.
    pub fn submit_succeeded(&mut self)
        ensures
            !final(self).show_form,
            final(self).refresh_trigger == next_trigger(old(self).refresh_trigger),
            final(self).refresh_trigger != old(self).refresh_trigger,
    {
        self.bump();
        self.show_form = false;
    }

    /// A delete succeeded: the list is fetched again.
    pub fn delete_succeeded(&mut self)
        ensures
            final(self).show_form == old(self).show_form,
            final(self).refresh_trigger == next_trigger(old(self).refresh_trigger),
            final(self).refresh_trigger != old(self).refresh_trigger,
    {
        self.bump();
    }
}

} // verus!
