//! The submission form: turning the comma-separated tag input into tags, and
//! the form's state around one submission.

use vstd::prelude::*;
use crate::error::IdeaError;
use crate::idea::{texts, Idea};

verus! {

/// The pieces of `s` between commas, as `str::split(',')` gives them: a text
/// with `n` commas has `n + 1` pieces, some of which may be empty.
pub open spec fn comma_pieces(s: Seq<char>) -> Seq<Seq<char>>
    decreases s.len(),
{
    if s.len() == 0 {
        seq![seq![]]
    } else {
        let before = comma_pieces(s.drop_last());
        if s.last() == ',' {
            before.push(seq![])
        } else {
            before.update(before.len() - 1, before.last().push(s.last()))
        }
    }
}

/// Whether a character has the Unicode `White_Space` property.
pub open spec fn is_white_space(c: char) -> bool {
    let n = c as u32;
    ||| 0x9 <= n <= 0xd
    ||| n == 0x20
    ||| n == 0x85
    ||| n == 0xa0
    ||| n == 0x1680
    ||| 0x2000 <= n <= 0x200a
    ||| n == 0x2028
    ||| n == 0x2029
    ||| n == 0x202f
    ||| n == 0x205f
    ||| n == 0x3000
}

/// A text without its leading whitespace.
pub open spec fn without_leading_space(s: Seq<char>) -> Seq<char>
    decreases s.len(),
{
    if s.len() > 0 && is_white_space(s[0]) {
        without_leading_space(s.drop_first())
    } else {
        s
    }
}

/// A text without its trailing whitespace.
pub open spec fn without_trailing_space(s: Seq<char>) -> Seq<char>
    decreases s.len(),
{
    if s.len() > 0 && is_white_space(s.last()) {
        without_trailing_space(s.drop_last())
    } else {
        s
    }
}

/// A text with leading and trailing whitespace removed.
pub open spec fn trimmed(s: Seq<char>) -> Seq<char> {
    without_trailing_space(without_leading_space(s))
}

/// The non-empty texts of `pieces`, in order.
pub open spec fn nonempty_texts(pieces: Seq<Seq<char>>) -> Seq<Seq<char>> {
    pieces.filter(|p: Seq<char>| p.len() > 0)
}

/// The tags written in a comma-separated input: each piece trimmed, the empty
/// ones left out.
pub open spec fn tags_of(input: Seq<char>) -> Seq<Seq<char>> {
    nonempty_texts(comma_pieces(input).map_values(|p: Seq<char>| trimmed(p)))
}

proof fn lemma_comma_pieces_nonempty(s: Seq<char>)
    ensures
        comma_pieces(s).len() >= 1,
    decreases s.len(),
{
    if s.len() > 0 {
        lemma_comma_pieces_nonempty(s.drop_last());
    }
}

/// Relies on `str::trim`: it removes the leading and trailing characters
/// that have the Unicode `White_Space` property.
#[verifier::external_body]
fn trim_text(s: &str) -> (r: String)
    ensures
        r@ == trimmed(s@),
{
    s.trim().to_string()
}

/// The pieces of `s` between commas.
pub fn split_commas(s: &str) -> (r: Vec<String>)
    ensures
        texts(r@) == comma_pieces(s@),
{
    let n = s.unicode_len();
    let mut pieces: Vec<String> = Vec::new();
    let mut start: usize = 0;
    let mut i: usize = 0;
    assert(s@.take(0) =~= Seq::<char>::empty());
    assert(texts(pieces@).push(s@.subrange(0, 0)) =~= seq![Seq::<char>::empty()]);
    while i < n
        invariant
            n == s@.len(),
            start <= i <= n,
            texts(pieces@).push(s@.subrange(start as int, i as int)) == comma_pieces(s@.take(i as int)),
        decreases n - i,
    {
        let c = s.get_char(i);
        let ghost prev = s@.take(i as int);
        proof {
            lemma_comma_pieces_nonempty(prev);
            assert(s@.take(i + 1).drop_last() =~= prev);
            assert(s@.take(i + 1).last() == c);
        }
        if c == ',' {
            let piece = String::from_str(s.substring_char(start, i));
            let ghost old_pieces = pieces@;
            pieces.push(piece);
            assert(texts(pieces@) =~= texts(old_pieces).push(s@.subrange(start as int, i as int)));
            assert(comma_pieces(s@.take(i + 1)) == comma_pieces(prev).push(seq![]));
            start = i + 1;
            assert(s@.subrange(start as int, i + 1) =~= Seq::<char>::empty());
            assert(texts(pieces@).push(s@.subrange(start as int, i + 1)) =~= comma_pieces(
                s@.take(i + 1),
            ));
        } else {
            assert(s@.subrange(start as int, i + 1) =~= s@.subrange(start as int, i as int).push(c));
            assert(texts(pieces@).push(s@.subrange(start as int, i + 1)) =~= comma_pieces(
                s@.take(i + 1),
            ));
        }
        i = i + 1;
    }
    pieces.push(String::from_str(s.substring_char(start, n)));
    assert(s@.take(n as int) =~= s@);
    assert(texts(pieces@) =~= comma_pieces(s@));
    pieces
}

/// The non-empty strings of `pieces`, in order.
pub fn keep_nonempty(pieces: Vec<String>) -> (r: Vec<String>)
    ensures
        texts(r@) == nonempty_texts(texts(pieces@)),
        forall|i: int| 0 <= i < r@.len() ==> (#[trigger] r@[i])@.len() > 0,
{
    let mut out: Vec<String> = Vec::new();
    let mut i: usize = 0;
    while i < pieces.len()
        invariant
            i <= pieces@.len(),
            texts(out@) == nonempty_texts(texts(pieces@).take(i as int)),
            forall|j: int| 0 <= j < out@.len() ==> (#[trigger] out@[j])@.len() > 0,
        decreases pieces@.len() - i,
    {
        let ghost before = out@;
        if pieces[i].unicode_len() > 0 {
            out.push(pieces[i].clone());
        }
        proof {
            let t = texts(pieces@).take(i + 1);
            assert(t.drop_last() =~= texts(pieces@).take(i as int));
            reveal(Seq::filter);
            assert(texts(out@) =~= nonempty_texts(t));
        }
        i = i + 1;
    }
    assert(texts(pieces@).take(pieces@.len() as int) =~= texts(pieces@));
    out
}

/// The tags written in a comma-separated input.
pub fn parse_tags(input: &str) -> (r: Vec<String>)
    ensures
        texts(r@) == tags_of(input@),
        forall|i: int| 0 <= i < r@.len() ==> (#[trigger] r@[i])@.len() > 0,
{
    let pieces = split_commas(input);
    let mut trimmed_pieces: Vec<String> = Vec::new();
    let mut i: usize = 0;
    while i < pieces.len()
        invariant
            i <= pieces@.len(),
            trimmed_pieces@.len() == i,
            forall|j: int| 0 <= j < i ==> (#[trigger] trimmed_pieces@[j])@ == trimmed(pieces@[j]@),
        decreases pieces@.len() - i,
    {
        trimmed_pieces.push(trim_text(pieces[i].as_str()));
        i = i + 1;
    }
    assert(texts(trimmed_pieces@) =~= texts(pieces@).map_values(|p: Seq<char>| trimmed(p)));
    keep_nonempty(trimmed_pieces)
}

/// What the form hands to the submit request.
pub struct SubmitRequest {
    pub title: String,
    pub description: String,
    pub tags: Vec<String>,
}

/// The submission form: its three inputs, whether a submission is under way,
/// and the message shown after the last one.
pub struct IdeaForm {
    pub title: String,
    pub description: String,
    pub tags_input: String,
    pub is_submitting: bool,
    pub message: String,
}

impl IdeaForm {
    /// An empty form.
    pub fn new() -> (r: IdeaForm)
        ensures
            r.title@.len() == 0,
            r.description@.len() == 0,
            r.tags_input@.len() == 0,
            !r.is_submitting,
            r.message@.len() == 0,
    {
        IdeaForm {
            title: String::new(),
            description: String::new(),
            tags_input: String::new(),
            is_submitting: false,
            message: String::new(),
        }
    }

    /// Starts a submission: the request carries the title, the description
    /// and the tags of the tag input.
    pub fn begin_submit(&mut self) -> (r: SubmitRequest)
        ensures
            final(self).is_submitting,
            final(self).title == old(self).title,
            final(self).description == old(self).description,
            final(self).tags_input == old(self).tags_input,
            final(self).message == old(self).message,
            r.title@ == old(self).title@,
            r.description@ == old(self).description@,
            texts(r.tags@) == tags_of(old(self).tags_input@),
    {
        self.is_submitting = true;
        SubmitRequest {
            title: self.title.clone(),
            description: self.description.clone(),
            tags: parse_tags(self.tags_input.as_str()),
        }
    }

    /// Ends a submission with its outcome. On success the inputs are cleared
    /// and the answer asks for the list to be fetched again; on failure the
    /// inputs are kept and the message tells the error.
    pub fn finish_submit(&mut self, outcome: Result<Idea, IdeaError>) -> (refresh: bool)
        ensures
            !final(self).is_submitting,
            refresh == outcome is Ok,
            outcome is Ok ==> {
                &&& final(self).title@.len() == 0
                &&& final(self).description@.len() == 0
                &&& final(self).tags_input@.len() == 0
                &&& final(self).message@ == "idea submitted successfully"@
            },
            outcome matches Err(e) ==> {
                &&& final(self).title == old(self).title
                &&& final(self).description == old(self).description
                &&& final(self).tags_input == old(self).tags_input
                &&& final(self).message@ == "error: "@ + e.spec_message()
            },
    {
        self.is_submitting = false;
        match outcome {
            Ok(_) => {
                self.message = String::from_str("idea submitted successfully");
                self.title = String::new();
                self.description = String::new();
                self.tags_input = String::new();
                true
            },
            Err(e) => {
                let text = e.message();
                self.message = String::from_str("error: ").concat(text.as_str());
                false
            },
        }
    }
}

} // verus!
