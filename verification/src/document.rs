//! A model of the mutable HTML document the finalizer writes into.
//!
//! The real document is an external collaborator; the engine reads only a
//! little of it: whether a head is present, how many children the body holds,
//! and which directive elements still stand.  This type records exactly those
//! facts together with every mutation the engine performs — markup appended to
//! the head or the body, and elements replaced by generated markup — so that
//! the finalizer's effect on the document is a verified function of its
//! inputs.

use vstd::prelude::*;
use crate::errors::Error;

verus! {

/// The ghost value of a document.
pub ghost struct DocView {
    /// Whether the document has a head element.
    pub has_head: bool,
    /// How many children the body held before any injection.
    pub body_children: nat,
    /// Markup fragments appended to the head, oldest first.
    pub head_appends: Seq<Seq<char>>,
    /// Markup fragments appended to the body, oldest first.
    pub body_appends: Seq<Seq<char>>,
    /// Ids of the directive elements still present.
    pub elements: Seq<usize>,
    /// Elements replaced so far, with the markup that replaced them.
    pub replacements: Seq<(usize, Seq<char>)>,
}

/// The engine's view of the HTML document.
pub struct Document {
    /// Whether the document has a head element.
    pub has_head: bool,
    /// How many children the body held before any injection.
    pub body_children: usize,
    /// Markup fragments appended to the head, oldest first.
    pub head_appends: Vec<String>,
    /// Markup fragments appended to the body, oldest first.
    pub body_appends: Vec<String>,
    /// Ids of the directive elements still present.
    pub elements: Vec<usize>,
    /// Elements replaced so far, with the markup that replaced them.
    pub replacements: Vec<(usize, String)>,
}

impl View for Document {
    type V = DocView;

    open spec fn view(&self) -> DocView {
        DocView {
            has_head: self.has_head,
            body_children: self.body_children as nat,
            head_appends: self.head_appends@.map_values(|s: String| s@),
            body_appends: self.body_appends@.map_values(|s: String| s@),
            elements: self.elements@,
            replacements: self.replacements@.map_values(|p: (usize, String)| (p.0, p.1@)),
        }
    }
}

/// The first position of `id` among the remaining directive elements.
pub open spec fn spec_find_id(elements: Seq<usize>, id: usize) -> Option<int>
    decreases elements.len(),
{
    if elements.len() == 0 {
        None
    } else if elements[0] == id {
        Some(0int)
    } else {
        match spec_find_id(elements.skip(1), id) {
            Some(i) => Some(i + 1),
            None => None,
        }
    }
}

impl Document {
    /// A fresh document holding no injected markup yet.
    pub fn new(has_head: bool, body_children: usize, elements: Vec<usize>) -> (r: Document)
        ensures
            r@.has_head == has_head,
            r@.body_children == body_children as nat,
            r@.head_appends == Seq::<Seq<char>>::empty(),
            r@.body_appends == Seq::<Seq<char>>::empty(),
            r@.elements == elements@,
            r@.replacements == Seq::<(usize, Seq<char>)>::empty(),
    {
        let r = Document {
            has_head,
            body_children,
            head_appends: Vec::new(),
            body_appends: Vec::new(),
            elements,
            replacements: Vec::new(),
        };
        proof {
            assert(r@.head_appends =~= Seq::<Seq<char>>::empty());
            assert(r@.body_appends =~= Seq::<Seq<char>>::empty());
            assert(r@.replacements =~= Seq::<(usize, Seq<char>)>::empty());
        }
        r
    }

    /// True when the body holds nothing: no original children and nothing
    /// appended.
    pub fn body_is_empty(&self) -> (r: bool)
        ensures
            r == (self@.body_children == 0 && self@.body_appends.len() == 0),
    {
        self.body_children == 0 && self.body_appends.len() == 0
    }

    /// Append a markup fragment to the document head.  Fails, leaving the
    /// document untouched, when the document has no head.
    pub fn append_head(&mut self, html: String) -> (r: Result<(), Error>)
        ensures
            match r {
                Ok(()) => old(self)@.has_head && final(self)@ == (DocView {
                    head_appends: old(self)@.head_appends.push(html@),
                    ..old(self)@
                }),
                Err(e) => !old(self)@.has_head && final(self)@ == old(self)@ && (e matches
                    Error::Dom(_)),
            },
    {
        if self.has_head {
            self.head_appends.push(html);
            proof {
                assert(self@.head_appends =~= old(self)@.head_appends.push(html@));
                assert(self@ == (DocView { head_appends: self@.head_appends, ..old(self)@ }));
            }
            Ok(())
        } else {
            Err(Error::Dom(String::from_str("document has no <head> element to receive markup")))
        }
    }

    /// Append a markup fragment to the document body.
    pub fn append_body(&mut self, html: String)
        ensures
            final(self)@ == (DocView {
                body_appends: old(self)@.body_appends.push(html@),
                ..old(self)@
            }),
    {
        self.body_appends.push(html);
        proof {
            assert(self@.body_appends =~= old(self)@.body_appends.push(html@));
            assert(self@ == (DocView { body_appends: self@.body_appends, ..old(self)@ }));
        }
    }

    /// Replace the directive element bearing `id` with a markup fragment.
    /// Fails, leaving the document untouched, when no such element remains.
    pub fn replace_element(&mut self, id: usize, html: String) -> (r: Result<(), Error>)
        ensures
            match r {
                Ok(()) => spec_find_id(old(self)@.elements, id) is Some && final(self)@
                    == (DocView {
                    elements: old(self)@.elements.remove(
                        spec_find_id(old(self)@.elements, id)->Some_0,
                    ),
                    replacements: old(self)@.replacements.push((id, html@)),
                    ..old(self)@
                }),
                Err(e) => spec_find_id(old(self)@.elements, id) is None && final(self)@ == old(
                    self,
                )@ && (e matches Error::Dom(_)),
            },
    {
        let n = self.elements.len();
        let mut i: usize = 0;
        proof {
            assert(self@.elements.skip(0) =~= self@.elements);
        }
        while i < n
            invariant
                self@ == old(self)@,
                n == self.elements.len(),
                i <= n,
                spec_find_id(self@.elements.skip(i as int), id) matches Some(k) ==> (
                spec_find_id(self@.elements, id) == Some(k + i)),
                spec_find_id(self@.elements.skip(i as int), id) is None ==> spec_find_id(
                    self@.elements,
                    id,
                ) is None,
                forall|j: int| 0 <= j < i ==> self@.elements[j] != id,
            decreases n - i,
        {
            proof {
                assert(self@.elements.skip(i as int)[0] == self@.elements[i as int]);
                assert(self@.elements.skip(i as int).skip(1) =~= self@.elements.skip(i + 1));
            }
            if self.elements[i] == id {
                proof {
                    assert(spec_find_id(self@.elements.skip(i as int), id) == Some(0int));
                }
                let _removed: usize = self.elements.remove(i);
                self.replacements.push((id, html));
                proof {
                    assert(spec_find_id(old(self)@.elements, id) == Some(i as int));
                    assert(self@.elements =~= old(self)@.elements.remove(i as int));
                    assert(self@.replacements =~= old(self)@.replacements.push((id, html@)));
                    assert(self@ == (DocView {
                        elements: self@.elements,
                        replacements: self@.replacements,
                        ..old(self)@
                    }));
                }
                return Ok(());
            }
            i = i + 1;
        }
        proof {
            assert(self@.elements.skip(n as int) =~= Seq::<usize>::empty());
        }
        Err(
            Error::Dom(
                String::from_str("no directive element with the pipeline's id remains in the document"),
            ),
        )
    }
}

} // verus!
