use vstd::prelude::*;

use std::collections::HashMap;

use wayland_client::protocol::wl_data_offer::WlDataOffer;

verus! {

broadcast use vstd::std_specs::hash::group_hash_axioms;

#[verifier::external_type_specification]
#[verifier::external_body]
pub struct ExWlDataOffer(WlDataOffer);

/// Something copied: text or image bytes.
#[derive(Debug)]
pub enum ClipboardContent {
    Text(String),
    Image(Vec<u8>),
}

/// The clipboard: the current selection, and the contents offered by other
/// clients, by offer id.
pub struct Clipboard {
    offers: HashMap<u32, ClipboardContent>,
    current_offer: Option<WlDataOffer>,
    selection: Option<ClipboardContent>,
}

/// The state of a clipboard that its operations speak of.
pub struct ClipboardView {
    pub offers: Map<u32, ClipboardContent>,
    pub selection: Option<ClipboardContent>,
}

impl View for Clipboard {
    type V = ClipboardView;

    closed spec fn view(&self) -> ClipboardView {
        ClipboardView { offers: self.offers@, selection: self.selection }
    }
}

/// The clipboard after text is copied: the text becomes the selection.
pub open spec fn copied(c: ClipboardView, text: String) -> ClipboardView {
    ClipboardView { selection: Some(ClipboardContent::Text(text)), ..c }
}

/// The clipboard after offer `id` is recorded as holding `content`.
pub open spec fn with_offer(c: ClipboardView, id: u32, content: ClipboardContent) -> ClipboardView {
    ClipboardView { offers: c.offers.insert(id, content), ..c }
}

/// The clipboard after offer `id` is forgotten.
pub open spec fn without_offer(c: ClipboardView, id: u32) -> ClipboardView {
    ClipboardView { offers: c.offers.remove(id), ..c }
}

/// What pasting text gives: the selection's characters when the selection is
/// text, nothing when it is an image or empty.
pub open spec fn pasted(c: ClipboardView) -> Option<Seq<char>> {
    match c.selection {
        Some(ClipboardContent::Text(t)) => Some(t@),
        _ => None,
    }
}

impl Clipboard {
    /// An empty clipboard: no selection and no offers.
    pub fn new() -> (r: Self)
        ensures
            r@.offers == Map::<u32, ClipboardContent>::empty(),
            r@.selection is None,
    {
        Clipboard { offers: HashMap::new(), current_offer: None, selection: None }
    }

    pub fn get_selection(&self) -> (r: Option<&ClipboardContent>)
        ensures
            match r {
                Some(c) => self@.selection == Some(*c),
                None => self@.selection is None,
            },
    {
        match &self.selection {
            Some(c) => Some(c),
            None => None,
        }
    }

    pub fn set_selection(&mut self, content: ClipboardContent)
        ensures
            final(self)@ == (ClipboardView { selection: Some(content), ..old(self)@ }),
    {
        self.selection = Some(content);
    }

    pub fn clear_selection(&mut self)
        ensures
            final(self)@ == (ClipboardView { selection: None, ..old(self)@ }),
    {
        self.selection = None;
    }

    /// Records what offer `id` holds, replacing an earlier offer of that id.
    pub fn add_offer(&mut self, id: u32, content: ClipboardContent)
        ensures
            final(self)@ == with_offer(old(self)@, id, content),
    {
        self.offers.insert(id, content);
    }

    pub fn get_offer(&self, id: u32) -> (r: Option<&ClipboardContent>)
        ensures
            match r {
                Some(c) => self@.offers.contains_key(id) && self@.offers[id] == *c,
                None => !self@.offers.contains_key(id),
            },
    {
        self.offers.get(&id)
    }

    pub fn remove_offer(&mut self, id: u32)
        ensures
            final(self)@ == without_offer(old(self)@, id),
    {
        self.offers.remove(&id);
    }

    /// Makes `text` the selection.
    pub fn copy_text(&mut self, text: String)
        ensures
            final(self)@ == copied(old(self)@, text),
    {
        self.set_selection(ClipboardContent::Text(text));
    }

    /// The selection, when it is text.
    pub fn paste_text(&self) -> (r: Option<String>)
        ensures
            match r {
                Some(t) => pasted(self@) == Some(t@),
                None => pasted(self@) is None,
            },
    {
        match self.get_selection() {
            Some(ClipboardContent::Text(text)) => Some(text.clone()),
            _ => None,
        }
    }
}

impl Default for Clipboard {
    fn default() -> (r: Self)
        ensures
            r@.offers == Map::<u32, ClipboardContent>::empty(),
            r@.selection is None,
    {
        Self::new()
    }
}

/// Pasting right after copying gives back the copied text.
pub proof fn lemma_paste_after_copy(c: ClipboardView, text: String)
    ensures
        pasted(copied(c, text)) == Some(text@),
{
}

/// An offer reads back as what was last recorded for its id; forgetting an
/// offer leaves no content under its id; and recording or forgetting one
/// offer changes neither the other offers nor the selection.
pub proof fn lemma_offer_store(c: ClipboardView, id: u32, content: ClipboardContent, other: u32)
    requires
        other != id,
    ensures
        with_offer(c, id, content).offers.contains_key(id),
        with_offer(c, id, content).offers[id] == content,
        !without_offer(c, id).offers.contains_key(id),
        with_offer(c, id, content).offers.contains_key(other) == c.offers.contains_key(other),
        without_offer(c, id).offers.contains_key(other) == c.offers.contains_key(other),
        c.offers.contains_key(other) ==> with_offer(c, id, content).offers[other] == c.offers[other]
            && without_offer(c, id).offers[other] == c.offers[other],
        with_offer(c, id, content).selection == c.selection,
        without_offer(c, id).selection == c.selection,
{
}

/// Copying text leaves the offers as they were.
pub proof fn lemma_copy_keeps_offers(c: ClipboardView, text: String)
    ensures
        copied(c, text).offers == c.offers,
{
}

} // verus!
