//! One unit of fetched data: a title, the forum it was posted in, and a
//! relative link. Identity is structural: two records with the same three
//! fields are the same record.

use vstd::prelude::*;

verus! {

/// The mathematical value of a record: its three fields as character
/// sequences.
#[verifier::ext_equal]
pub struct RecordView {
    pub title: Seq<char>,
    pub forum: Seq<char>,
    pub href: Seq<char>,
}

/// A record as fetched from the remote source. Immutable after creation;
/// owned by the list it is inserted into.
#[derive(Debug)]
pub struct ThwDatum {
    pub title: String,
    pub forum: String,
    pub href: String,
}

impl View for ThwDatum {
    type V = RecordView;

    open spec fn view(&self) -> RecordView {
        RecordView { title: self.title@, forum: self.forum@, href: self.href@ }
    }
}

impl DeepView for ThwDatum {
    type V = RecordView;

    open spec fn deep_view(&self) -> RecordView {
        self@
    }
}

impl PartialEq for ThwDatum {
    /// Structural equality: all three fields equal.
    fn eq(&self, other: &ThwDatum) -> (r: bool) {
        self.title == other.title && self.forum == other.forum && self.href == other.href
    }
}

impl vstd::std_specs::cmp::PartialEqSpecImpl for ThwDatum {
    open spec fn obeys_eq_spec() -> bool {
        true
    }

    open spec fn eq_spec(&self, other: &ThwDatum) -> bool {
        self@ == other@
    }
}

impl Eq for ThwDatum {}

impl Clone for ThwDatum {
    /// The clone denotes the same record.
    fn clone(&self) -> (r: ThwDatum)
        ensures
            r@ == self@,
    {
        ThwDatum { title: self.title.clone(), forum: self.forum.clone(), href: self.href.clone() }
    }
}

} // verus!
