//! A discount card a traveller can hold, such as a BahnCard.

use vstd::prelude::*;

use crate::i18n::{gettext, translation_of};

verus! {

/// A discount card, known by its id.
#[derive(Debug, Clone)]
pub struct DiscountCard {
    id: String,
}

impl DiscountCard {
    /// The card with id `id`.
    pub fn new(id: &str) -> (r: DiscountCard)
        ensures
            r.id_spec() == id@,
    {
        DiscountCard { id: String::from_str(id) }
    }

    /// The id of the card.
    pub closed spec fn id_spec(&self) -> Seq<char> {
        self.id@
    }

    /// The id of the card.
    pub fn id(&self) -> (r: String)
        ensures
            r@ == self.id_spec(),
    {
        self.id.clone()
    }

    /// The name shown for the card: the translation of its id.
    pub fn name(&self) -> (r: String)
        ensures
            translation_of(self.id_spec(), r@),
    {
        gettext(self.id.as_str())
    }
}

} // verus!
