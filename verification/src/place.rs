//! Places a journey starts, ends or passes through.

use vstd::prelude::*;

use crate::text::opt_view;

verus! {

/// A station, an address or some other point.
#[allow(inconsistent_fields)]
#[derive(Debug, Clone)]
pub enum Place {
    /// A station with a provider-specific id and maybe a human-readable name.
    Station { id: String, name: Option<String> },
    /// A postal address.
    Address { address: String },
    /// Any other point, known by an id, a name, or both.
    Point { id: Option<String>, name: Option<String> },
}

impl Place {
    /// Whether the place can be named: a point needs a name or an id.
    pub open spec fn named(self) -> bool {
        match self {
            Place::Point { id, name } => id is Some || name is Some,
            _ => true,
        }
    }

    /// The name shown for the place: the station's name (or its id when it
    /// has none), the address, or the point's name (or its id).
    pub open spec fn name_view(self) -> Seq<char> {
        match self {
            Place::Station { id, name } => match name {
                Some(n) => n@,
                None => id@,
            },
            Place::Address { address } => address@,
            Place::Point { id, name } => match name {
                Some(n) => n@,
                None => match id {
                    Some(i) => i@,
                    None => Seq::empty(),
                },
            },
        }
    }

    /// The id of the place; an address has none.
    pub open spec fn id_view(self) -> Option<Seq<char>> {
        match self {
            Place::Station { id, .. } => Some(id@),
            Place::Address { .. } => None,
            Place::Point { id, .. } => opt_view(id),
        }
    }

    /// The name shown for the place; none for a point with neither a name
    /// nor an id.
    pub fn name(&self) -> (r: Option<String>)
        ensures
            self.named() ==> (r matches Some(n) && n@ == self.name_view()),
            !self.named() ==> r is None,
    {
        match self {
            Place::Station { id, name } => match name {
                Some(n) => Some(n.clone()),
                None => Some(id.clone()),
            },
            Place::Address { address } => Some(address.clone()),
            Place::Point { id, name } => match name {
                Some(n) => Some(n.clone()),
                None => match id {
                    Some(i) => Some(i.clone()),
                    None => None,
                },
            },
        }
    }

    /// The id of the place, if it has one.
    pub fn id(&self) -> (r: Option<String>)
        ensures
            opt_view(r) == self.id_view(),
    {
        match self {
            Place::Station { id, .. } => Some(id.clone()),
            Place::Address { .. } => None,
            Place::Point { id, .. } => match id {
                Some(i) => Some(i.clone()),
                None => None,
            },
        }
    }
}

} // verus!
