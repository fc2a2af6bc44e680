//! Remarks on a leg, such as bike rules or on-board amenities.

use vstd::prelude::*;

verus! {

/// What a remark is about.
#[derive(Debug, Clone, Copy, PartialEq, Eq, Structural)]
pub enum RemarkAssociation {
    /// Bikes allowed, disallowed or limited.
    Bike,
    /// Accessible equipment.
    Accessibility,
    /// Tickets sold on board.
    Ticket,
    /// Power sockets.
    Power,
    /// Air conditioning.
    AirConditioning,
    /// Wireless internet.
    WiFi,
    /// No first class.
    OnlySecondClass,
    /// The association could not be decoded.
    Unknown,
    /// No association given.
    NotGiven,
}

/// A remark on a leg or a stop.
#[derive(Debug, Clone)]
pub struct Remark {
    /// The provider-specific code.
    pub code: String,
    /// The text shown.
    pub text: String,
    /// What the remark is about.
    pub association: RemarkAssociation,
}

/// The icon shown for a remark association.
pub open spec fn association_icon(association: RemarkAssociation) -> Seq<char> {
    match association {
        RemarkAssociation::Bike => "cycling-symbolic"@,
        RemarkAssociation::Accessibility => "wheelchair-symbolic"@,
        RemarkAssociation::Ticket => "ticket-symbolic"@,
        RemarkAssociation::Power => "power-symbolic"@,
        RemarkAssociation::AirConditioning => "thermometer-symbolic"@,
        RemarkAssociation::WiFi => "network-wireless-signal-excellent-symbolic"@,
        RemarkAssociation::OnlySecondClass => "ticket-second-class-symbolic"@,
        _ => "dialog-information-symbolic"@,
    }
}

/// The name of the icon shown for a remark association.
pub fn association_to_icon(association: &RemarkAssociation) -> (r: &'static str)
    ensures
        r@ == association_icon(*association),
{
    match association {
        RemarkAssociation::Bike => "cycling-symbolic",
        RemarkAssociation::Accessibility => "wheelchair-symbolic",
        RemarkAssociation::Ticket => "ticket-symbolic",
        RemarkAssociation::Power => "power-symbolic",
        RemarkAssociation::AirConditioning => "thermometer-symbolic",
        RemarkAssociation::WiFi => "network-wireless-signal-excellent-symbolic",
        RemarkAssociation::OnlySecondClass => "ticket-second-class-symbolic",
        _ => "dialog-information-symbolic",
    }
}

impl Remark {
    /// The name of the icon shown for this remark.
    pub fn icon_name(&self) -> (r: String)
        ensures
            r@ == association_icon(self.association),
    {
        String::from_str(association_to_icon(&self.association))
    }
}

} // verus!
