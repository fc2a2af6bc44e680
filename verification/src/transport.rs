//! The kinds of transport, products, lines and operators as journeys carry
//! them.

use vstd::prelude::*;

verus! {

/// A mode of transport.
#[derive(Debug, Clone, Copy, PartialEq, Eq, Structural)]
pub enum TransportMode {
    /// Long-distance high-speed trains.
    HighSpeedTrain,
    /// Regional trains.
    RegionalTrain,
    /// Suburban trains.
    SuburbanTrain,
    /// Underground trains.
    Subway,
    /// Trams.
    Tram,
    /// Buses.
    Bus,
    /// Ferries.
    Ferry,
    /// Cable cars.
    Cablecar,
    /// Transport on demand.
    OnDemand,
    /// Anything else.
    Unknown,
}

/// A product: a kind of transport with its names.
pub struct ProductInfo {
    /// The mode of transport.
    pub mode: TransportMode,
    /// The name.
    pub name: String,
    /// A shorter name.
    pub short: String,
}

/// The operator of a line.
pub struct OperatorInfo {
    /// An id.
    pub id: String,
    /// The name.
    pub name: String,
}

/// A line serving a leg.
pub struct LineInfo {
    /// The name of the line.
    pub name: Option<String>,
    /// The number of the run.
    pub fahrt_nr: Option<String>,
    /// The mode of transport.
    pub mode: TransportMode,
    /// The product.
    pub product: ProductInfo,
    /// The operator.
    pub operator: Option<OperatorInfo>,
    /// The name of the product.
    pub product_name: Option<String>,
}

/// What kind of remark a remark is.
#[derive(Debug, Clone, Copy, PartialEq, Eq, Structural)]
pub enum RemarkKind {
    /// A hint, such as that bikes are not allowed.
    Hint,
    /// A status, such as that the run is cancelled.
    Status,
}

} // verus!
