//! The journey data of the bookmark files of earlier releases, and how it
//! maps to the journey data of now.  Reading the files is left to the
//! caller; the mapping is not exact where the kinds differ.

use vstd::prelude::*;

use crate::load_factor::ReportedLoad;
use crate::transport::{LineInfo, OperatorInfo, ProductInfo, RemarkKind, TransportMode};

verus! {

/// A product as earlier releases stored it.
pub struct Product {
    /// An id.
    pub id: String,
    /// The mode of transport.
    pub mode: Mode,
    /// The bit masks the product was selected by.
    pub bitmasks: Vec<u16>,
    /// The name.
    pub name: String,
    /// A shorter name.
    pub short: String,
}

/// A mode of transport as earlier releases stored it.
#[derive(Debug, Clone, Copy, PartialEq, Eq, Structural)]
pub enum Mode {
    /// Trains.
    Train,
    /// Buses.
    Bus,
    /// Boats.
    Watercraft,
    /// Taxis.
    Taxi,
    /// Walking.
    Walking,
    /// Gondolas.
    Gondola,
}

/// The load of a leg as earlier releases stored it.
#[derive(Debug, Clone, Copy, PartialEq, Eq, Structural)]
pub enum LoadFactor {
    /// Not full.
    LowToMedium,
    /// Full.
    High,
    /// Very full.
    VeryHigh,
    /// Extremely full.
    ExceptionallyHigh,
}

/// A line as earlier releases stored it.
pub struct Line {
    /// The name of the line.
    pub name: Option<String>,
    /// The number of the run.
    pub fahrt_nr: Option<String>,
    /// The mode of transport.
    pub mode: Mode,
    /// The product.
    pub product: Product,
    /// The operator.
    pub operator: Option<Operator>,
    /// The name of the product.
    pub product_name: Option<String>,
}

/// An operator as earlier releases stored it.
pub struct Operator {
    /// An id.
    pub id: String,
    /// The name.
    pub name: String,
}

/// A kind of remark as earlier releases stored it.
#[derive(Debug, Clone, Copy, PartialEq, Eq, Structural)]
pub enum RemarkType {
    /// A hint.
    Hint,
    /// A status.
    Status,
}

/// The mode of now for a mode of before: trains become regional trains,
/// boats ferries, taxis transport on demand, walking unknown and gondolas
/// trams.
pub open spec fn mode_now(m: Mode) -> TransportMode {
    match m {
        Mode::Train => TransportMode::RegionalTrain,
        Mode::Bus => TransportMode::Bus,
        Mode::Watercraft => TransportMode::Ferry,
        Mode::Taxi => TransportMode::OnDemand,
        Mode::Walking => TransportMode::Unknown,
        Mode::Gondola => TransportMode::Tram,
    }
}

/// The mode of now for a mode of before.
pub fn convert_mode(m: Mode) -> (r: TransportMode)
    ensures
        r == mode_now(m),
{
    match m {
        Mode::Train => TransportMode::RegionalTrain,
        Mode::Bus => TransportMode::Bus,
        Mode::Watercraft => TransportMode::Ferry,
        Mode::Taxi => TransportMode::OnDemand,
        Mode::Walking => TransportMode::Unknown,
        Mode::Gondola => TransportMode::Tram,
    }
}

/// The product of now for a product of before: the id and bit masks are
/// dropped.
pub fn convert_product(p: Product) -> (r: ProductInfo)
    ensures
        r.mode == mode_now(p.mode),
        r.name@ == p.name@,
        r.short@ == p.short@,
{
    ProductInfo { mode: convert_mode(p.mode), name: p.name, short: p.short }
}

/// The operator of now for an operator of before.
pub fn convert_operator(o: Operator) -> (r: OperatorInfo)
    ensures
        r.id@ == o.id@,
        r.name@ == o.name@,
{
    OperatorInfo { id: o.id, name: o.name }
}

/// The line of now for a line of before.
pub fn convert_line(l: Line) -> (r: LineInfo)
    ensures
        r.name == l.name,
        r.fahrt_nr == l.fahrt_nr,
        r.mode == mode_now(l.mode),
        r.product.mode == mode_now(l.product.mode),
        r.product.name@ == l.product.name@,
        r.product.short@ == l.product.short@,
        r.operator is Some <==> l.operator is Some,
        l.operator matches Some(o) ==> r.operator->0.id@ == o.id@ && r.operator->0.name@ == o.name@,
        r.product_name == l.product_name,
{
    let operator = match l.operator {
        Some(o) => Some(convert_operator(o)),
        None => None,
    };
    LineInfo {
        name: l.name,
        fahrt_nr: l.fahrt_nr,
        mode: convert_mode(l.mode),
        product: convert_product(l.product),
        operator,
        product_name: l.product_name,
    }
}

/// The load of now for a load of before: the same level.
pub fn convert_load_factor(l: LoadFactor) -> (r: ReportedLoad)
    ensures
        r == match l {
            LoadFactor::LowToMedium => ReportedLoad::LowToMedium,
            LoadFactor::High => ReportedLoad::High,
            LoadFactor::VeryHigh => ReportedLoad::VeryHigh,
            LoadFactor::ExceptionallyHigh => ReportedLoad::ExceptionallyHigh,
        },
{
    match l {
        LoadFactor::LowToMedium => ReportedLoad::LowToMedium,
        LoadFactor::High => ReportedLoad::High,
        LoadFactor::VeryHigh => ReportedLoad::VeryHigh,
        LoadFactor::ExceptionallyHigh => ReportedLoad::ExceptionallyHigh,
    }
}

/// The kind of remark of now for a kind of before: every remark of before
/// becomes a hint.
pub fn convert_remark_type(t: RemarkType) -> (r: RemarkKind)
    ensures
        r == RemarkKind::Hint,
{
    match t {
        RemarkType::Hint => RemarkKind::Hint,
        RemarkType::Status => RemarkKind::Hint,
    }
}

} // verus!
