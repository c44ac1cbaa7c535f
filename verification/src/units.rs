//! Measurement units, named in two forms: a short unique name used in
//! identifiers, and a display name used by exporters (empty for the
//! dimensionless unit).

use vstd::prelude::*;

verus! {

/// The unit a metric is expressed in.
#[derive(Debug, Clone)]
pub enum Unit {
    /// Dimensionless.
    Unity,
    /// Seconds.
    Second,
    /// Watts.
    Watt,
    /// Joules.
    Joule,
    /// Bytes.
    Byte,
    /// A unit this closed set does not know, with both of its names.
    Custom { unique_name: String, display_name: String },
}

/// The short unique name of a unit.
pub open spec fn spec_unique_name(u: Unit) -> Seq<char> {
    match u {
        Unit::Unity => "1"@,
        Unit::Second => "s"@,
        Unit::Watt => "W"@,
        Unit::Joule => "J"@,
        Unit::Byte => "B"@,
        Unit::Custom { unique_name, .. } => unique_name@,
    }
}

/// The display name of a unit; empty for the dimensionless unit.
pub open spec fn spec_display_name(u: Unit) -> Seq<char> {
    match u {
        Unit::Unity => ""@,
        Unit::Second => "second"@,
        Unit::Watt => "watt"@,
        Unit::Joule => "joule"@,
        Unit::Byte => "byte"@,
        Unit::Custom { display_name, .. } => display_name@,
    }
}

impl Unit {
    /// The short unique name of this unit.
    pub fn unique_name(&self) -> (r: String)
        ensures
            r@ == spec_unique_name(*self),
    {
        match self {
            Unit::Unity => "1".to_owned(),
            Unit::Second => "s".to_owned(),
            Unit::Watt => "W".to_owned(),
            Unit::Joule => "J".to_owned(),
            Unit::Byte => "B".to_owned(),
            Unit::Custom { unique_name, .. } => unique_name.clone(),
        }
    }

    /// The display name of this unit; empty for the dimensionless unit.
    pub fn display_name(&self) -> (r: String)
        ensures
            r@ == spec_display_name(*self),
    {
        match self {
            Unit::Unity => "".to_owned(),
            Unit::Second => "second".to_owned(),
            Unit::Watt => "watt".to_owned(),
            Unit::Joule => "joule".to_owned(),
            Unit::Byte => "byte".to_owned(),
            Unit::Custom { display_name, .. } => display_name.clone(),
        }
    }
}

} // verus!
