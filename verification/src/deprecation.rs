//! The fix-ups that the proxy knows, each with what it took from the request path.

use vstd::prelude::*;

verus! {

/// The fix-up of 2024-11-30: records of a zone's DNS listing lost their
/// `zone_id` field. It carries the zone identifier found in the request path.
#[derive(Debug, PartialEq, Eq)]
pub struct Deprecation20241130 {
    pub zone_id: String,
}

/// A fix-up that applies to one request. Each variant is named by the date of
/// the upstream change that it undoes.
#[derive(Debug, PartialEq, Eq)]
pub enum Deprecation {
    D2024_11_30(Deprecation20241130),
}

/// A fix-up as a mathematical value.
pub enum DeprecationView {
    D2024_11_30 { zone_id: Seq<char> },
}

impl View for Deprecation20241130 {
    type V = DeprecationView;

    open spec fn view(&self) -> DeprecationView {
        DeprecationView::D2024_11_30 { zone_id: self.zone_id@ }
    }
}

impl View for Deprecation {
    type V = DeprecationView;

    open spec fn view(&self) -> DeprecationView {
        match self {
            Deprecation::D2024_11_30(d) => d@,
        }
    }
}

/// The fix-ups of a list, in order, as mathematical values.
pub open spec fn views(deprecations: Seq<Deprecation>) -> Seq<DeprecationView> {
    deprecations.map_values(|d: Deprecation| d@)
}

} // verus!
