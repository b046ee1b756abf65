//! The values that pass between the stages of a batch: the request made
//! for one row of the input sheet, and what the tracking service answered.

use vstd::prelude::*;
use crate::trace::{TraceItem, TraceItemView};

verus! {

/// One shipment to ask about.
#[derive(Debug)]
pub struct ListInfo {
    /// The courier's code, as the tracking service knows it.
    pub company: String,
    /// The courier as the input sheet names it.
    pub company_code: String,
    /// The tracking number.
    pub oid: String,
    /// Whether the sheet marks the row for a retry run.
    pub is_retry: bool,
}

/// A request as plain values.
pub struct ListInfoView {
    pub company: Seq<char>,
    pub company_code: Seq<char>,
    pub oid: Seq<char>,
    pub is_retry: bool,
}

impl View for ListInfo {
    type V = ListInfoView;

    open spec fn view(&self) -> ListInfoView {
        ListInfoView {
            company: self.company@,
            company_code: self.company_code@,
            oid: self.oid@,
            is_retry: self.is_retry,
        }
    }
}

impl DeepView for ListInfo {
    type V = ListInfoView;

    open spec fn deep_view(&self) -> ListInfoView {
        self@
    }
}

impl Clone for ListInfo {
    fn clone(&self) -> (r: Self)
        ensures
            r == *self,
    {
        ListInfo {
            company: self.company.clone(),
            company_code: self.company_code.clone(),
            oid: self.oid.clone(),
            is_retry: self.is_retry,
        }
    }
}

/// What the tracking service reported for one shipment.
#[derive(Debug)]
pub struct ShipmentResult {
    /// The state code.
    pub state: String,
    /// The extended state code.
    pub state_ex: String,
    /// Where the shipment is, if the service said so.
    pub location: Option<String>,
    /// The shipment's history, in the order the service gave it.
    pub traces: Vec<TraceItem>,
}

/// A result as plain values.
pub struct ShipmentResultView {
    pub state: Seq<char>,
    pub state_ex: Seq<char>,
    pub location: Option<Seq<char>>,
    pub traces: Seq<TraceItemView>,
}

impl View for ShipmentResult {
    type V = ShipmentResultView;

    open spec fn view(&self) -> ShipmentResultView {
        ShipmentResultView {
            state: self.state@,
            state_ex: self.state_ex@,
            location: self.location.deep_view(),
            traces: self.traces.deep_view(),
        }
    }
}

impl DeepView for ShipmentResult {
    type V = ShipmentResultView;

    open spec fn deep_view(&self) -> ShipmentResultView {
        self@
    }
}

} // verus!
