//! Canonical paths into the bid object used by the sample evaluator.

use vstd::prelude::*;

verus! {

/// User segment list of the bid request.
pub const PATH_USER_SEGMENT: &'static str = "/user/data/segment";

/// Primary impression.
pub const PATH_IMP_1: &'static str = "/imp/imp-1";

/// Header impression.
pub const PATH_IMP_HEADER: &'static str = "/imp/imp-header";

/// Sidebar impression.
pub const PATH_IMP_SIDEBAR: &'static str = "/imp/imp-sidebar";

/// Footer impression.
pub const PATH_IMP_FOOTER: &'static str = "/imp/imp-footer";

/// A bid of the bid response, target of bid shading.
pub const PATH_SEATBID_BID_ABC: &'static str = "/seatbid/dsp-001/bid/bid-abc";

} // verus!
