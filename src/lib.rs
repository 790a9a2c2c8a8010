//! Coverage accumulation over decoded processor-trace address streams, the
//! capture and decode session rules around it, and capture-filter parsing.

use vstd::prelude::*;

pub mod stream;
pub mod leb;
pub mod laws;
mod sizes;
pub mod pt_decoder_status;
pub mod analysis_session;
pub mod capture_filter;
pub mod capture_session;
pub mod example_coverage_info;

