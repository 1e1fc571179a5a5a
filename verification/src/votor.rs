//! The budget banner the harness prints at start-up.

pub use crate::votor_budget::VotorBudget;

use crate::votor_budget::{banner_text, default_budget};
use vstd::prelude::*;

verus! {

/// The banner of the paper's default budget.
pub fn budget_banner() -> (out: String)
    ensures
        out@ == banner_text(default_budget()),
{
    VotorBudget::default().banner()
}

} // verus!
