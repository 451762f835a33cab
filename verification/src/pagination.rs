//! Accounting for the catalog's cursor-style pagination. Pages are folded
//! into one list while the provider's declared total is tracked; at the
//! end the accumulated length must equal that total, and a mismatch is the
//! fatal consistency failure that aborts a run before any food is touched.

use vstd::prelude::*;
use crate::tandoor::{InternalTandoorFood, InternalTandoorFoodApiResponse};

verus! {

/// The provider's declared total did not match the number of records it
/// delivered.
#[derive(Debug, Clone, Copy, PartialEq, Eq, Structural)]
pub struct ConsistencyError {
    /// The total the provider declared on the last page.
    pub declared: i32,
    /// How many records actually arrived.
    pub delivered: usize,
}

/// Folds the pages of the catalog's food listing into one list.
#[derive(Debug, Clone, PartialEq, Eq)]
pub struct FoodPageAccumulator {
    /// All foods received so far, in page order.
    pub foods: Vec<InternalTandoorFood>,
    /// The total the provider declared on the most recent page.
    pub declared_count: i32,
}

impl FoodPageAccumulator {
    /// An accumulator that has seen no pages.
    pub fn new() -> (r: FoodPageAccumulator)
        ensures
            r.foods@.len() == 0,
            r.declared_count == 0,
    {
        FoodPageAccumulator { foods: Vec::new(), declared_count: 0 }
    }

    /// Takes in one page: appends its results, remembers its declared
    /// total, and hands back the cursor to the next page, if any.
    pub fn add_page(&mut self, page: InternalTandoorFoodApiResponse) -> (next: Option<String>)
        ensures
            final(self).foods.deep_view() == old(self).foods.deep_view()
                + page.results.deep_view(),
            final(self).declared_count == page.count,
            next == page.next,
    {
        let InternalTandoorFoodApiResponse { count, next, mut results } = page;
        let ghost before = self.foods.deep_view();
        self.foods.append(&mut results);
        self.declared_count = count;
        proof {
            assert(self.foods.deep_view() =~= before + page.results.deep_view());
        }
        next
    }

    /// Closes the run: the foods are released only when as many records
    /// arrived as the provider declared; otherwise the fatal consistency
    /// error reports both numbers.
    pub fn finish(self) -> (r: Result<Vec<InternalTandoorFood>, ConsistencyError>)
        ensures
            match r {
                Ok(foods) => foods.deep_view() == self.foods.deep_view() && self.declared_count
                    == self.foods@.len(),
                Err(e) => self.declared_count != self.foods@.len() && e.declared
                    == self.declared_count && e.delivered == self.foods@.len(),
            },
    {
        let n = self.foods.len();
        if self.declared_count >= 0 && n <= (i32::MAX as usize) && self.declared_count == n as i32
        {
            Ok(self.foods)
        } else {
            Err(ConsistencyError { declared: self.declared_count, delivered: n })
        }
    }
}

} // verus!
