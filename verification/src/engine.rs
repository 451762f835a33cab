//! Per-food pipeline decisions and run-level accounting. The pipeline for
//! one food is strictly sequential: skip-check, id resolution, lookup,
//! merge, push, throttle. The decisions are made here on plain values; the
//! network calls between them happen outside the library, and every food's
//! terminal outcome is folded into the run totals after all pipelines end.

use vstd::prelude::*;
use crate::resolve::{get_fdc_id, resolved_fdc_id, IdResolution};
use crate::tandoor::{InternalTandoorFood, InternalTandoorFoodView};

verus! {

/// Number of remaining external requests below which a pipeline pauses
/// before doing any further work.
pub const RATE_LIMIT_LOW_WATER: i32 = 20;

/// Seconds a pipeline sleeps once the remaining request budget is low.
pub const RATE_LIMIT_COOLDOWN_SECONDS: u64 = 60;

/// Decides whether a pipeline must pause after a lookup reported
/// `requests_left` remaining requests.
pub fn should_throttle(requests_left: i32) -> (r: bool)
    ensures
        r == (requests_left < RATE_LIMIT_LOW_WATER),
{
    requests_left < RATE_LIMIT_LOW_WATER
}

/// The terminal outcome of one food's pipeline.
#[derive(Debug, Clone, Copy, PartialEq, Eq, Structural)]
pub enum ItemOutcome {
    /// The food was updated in the catalog.
    Updated,
    /// The external lookup failed; the food was left untouched.
    LookupFailed,
    /// The catalog rejected the update.
    PushFailed,
    /// No cross-reference id could be resolved for the food.
    NoCrossRefId,
    /// The food already had every tracked property; nothing was fetched.
    AlreadyUpToDate,
}

/// What to do first for a food, decided before any network call.
#[derive(Debug, Clone, Copy, PartialEq, Eq, Structural)]
pub enum FoodPlan {
    /// Skip the food: it already carries every tracked property.
    AlreadyUpToDate,
    /// Skip the food: no id is stored and the operator will not be asked.
    NoCrossRefId,
    /// No id is stored; ask the operator for one.
    AskUser,
    /// Look the food up under this id.
    Lookup(i32),
}

/// The pipeline's first decision: with override disabled, a food whose
/// property count equals the number of tracked property types is already
/// up to date and gets no network call; otherwise the resolved id (or the
/// operator prompt, or the skip) decides.
pub open spec fn plan_spec(
    food: InternalTandoorFoodView,
    number_of_properties: usize,
    override_properties: bool,
    interactive: bool,
) -> FoodPlan {
    if !override_properties && food.properties.len() == number_of_properties {
        FoodPlan::AlreadyUpToDate
    } else {
        match resolved_fdc_id(food) {
            Some(id) => FoodPlan::Lookup(id),
            None => if interactive {
                FoodPlan::AskUser
            } else {
                FoodPlan::NoCrossRefId
            },
        }
    }
}

/// Decides how the pipeline starts for one food, per [`plan_spec`].
pub fn plan_food(
    food: &InternalTandoorFood,
    number_of_properties: usize,
    override_properties: bool,
    interactive: bool,
) -> (r: FoodPlan)
    ensures
        r == plan_spec(food@, number_of_properties, override_properties, interactive),
{
    if !override_properties && food.properties.len() == number_of_properties {
        FoodPlan::AlreadyUpToDate
    } else {
        match get_fdc_id(food, interactive) {
            IdResolution::Found(id) => FoodPlan::Lookup(id),
            IdResolution::AskUser => FoodPlan::AskUser,
            IdResolution::NotFound => FoodPlan::NoCrossRefId,
        }
    }
}

/// Law: a run that changed nothing skips on the next pass. Once a food's
/// property count matches the number of tracked property types, a later
/// non-override run marks it already up to date and issues no lookups.
pub proof fn lemma_rerun_skips(
    food: InternalTandoorFoodView,
    number_of_properties: usize,
    interactive: bool,
)
    requires
        food.properties.len() == number_of_properties,
    ensures
        plan_spec(food, number_of_properties, false, interactive) == FoodPlan::AlreadyUpToDate,
{
}

/// After a successful lookup the id that was actually used is stored on
/// the food, so that the following push persists it.
pub fn record_used_fdc_id(food: &mut InternalTandoorFood, fdc_id: i32)
    ensures
        final(food).id == old(food).id,
        final(food).name == old(food).name,
        final(food).fdc_id == Some(fdc_id),
        final(food).properties == old(food).properties,
        final(food).url == old(food).url,
{
    food.fdc_id = Some(fdc_id);
}

/// How often an outcome occurs in a sequence of pipeline results.
pub open spec fn count_outcome(s: Seq<ItemOutcome>, o: ItemOutcome) -> nat
    decreases s.len(),
{
    if s.len() == 0 {
        0
    } else {
        count_outcome(s.drop_last(), o) + (if s.last() == o {
            1nat
        } else {
            0nat
        })
    }
}

proof fn lemma_count_le_len(s: Seq<ItemOutcome>, o: ItemOutcome)
    ensures
        count_outcome(s, o) <= s.len(),
    decreases s.len(),
{
    if s.len() > 0 {
        lemma_count_le_len(s.drop_last(), o);
    }
}

proof fn lemma_count_two_le_len(s: Seq<ItemOutcome>, a: ItemOutcome, b: ItemOutcome)
    requires
        a != b,
    ensures
        count_outcome(s, a) + count_outcome(s, b) <= s.len(),
    decreases s.len(),
{
    if s.len() > 0 {
        lemma_count_two_le_len(s.drop_last(), a, b);
    }
}

/// Law: a run whose every pipeline skipped its food reports zero updates
/// and zero failures — every food is counted already up to date. Together
/// with [`lemma_rerun_skips`] and the merge idempotence law this is the
/// second, unchanged run of the pipeline.
pub proof fn lemma_skipped_run_counts(s: Seq<ItemOutcome>)
    requires
        forall|k: int| 0 <= k < s.len() ==> #[trigger] s[k] == ItemOutcome::AlreadyUpToDate,
    ensures
        count_outcome(s, ItemOutcome::Updated) == 0,
        count_outcome(s, ItemOutcome::LookupFailed) == 0,
        count_outcome(s, ItemOutcome::PushFailed) == 0,
        count_outcome(s, ItemOutcome::NoCrossRefId) == 0,
        count_outcome(s, ItemOutcome::AlreadyUpToDate) == s.len(),
    decreases s.len(),
{
    if s.len() > 0 {
        assert forall|k: int| 0 <= k < s.drop_last().len() implies #[trigger] s.drop_last()[k]
            == ItemOutcome::AlreadyUpToDate by {
            assert(s.drop_last()[k] == s[k]);
        }
        lemma_skipped_run_counts(s.drop_last());
        assert(s.last() == s[s.len() - 1]);
    }
}

/// The aggregate counters a run reports at the end.
#[derive(Debug, Clone, Copy, PartialEq, Eq, Structural)]
pub struct RunTotals {
    /// Foods successfully updated.
    pub updated: usize,
    /// Foods whose lookup or push failed.
    pub not_updated: usize,
    /// Foods skipped for want of a cross-reference id.
    pub no_fdc_id: usize,
    /// Foods that already carried every tracked property.
    pub already_fully_updated: usize,
}

/// Folds the per-food outcomes into the run totals. Each pipeline returns
/// its own outcome and the fold happens after all of them have completed,
/// so no counter is ever shared between concurrent tasks.
pub fn tally_outcomes(outcomes: &Vec<ItemOutcome>) -> (r: RunTotals)
    ensures
        r.updated == count_outcome(outcomes@, ItemOutcome::Updated),
        r.not_updated == count_outcome(outcomes@, ItemOutcome::LookupFailed) + count_outcome(
            outcomes@,
            ItemOutcome::PushFailed,
        ),
        r.no_fdc_id == count_outcome(outcomes@, ItemOutcome::NoCrossRefId),
        r.already_fully_updated == count_outcome(outcomes@, ItemOutcome::AlreadyUpToDate),
{
    let mut totals = RunTotals { updated: 0, not_updated: 0, no_fdc_id: 0, already_fully_updated: 0 };
    let mut i: usize = 0;
    while i < outcomes.len()
        invariant
            0 <= i <= outcomes@.len(),
            totals.updated == count_outcome(outcomes@.take(i as int), ItemOutcome::Updated),
            totals.not_updated == count_outcome(
                outcomes@.take(i as int),
                ItemOutcome::LookupFailed,
            ) + count_outcome(outcomes@.take(i as int), ItemOutcome::PushFailed),
            totals.no_fdc_id == count_outcome(
                outcomes@.take(i as int),
                ItemOutcome::NoCrossRefId,
            ),
            totals.already_fully_updated == count_outcome(
                outcomes@.take(i as int),
                ItemOutcome::AlreadyUpToDate,
            ),
        decreases outcomes@.len() - i,
    {
        proof {
            lemma_count_le_len(outcomes@.take(i as int), ItemOutcome::Updated);
            lemma_count_two_le_len(
                outcomes@.take(i as int),
                ItemOutcome::LookupFailed,
                ItemOutcome::PushFailed,
            );
            lemma_count_le_len(outcomes@.take(i as int), ItemOutcome::NoCrossRefId);
            lemma_count_le_len(outcomes@.take(i as int), ItemOutcome::AlreadyUpToDate);
            assert(outcomes@.take(i + 1).drop_last() =~= outcomes@.take(i as int));
            assert(outcomes@.take(i + 1).last() == outcomes@[i as int]);
        }
        match outcomes[i] {
            ItemOutcome::Updated => {
                totals.updated = totals.updated + 1;
            },
            ItemOutcome::LookupFailed => {
                totals.not_updated = totals.not_updated + 1;
            },
            ItemOutcome::PushFailed => {
                totals.not_updated = totals.not_updated + 1;
            },
            ItemOutcome::NoCrossRefId => {
                totals.no_fdc_id = totals.no_fdc_id + 1;
            },
            ItemOutcome::AlreadyUpToDate => {
                totals.already_fully_updated = totals.already_fully_updated + 1;
            },
        }
        i = i + 1;
    }
    proof {
        assert(outcomes@.take(outcomes@.len() as int) =~= outcomes@);
    }
    totals
}

} // verus!
