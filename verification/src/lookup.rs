//! The compute side of an external lookup: dropping nutrients the catalog
//! does not track, rewriting the remaining names to the catalog's own, and
//! reading the remaining-request budget out of the response metadata.

use vstd::prelude::*;
use crate::dictionary::PropertyDictionary;
use crate::text::{digits_value, is_digit_seq, parse_nonneg_i32};
use crate::usda::{
    USDAFood, USDANutrient, USDANutrientInformation, USDANutrientInformationView,
    USDANutrientView,
};

verus! {

/// The nutrient list after filtering and renaming: nutrients whose id the
/// dictionary does not track are dropped, the rest keep their order and
/// amount and take the catalog's name for their id.
pub open spec fn filter_renamed(
    ns: Seq<USDANutrientView>,
    d: Map<i32, Seq<char>>,
) -> Seq<USDANutrientView>
    decreases ns.len(),
{
    if ns.len() == 0 {
        ns
    } else {
        let rest = filter_renamed(ns.drop_last(), d);
        let n = ns.last();
        if d.dom().contains(n.nutrient_information.id) {
            rest.push(
                USDANutrientView {
                    amount: n.amount,
                    nutrient_information: USDANutrientInformationView {
                        id: n.nutrient_information.id,
                        name: d[n.nutrient_information.id],
                    },
                },
            )
        } else {
            rest
        }
    }
}

/// Drops untracked nutrients from the food and renames the tracked ones to
/// the catalog's own property names.
pub fn filter_and_rename(food: &mut USDAFood, dict: &PropertyDictionary)
    ensures
        final(food).fdc_id == old(food).fdc_id,
        final(food)@.food_nutrients == filter_renamed(old(food)@.food_nutrients, dict@),
{
    let ghost orig = food@.food_nutrients;
    let mut kept: Vec<USDANutrient> = Vec::new();
    let mut i: usize = 0;
    while i < food.food_nutrients.len()
        invariant
            0 <= i <= food.food_nutrients@.len(),
            food.food_nutrients.deep_view() == orig,
            kept.deep_view() == filter_renamed(orig.take(i as int), dict@),
        decreases food.food_nutrients@.len() - i,
    {
        let n = &food.food_nutrients[i];
        match dict.lookup(n.nutrient_information.id) {
            Some(name) => {
                kept.push(
                    USDANutrient {
                        amount: crate::text::clone_opt_string(&n.amount),
                        nutrient_information: USDANutrientInformation {
                            id: n.nutrient_information.id,
                            name: name.clone(),
                        },
                    },
                );
            },
            None => {},
        }
        proof {
            assert(orig.take(i + 1).drop_last() =~= orig.take(i as int));
            assert(orig.take(i + 1).last() == orig[i as int]);
            assert(kept.deep_view() =~= filter_renamed(orig.take(i + 1), dict@));
        }
        i = i + 1;
    }
    proof {
        assert(orig.take(food.food_nutrients@.len() as int) =~= orig);
    }
    food.food_nutrients = kept;
}

/// The remaining-request budget a response reports: the value of the
/// header when it is present and is a plain decimal that fits an `i32`,
/// and zero — the most conservative, most-throttling reading — when the
/// header is absent or unreadable.
pub open spec fn requests_left_of(header: Option<Seq<char>>) -> i32 {
    match header {
        Some(s) => if is_digit_seq(s) && s.len() > 0 && digits_value(s) <= i32::MAX {
            digits_value(s) as i32
        } else {
            0
        },
        None => 0,
    }
}

/// Reads the remaining-request budget out of the rate-limit header.
pub fn parse_requests_left(header: Option<&str>) -> (r: i32)
    ensures
        r == requests_left_of(header.deep_view()),
{
    match header {
        Some(s) => match parse_nonneg_i32(s) {
            Some(v) => v,
            None => 0,
        },
        None => 0,
    }
}

} // verus!
