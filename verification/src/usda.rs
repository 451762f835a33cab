//! Data returned by the USDA FoodData Central database for a single food,
//! reduced to the plain values the reconciliation logic reads: nutrient ids,
//! names, amounts rendered as decimal strings, and the remaining request
//! budget reported alongside the response.

use vstd::prelude::*;

verus! {

/// Identity of a nutrient as the external provider describes it.
#[derive(Debug, Clone, PartialEq, Eq)]
pub struct USDANutrientInformation {
    /// The FDC ID of the nutrient.
    pub id: i32,
    /// The name of the nutrient; rewritten to the catalog's own name before use.
    pub name: String,
}

/// Mathematical image of [`USDANutrientInformation`].
#[verifier::ext_equal]
pub struct USDANutrientInformationView {
    pub id: i32,
    pub name: Seq<char>,
}

impl View for USDANutrientInformation {
    type V = USDANutrientInformationView;

    open spec fn view(&self) -> USDANutrientInformationView {
        USDANutrientInformationView { id: self.id, name: self.name@ }
    }
}

impl DeepView for USDANutrientInformation {
    type V = USDANutrientInformationView;

    open spec fn deep_view(&self) -> USDANutrientInformationView {
        self.view()
    }
}

/// A single nutrient of a food, with its amount rendered as a decimal string.
#[derive(Debug, Clone, PartialEq, Eq)]
pub struct USDANutrient {
    /// How much of that nutrient is in the food, if reported.
    pub amount: Option<String>,
    /// Identity of the nutrient.
    pub nutrient_information: USDANutrientInformation,
}

/// Mathematical image of [`USDANutrient`].
#[verifier::ext_equal]
pub struct USDANutrientView {
    pub amount: Option<Seq<char>>,
    pub nutrient_information: USDANutrientInformationView,
}

impl View for USDANutrient {
    type V = USDANutrientView;

    open spec fn view(&self) -> USDANutrientView {
        USDANutrientView {
            amount: self.amount.deep_view(),
            nutrient_information: self.nutrient_information@,
        }
    }
}

impl DeepView for USDANutrient {
    type V = USDANutrientView;

    open spec fn deep_view(&self) -> USDANutrientView {
        self.view()
    }
}

/// A food as requested from the USDA FDC database.
#[derive(Debug, Clone, PartialEq, Eq)]
pub struct USDAFood {
    /// The FDC ID of the food.
    pub fdc_id: i32,
    /// The nutrients associated with this food.
    pub food_nutrients: Vec<USDANutrient>,
}

/// Mathematical image of [`USDAFood`].
#[verifier::ext_equal]
pub struct USDAFoodView {
    pub fdc_id: i32,
    pub food_nutrients: Seq<USDANutrientView>,
}

impl View for USDAFood {
    type V = USDAFoodView;

    open spec fn view(&self) -> USDAFoodView {
        USDAFoodView { fdc_id: self.fdc_id, food_nutrients: self.food_nutrients.deep_view() }
    }
}

impl DeepView for USDAFood {
    type V = USDAFoodView;

    open spec fn deep_view(&self) -> USDAFoodView {
        self.view()
    }
}

/// The answer to a food lookup: the food itself together with the number of
/// requests left before the client is rate-limited.
#[derive(Debug, Clone, PartialEq, Eq)]
pub struct USDAApiResponse {
    /// The number of requests left before the IP gets rate-limited.
    pub requests_left: i32,
    /// The representation of the requested food.
    pub food: USDAFood,
}

/// Mathematical image of [`USDAApiResponse`].
#[verifier::ext_equal]
pub struct USDAApiResponseView {
    pub requests_left: i32,
    pub food: USDAFoodView,
}

impl View for USDAApiResponse {
    type V = USDAApiResponseView;

    open spec fn view(&self) -> USDAApiResponseView {
        USDAApiResponseView { requests_left: self.requests_left, food: self.food@ }
    }
}

impl DeepView for USDAApiResponse {
    type V = USDAApiResponseView;

    open spec fn deep_view(&self) -> USDAApiResponseView {
        self.view()
    }
}

} // verus!
