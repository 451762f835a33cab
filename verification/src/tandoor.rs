//! Catalog-side data model: foods and nutrient properties as the Tandoor
//! instance returns them, the shapes sent back on update, and the verified
//! conversions between them. Amounts travel as decimal strings; the
//! reconciliation logic never computes with them.

use vstd::prelude::*;
use crate::text::clone_opt_string;
use crate::usda::{USDANutrient, USDANutrientView};

verus! {

/// A nutrient property definition tracked by the catalog.
#[derive(Debug, Clone, PartialEq, Eq)]
pub struct InternalTandoorProperty {
    /// The name of the property.
    pub name: String,
    /// The FoodData Central ID of that property.
    pub fdc_id: i32,
}

/// Mathematical image of [`InternalTandoorProperty`].
#[verifier::ext_equal]
pub struct InternalTandoorPropertyView {
    pub name: Seq<char>,
    pub fdc_id: i32,
}

impl View for InternalTandoorProperty {
    type V = InternalTandoorPropertyView;

    open spec fn view(&self) -> InternalTandoorPropertyView {
        InternalTandoorPropertyView { name: self.name@, fdc_id: self.fdc_id }
    }
}

impl DeepView for InternalTandoorProperty {
    type V = InternalTandoorPropertyView;

    open spec fn deep_view(&self) -> InternalTandoorPropertyView {
        self.view()
    }
}

/// A property a concrete catalog food currently has.
#[derive(Debug, Clone, PartialEq, Eq)]
pub struct InternalTandoorFoodProperty {
    /// How much of the property is in that food, as a decimal string.
    pub property_amount: Option<String>,
    /// Definition of the property that is in that food.
    pub property_type: InternalTandoorProperty,
}

/// Mathematical image of [`InternalTandoorFoodProperty`].
#[verifier::ext_equal]
pub struct InternalTandoorFoodPropertyView {
    pub property_amount: Option<Seq<char>>,
    pub property_type: InternalTandoorPropertyView,
}

impl View for InternalTandoorFoodProperty {
    type V = InternalTandoorFoodPropertyView;

    open spec fn view(&self) -> InternalTandoorFoodPropertyView {
        InternalTandoorFoodPropertyView {
            property_amount: self.property_amount.deep_view(),
            property_type: self.property_type@,
        }
    }
}

impl DeepView for InternalTandoorFoodProperty {
    type V = InternalTandoorFoodPropertyView;

    open spec fn deep_view(&self) -> InternalTandoorFoodPropertyView {
        self.view()
    }
}

/// A food item as the catalog returns it.
#[derive(Debug, Clone, PartialEq, Eq)]
pub struct InternalTandoorFood {
    /// The id of the food item, the target of any later update.
    pub id: i32,
    /// The name of the food item.
    pub name: String,
    /// The FDC ID of the food, when one is stored.
    pub fdc_id: Option<i32>,
    /// All properties this food has at the moment.
    pub properties: Vec<InternalTandoorFoodProperty>,
    /// URL of the food in the FDC database, when one is stored.
    pub url: Option<String>,
}

/// Mathematical image of [`InternalTandoorFood`].
#[verifier::ext_equal]
pub struct InternalTandoorFoodView {
    pub id: i32,
    pub name: Seq<char>,
    pub fdc_id: Option<i32>,
    pub properties: Seq<InternalTandoorFoodPropertyView>,
    pub url: Option<Seq<char>>,
}

impl View for InternalTandoorFood {
    type V = InternalTandoorFoodView;

    open spec fn view(&self) -> InternalTandoorFoodView {
        InternalTandoorFoodView {
            id: self.id,
            name: self.name@,
            fdc_id: self.fdc_id,
            properties: self.properties.deep_view(),
            url: self.url.deep_view(),
        }
    }
}

impl DeepView for InternalTandoorFood {
    type V = InternalTandoorFoodView;

    open spec fn deep_view(&self) -> InternalTandoorFoodView {
        self.view()
    }
}

/// One page of the catalog's paginated food listing.
#[derive(Debug, Clone, PartialEq, Eq)]
pub struct InternalTandoorFoodApiResponse {
    /// The total number of different foods in the database.
    pub count: i32,
    /// The URL to call to get the next page of foods.
    pub next: Option<String>,
    /// The foods of this page.
    pub results: Vec<InternalTandoorFood>,
}

/// One page of the catalog's paginated property-type listing.
#[derive(Debug, Clone, PartialEq, Eq)]
pub struct InternalTandoorPropertyApiResponse {
    /// The total number of different properties in the database.
    pub count: i32,
    /// The URL to call to get the next page of properties.
    pub next: Option<String>,
    /// The properties of this page.
    pub results: Vec<InternalTandoorProperty>,
}

/// A property definition in the shape the catalog update endpoint expects.
#[derive(Debug, Clone, PartialEq, Eq)]
pub struct ApiTandoorProperty {
    /// The name of the property.
    pub name: String,
}

/// Mathematical image of [`ApiTandoorProperty`].
#[verifier::ext_equal]
pub struct ApiTandoorPropertyView {
    pub name: Seq<char>,
}

impl View for ApiTandoorProperty {
    type V = ApiTandoorPropertyView;

    open spec fn view(&self) -> ApiTandoorPropertyView {
        ApiTandoorPropertyView { name: self.name@ }
    }
}

impl DeepView for ApiTandoorProperty {
    type V = ApiTandoorPropertyView;

    open spec fn deep_view(&self) -> ApiTandoorPropertyView {
        self.view()
    }
}

/// A food property in the shape the catalog update endpoint expects: the
/// amount is a plain string, a missing amount becomes `"0"`.
#[derive(Debug, Clone, PartialEq, Eq)]
pub struct ApiTandoorFoodProperty {
    /// The amount of the property that is in the food.
    pub property_amount: String,
    /// The property definition.
    pub property_type: ApiTandoorProperty,
}

/// Mathematical image of [`ApiTandoorFoodProperty`].
#[verifier::ext_equal]
pub struct ApiTandoorFoodPropertyView {
    pub property_amount: Seq<char>,
    pub property_type: ApiTandoorPropertyView,
}

impl View for ApiTandoorFoodProperty {
    type V = ApiTandoorFoodPropertyView;

    open spec fn view(&self) -> ApiTandoorFoodPropertyView {
        ApiTandoorFoodPropertyView {
            property_amount: self.property_amount@,
            property_type: self.property_type@,
        }
    }
}

impl DeepView for ApiTandoorFoodProperty {
    type V = ApiTandoorFoodPropertyView;

    open spec fn deep_view(&self) -> ApiTandoorFoodPropertyView {
        self.view()
    }
}

/// A food item in the shape sent to the catalog on update.
#[derive(Debug, Clone, PartialEq, Eq)]
pub struct ApiTandoorFood {
    /// The name of the food item.
    pub name: String,
    /// All properties of the food item.
    pub properties: Vec<ApiTandoorFoodProperty>,
    /// The FDC ID of that food.
    pub fdc_id: Option<i32>,
}

/// Mathematical image of [`ApiTandoorFood`].
#[verifier::ext_equal]
pub struct ApiTandoorFoodView {
    pub name: Seq<char>,
    pub properties: Seq<ApiTandoorFoodPropertyView>,
    pub fdc_id: Option<i32>,
}

impl View for ApiTandoorFood {
    type V = ApiTandoorFoodView;

    open spec fn view(&self) -> ApiTandoorFoodView {
        ApiTandoorFoodView {
            name: self.name@,
            properties: self.properties.deep_view(),
            fdc_id: self.fdc_id,
        }
    }
}

impl DeepView for ApiTandoorFood {
    type V = ApiTandoorFoodView;

    open spec fn deep_view(&self) -> ApiTandoorFoodView {
        self.view()
    }
}

/// One page of foods in the update-side shape.
#[derive(Debug, Clone, PartialEq, Eq)]
pub struct ApiFoodResponse {
    /// The total number of different foods in the database.
    pub count: i32,
    /// The URL to call to get the next page of foods.
    pub next: Option<String>,
    /// The foods of this page.
    pub results: Vec<ApiTandoorFood>,
}

/// One page of property types in the update-side shape.
#[derive(Debug, Clone, PartialEq, Eq)]
pub struct ApiPropertyTypeResponse {
    /// The total number of different properties in the database.
    pub count: i32,
    /// The URL to call to get the next page of properties.
    pub next: Option<String>,
    /// The properties of this page.
    pub results: Vec<ApiTandoorProperty>,
}

/// The catalog property a nutrient turns into: the amount is carried over
/// and the property is keyed and named by the nutrient's identity.
pub open spec fn property_of_nutrient(n: USDANutrientView) -> InternalTandoorFoodPropertyView {
    InternalTandoorFoodPropertyView {
        property_amount: n.amount,
        property_type: InternalTandoorPropertyView {
            name: n.nutrient_information.name,
            fdc_id: n.nutrient_information.id,
        },
    }
}

/// Update-side image of a property definition.
pub open spec fn api_property_of(p: InternalTandoorPropertyView) -> ApiTandoorPropertyView {
    ApiTandoorPropertyView { name: p.name }
}

/// Update-side image of a food property: a missing amount becomes `"0"`.
pub open spec fn api_food_property_of(
    p: InternalTandoorFoodPropertyView,
) -> ApiTandoorFoodPropertyView {
    ApiTandoorFoodPropertyView {
        property_amount: match p.property_amount {
            Some(a) => a,
            None => "0"@,
        },
        property_type: api_property_of(p.property_type),
    }
}

/// Update-side image of a whole food.
pub open spec fn api_food_of(f: InternalTandoorFoodView) -> ApiTandoorFoodView {
    ApiTandoorFoodView {
        name: f.name,
        properties: f.properties.map_values(|p: InternalTandoorFoodPropertyView| api_food_property_of(p)),
        fdc_id: f.fdc_id,
    }
}

impl InternalTandoorFoodProperty {
    /// Builds the catalog property corresponding to an external nutrient.
    pub fn from_nutrient(n: &USDANutrient) -> (r: InternalTandoorFoodProperty)
        ensures
            r@ == property_of_nutrient(n@),
    {
        InternalTandoorFoodProperty {
            property_amount: clone_opt_string(&n.amount),
            property_type: InternalTandoorProperty {
                name: n.nutrient_information.name.clone(),
                fdc_id: n.nutrient_information.id,
            },
        }
    }

    /// Clones a food property.
    pub fn duplicate(&self) -> (r: InternalTandoorFoodProperty)
        ensures
            r@ == self@,
    {
        InternalTandoorFoodProperty {
            property_amount: clone_opt_string(&self.property_amount),
            property_type: InternalTandoorProperty {
                name: self.property_type.name.clone(),
                fdc_id: self.property_type.fdc_id,
            },
        }
    }
}

impl ApiTandoorFoodProperty {
    /// Update-side shape of a catalog food property.
    pub fn from_internal(p: &InternalTandoorFoodProperty) -> (r: ApiTandoorFoodProperty)
        ensures
            r@ == api_food_property_of(p@),
    {
        let amount = match &p.property_amount {
            Some(a) => a.clone(),
            None => String::from_str("0"),
        };
        ApiTandoorFoodProperty {
            property_amount: amount,
            property_type: ApiTandoorProperty { name: p.property_type.name.clone() },
        }
    }
}

impl ApiTandoorFood {
    /// Update-side shape of a whole catalog food.
    pub fn from_internal(f: InternalTandoorFood) -> (r: ApiTandoorFood)
        ensures
            r@ == api_food_of(f@),
    {
        let mut props: Vec<ApiTandoorFoodProperty> = Vec::new();
        let mut i: usize = 0;
        while i < f.properties.len()
            invariant
                0 <= i <= f.properties.len(),
                props@.len() == i,
                forall|j: int|
                    0 <= j < i ==> #[trigger] props@[j]@ == api_food_property_of(
                        f.properties@[j]@,
                    ),
            decreases f.properties.len() - i,
        {
            props.push(ApiTandoorFoodProperty::from_internal(&f.properties[i]));
            i = i + 1;
        }
        proof {
            assert(props.deep_view() =~= f.properties.deep_view().map_values(
                |p: InternalTandoorFoodPropertyView| api_food_property_of(p),
            ));
        }
        ApiTandoorFood { name: f.name, properties: props, fdc_id: f.fdc_id }
    }
}

impl ApiTandoorProperty {
    /// Update-side shape of a property definition.
    pub fn from_internal(p: &InternalTandoorProperty) -> (r: ApiTandoorProperty)
        ensures
            r@ == api_property_of(p@),
    {
        ApiTandoorProperty { name: p.name.clone() }
    }
}

} // verus!
