use tandoor_fdc_import::dictionary::PropertyDictionary;
use tandoor_fdc_import::lookup::{filter_and_rename, parse_requests_left};
use tandoor_fdc_import::merge::{create_updated_food, has_property_with_id};
use tandoor_fdc_import::tandoor::{
    InternalTandoorFood, InternalTandoorFoodProperty, InternalTandoorProperty,
};
use tandoor_fdc_import::usda::{USDAFood, USDANutrient, USDANutrientInformation};

fn nutrient(id: i32, name: &str, amount: Option<&str>) -> USDANutrient {
    USDANutrient {
        amount: amount.map(|a| a.to_string()),
        nutrient_information: USDANutrientInformation { id, name: name.to_string() },
    }
}

fn food_property(id: i32, name: &str, amount: Option<&str>) -> InternalTandoorFoodProperty {
    InternalTandoorFoodProperty {
        property_amount: amount.map(|a| a.to_string()),
        property_type: InternalTandoorProperty { name: name.to_string(), fdc_id: id },
    }
}

fn plain_food(
    id: i32,
    name: &str,
    properties: Vec<InternalTandoorFoodProperty>,
) -> InternalTandoorFood {
    InternalTandoorFood { id, name: name.to_string(), fdc_id: None, properties, url: None }
}

#[test]
fn merge_non_override_keeps_existing_and_adds_new() {
    let food = plain_food(
        7,
        "Oats",
        vec![food_property(203, "Protein", Some("13.1")), food_property(204, "Fat", None)],
    );
    let usda = USDAFood {
        fdc_id: 321,
        food_nutrients: vec![
            nutrient(203, "Protein", Some("99.9")),
            nutrient(205, "Carbs", Some("55.0")),
        ],
    };
    let (id, updated) = create_updated_food(&food, &usda, false);
    assert_eq!(id, 7);
    assert_eq!(updated.name, "Oats");
    assert_eq!(updated.properties.len(), 3);
    assert_eq!(updated.properties[0].property_type.name, "Protein");
    assert_eq!(updated.properties[0].property_amount, "13.1");
    assert_eq!(updated.properties[1].property_type.name, "Fat");
    assert_eq!(updated.properties[1].property_amount, "0");
    assert_eq!(updated.properties[2].property_type.name, "Carbs");
    assert_eq!(updated.properties[2].property_amount, "55.0");
}

#[test]
fn merge_override_replaces_with_external_set() {
    let food = plain_food(
        8,
        "Rye",
        vec![food_property(203, "Protein", Some("13.1")), food_property(204, "Fat", None)],
    );
    let usda = USDAFood { fdc_id: 55, food_nutrients: vec![nutrient(205, "Carbs", Some("70.0"))] };
    let (_, updated) = create_updated_food(&food, &usda, true);
    assert_eq!(updated.properties.len(), 1);
    assert_eq!(updated.properties[0].property_type.name, "Carbs");
    assert_eq!(updated.properties[0].property_amount, "70.0");
}

#[test]
fn merge_with_no_nutrients_keeps_current_properties() {
    let food = plain_food(9, "Salt", vec![food_property(203, "Protein", Some("0.0"))]);
    let usda = USDAFood { fdc_id: 1, food_nutrients: vec![] };
    let (_, updated) = create_updated_food(&food, &usda, false);
    assert_eq!(updated.properties.len(), 1);
    assert_eq!(updated.properties[0].property_type.name, "Protein");
}

#[test]
fn merge_twice_with_same_nutrients_adds_nothing() {
    let food = plain_food(10, "Egg", vec![]);
    let usda = USDAFood {
        fdc_id: 12345,
        food_nutrients: vec![
            nutrient(203, "Protein", Some("12.5")),
            nutrient(204, "Fat", Some("9.5")),
        ],
    };
    let (_, first) = create_updated_food(&food, &usda, false);
    assert_eq!(first.properties.len(), 2);
    let rerun_food = plain_food(
        10,
        "Egg",
        vec![
            food_property(203, "Protein", Some("12.5")),
            food_property(204, "Fat", Some("9.5")),
        ],
    );
    let (_, second) = create_updated_food(&rerun_food, &usda, false);
    assert_eq!(second.properties.len(), 2);
    assert_eq!(second.properties[0].property_type.name, "Protein");
    assert_eq!(second.properties[1].property_type.name, "Fat");
}

#[test]
fn has_property_with_id_scans_the_list() {
    let props = vec![food_property(203, "Protein", None), food_property(204, "Fat", None)];
    assert!(has_property_with_id(&props, 203));
    assert!(has_property_with_id(&props, 204));
    assert!(!has_property_with_id(&props, 205));
    assert!(!has_property_with_id(&Vec::new(), 203));
}

#[test]
fn filter_drops_untracked_and_renames_tracked_nutrients() {
    let dict = PropertyDictionary::from_properties(vec![InternalTandoorProperty {
        name: "Protein".to_string(),
        fdc_id: 203,
    }]);
    let mut usda = USDAFood {
        fdc_id: 12345,
        food_nutrients: vec![
            nutrient(203, "Protein, total", Some("12.5")),
            nutrient(999, "Exotic", Some("1")),
        ],
    };
    filter_and_rename(&mut usda, &dict);
    assert_eq!(usda.fdc_id, 12345);
    assert_eq!(usda.food_nutrients.len(), 1);
    assert_eq!(usda.food_nutrients[0].nutrient_information.id, 203);
    assert_eq!(usda.food_nutrients[0].nutrient_information.name, "Protein");
    assert_eq!(usda.food_nutrients[0].amount.as_deref(), Some("12.5"));
}

#[test]
fn full_pipeline_for_egg_pushes_renamed_protein() {
    let dict = PropertyDictionary::from_properties(vec![InternalTandoorProperty {
        name: "Protein".to_string(),
        fdc_id: 203,
    }]);
    let mut food = InternalTandoorFood {
        id: 42,
        name: "Egg".to_string(),
        fdc_id: None,
        properties: vec![],
        url: Some(
            "https://fdc.nal.usda.gov/fdc-app.html#/food-details/12345/nutrients".to_string(),
        ),
    };
    let mut usda = USDAFood {
        fdc_id: 12345,
        food_nutrients: vec![
            nutrient(203, "Protein, total", Some("12.5")),
            nutrient(999, "Exotic", Some("1")),
        ],
    };
    filter_and_rename(&mut usda, &dict);
    tandoor_fdc_import::engine::record_used_fdc_id(&mut food, 12345);
    let (id, updated) = create_updated_food(&food, &usda, false);
    assert_eq!(id, 42);
    assert_eq!(updated.name, "Egg");
    assert_eq!(updated.fdc_id, Some(12345));
    assert_eq!(updated.properties.len(), 1);
    assert_eq!(updated.properties[0].property_amount, "12.5");
    assert_eq!(updated.properties[0].property_type.name, "Protein");
}

#[test]
fn missing_rate_limit_header_defaults_to_zero() {
    assert_eq!(parse_requests_left(None), 0);
}

#[test]
fn rate_limit_header_values_are_read_or_defaulted() {
    assert_eq!(parse_requests_left(Some("5")), 5);
    assert_eq!(parse_requests_left(Some("2147483647")), 2147483647);
    assert_eq!(parse_requests_left(Some("2147483648")), 0);
    assert_eq!(parse_requests_left(Some("")), 0);
    assert_eq!(parse_requests_left(Some("many")), 0);
}
