use tandoor_fdc_import::dictionary::PropertyDictionary;
use tandoor_fdc_import::tandoor::{
    ApiTandoorFood, ApiTandoorFoodProperty, ApiTandoorProperty, InternalTandoorFood,
    InternalTandoorFoodProperty, InternalTandoorProperty,
};
use tandoor_fdc_import::text::{decimal_string, parse_nonneg_i32, str_eq, trim_ascii};
use tandoor_fdc_import::usda::{USDANutrient, USDANutrientInformation};

#[test]
fn nutrient_becomes_a_food_property() {
    let n = USDANutrient {
        amount: Some("12.5".to_string()),
        nutrient_information: USDANutrientInformation { id: 203, name: "Protein".to_string() },
    };
    let p = InternalTandoorFoodProperty::from_nutrient(&n);
    assert_eq!(p.property_amount.as_deref(), Some("12.5"));
    assert_eq!(p.property_type.name, "Protein");
    assert_eq!(p.property_type.fdc_id, 203);
}

#[test]
fn missing_amount_is_sent_as_zero() {
    let p = InternalTandoorFoodProperty {
        property_amount: None,
        property_type: InternalTandoorProperty { name: "Fat".to_string(), fdc_id: 204 },
    };
    let api = ApiTandoorFoodProperty::from_internal(&p);
    assert_eq!(api.property_amount, "0");
    assert_eq!(api.property_type.name, "Fat");
}

#[test]
fn a_food_converts_to_its_update_shape() {
    let food = InternalTandoorFood {
        id: 5,
        name: "Egg".to_string(),
        fdc_id: Some(12345),
        properties: vec![InternalTandoorFoodProperty {
            property_amount: Some("12.5".to_string()),
            property_type: InternalTandoorProperty { name: "Protein".to_string(), fdc_id: 203 },
        }],
        url: None,
    };
    let api = ApiTandoorFood::from_internal(food);
    assert_eq!(api.name, "Egg");
    assert_eq!(api.fdc_id, Some(12345));
    assert_eq!(api.properties.len(), 1);
    assert_eq!(api.properties[0].property_amount, "12.5");
    assert_eq!(api.properties[0].property_type.name, "Protein");
}

#[test]
fn a_property_definition_converts_by_name() {
    let p = InternalTandoorProperty { name: "Protein".to_string(), fdc_id: 203 };
    let api = ApiTandoorProperty::from_internal(&p);
    assert_eq!(api.name, "Protein");
}

#[test]
fn dictionary_maps_ids_to_catalog_names() {
    let dict = PropertyDictionary::from_properties(vec![
        InternalTandoorProperty { name: "Protein".to_string(), fdc_id: 203 },
        InternalTandoorProperty { name: "Fat".to_string(), fdc_id: 204 },
    ]);
    assert_eq!(dict.property_count(), 2);
    assert_eq!(dict.lookup(203).map(|s| s.as_str()), Some("Protein"));
    assert_eq!(dict.lookup(204).map(|s| s.as_str()), Some("Fat"));
    assert_eq!(dict.lookup(205), None);
    assert!(dict.contains(203));
    assert!(!dict.contains(205));
}

#[test]
fn duplicate_dictionary_ids_keep_the_later_name() {
    let dict = PropertyDictionary::from_properties(vec![
        InternalTandoorProperty { name: "Old".to_string(), fdc_id: 203 },
        InternalTandoorProperty { name: "New".to_string(), fdc_id: 203 },
    ]);
    assert_eq!(dict.lookup(203).map(|s| s.as_str()), Some("New"));
}

#[test]
fn digit_strings_parse_exactly() {
    assert_eq!(parse_nonneg_i32("0"), Some(0));
    assert_eq!(parse_nonneg_i32("007"), Some(7));
    assert_eq!(parse_nonneg_i32("12345"), Some(12345));
    assert_eq!(parse_nonneg_i32("2147483647"), Some(2147483647));
    assert_eq!(parse_nonneg_i32("2147483648"), None);
    assert_eq!(parse_nonneg_i32("99999999999999999999"), None);
    assert_eq!(parse_nonneg_i32(""), None);
    assert_eq!(parse_nonneg_i32("12a"), None);
    assert_eq!(parse_nonneg_i32("-1"), None);
}

#[test]
fn integers_render_in_decimal() {
    assert_eq!(decimal_string(0), "0");
    assert_eq!(decimal_string(7), "7");
    assert_eq!(decimal_string(12345), "12345");
    assert_eq!(decimal_string(-5), "-5");
    assert_eq!(decimal_string(i32::MAX), "2147483647");
    assert_eq!(decimal_string(i32::MIN), "-2147483648");
}

#[test]
fn trimming_strips_only_the_edges() {
    assert_eq!(trim_ascii("  12345\r\n"), "12345");
    assert_eq!(trim_ascii("a b"), "a b");
    assert_eq!(trim_ascii("\t\n "), "");
    assert_eq!(trim_ascii(""), "");
}

#[test]
fn string_equality_is_by_content() {
    assert!(str_eq("food", "food"));
    assert!(!str_eq("food", "foods"));
    assert!(!str_eq("food", "Food"));
    assert!(str_eq("", ""));
}
