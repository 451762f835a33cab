use tandoor_fdc_import::endpoints::ApiEndpoints;

#[test]
fn v1_uses_the_legacy_property_type_segment() {
    let e = ApiEndpoints::new("v1", "localhost:8080").expect("v1 is supported");
    assert_eq!(e.get_base_url(), "http://localhost:8080/api/");
    assert_eq!(e.get_version(), "v1");
    assert_eq!(
        e.get_endpoint_properties(),
        "http://localhost:8080/api/food-property-type/"
    );
    assert_eq!(e.get_endpoint_food(), "http://localhost:8080/api/food/");
}

#[test]
fn v2_uses_the_current_property_type_segment() {
    let e = ApiEndpoints::with_base_url("v2", "tandoor.local").expect("v2 is supported");
    assert_eq!(e.get_endpoint_properties(), "http://tandoor.local/api/property-type/");
    assert_eq!(e.get_endpoint_food(), "http://tandoor.local/api/food/");
}

#[test]
fn endpoints_can_be_looked_up_by_name() {
    let e = ApiEndpoints::new("v2", "host").expect("v2 is supported");
    assert_eq!(
        e.get_endpoint("properties").map(|s| s.as_str()),
        Some("http://host/api/property-type/")
    );
    assert_eq!(e.get_endpoint("food").map(|s| s.as_str()), Some("http://host/api/food/"));
    assert_eq!(e.get_endpoint("recipes"), None);
}

#[test]
fn all_endpoints_are_listed() {
    let e = ApiEndpoints::new("v1", "host").expect("v1 is supported");
    let all = e.get_all_endpoints();
    assert_eq!(all.len(), 2);
    assert_eq!(all[0].0, "properties");
    assert_eq!(all[1].0, "food");
}

#[test]
fn the_update_url_names_the_food_id() {
    let e = ApiEndpoints::new("v2", "host").expect("v2 is supported");
    assert_eq!(e.get_endpoint_food_update(42), "http://host/api/food/42/");
    assert_eq!(e.get_endpoint_food_update(0), "http://host/api/food/0/");
    assert_eq!(e.get_endpoint_food_update(-7), "http://host/api/food/-7/");
    assert_eq!(
        e.get_endpoint_food_update(2147483647),
        "http://host/api/food/2147483647/"
    );
}

#[test]
fn unknown_versions_are_rejected() {
    let err = ApiEndpoints::new("v3", "host").expect_err("v3 is not supported");
    assert_eq!(err, "The given API version is not supported: v3");
    let err = ApiEndpoints::with_base_url("", "host").expect_err("empty is not supported");
    assert_eq!(err, "The given API version is not supported: ");
}
