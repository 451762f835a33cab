use tandoor_fdc_import::resolve::{classify_user_response, get_fdc_id, IdResolution, UserIdInput};
use tandoor_fdc_import::tandoor::InternalTandoorFood;

fn food_with(fdc_id: Option<i32>, url: Option<&str>) -> InternalTandoorFood {
    InternalTandoorFood {
        id: 1,
        name: "Egg".to_string(),
        fdc_id,
        properties: vec![],
        url: url.map(|u| u.to_string()),
    }
}

#[test]
fn url_id_wins_over_conflicting_stored_id() {
    let food = food_with(
        Some(999),
        Some("https://fdc.nal.usda.gov/fdc-app.html#/food-details/12345/nutrients"),
    );
    assert_eq!(get_fdc_id(&food, false), IdResolution::Found(12345));
}

#[test]
fn url_without_the_pattern_falls_back_to_the_field() {
    let food = food_with(Some(777), Some("https://example.org/some-other-page"));
    assert_eq!(get_fdc_id(&food, false), IdResolution::Found(777));
}

#[test]
fn stored_field_is_used_when_no_url_is_set() {
    let food = food_with(Some(4711), None);
    assert_eq!(get_fdc_id(&food, true), IdResolution::Found(4711));
}

#[test]
fn nothing_stored_asks_only_in_interactive_mode() {
    let food = food_with(None, None);
    assert_eq!(get_fdc_id(&food, true), IdResolution::AskUser);
    assert_eq!(get_fdc_id(&food, false), IdResolution::NotFound);
}

#[test]
fn url_digits_too_large_for_an_id_fall_back_to_the_field() {
    let food = food_with(
        Some(31),
        Some("https://fdc.nal.usda.gov/fdc-app.html#/food-details/99999999999/nutrients"),
    );
    assert_eq!(get_fdc_id(&food, false), IdResolution::Found(31));
}

#[test]
fn empty_line_skips_the_food() {
    assert_eq!(classify_user_response(""), UserIdInput::Skip);
    assert_eq!(classify_user_response("   \r\n"), UserIdInput::Skip);
}

#[test]
fn numeric_line_yields_the_id() {
    assert_eq!(classify_user_response("12345\n"), UserIdInput::Id(12345));
    assert_eq!(classify_user_response("  7 "), UserIdInput::Id(7));
    assert_eq!(classify_user_response("2147483647"), UserIdInput::Id(2147483647));
}

#[test]
fn unusable_lines_ask_again() {
    assert_eq!(classify_user_response("abc"), UserIdInput::Invalid);
    assert_eq!(classify_user_response("12 34"), UserIdInput::Invalid);
    assert_eq!(classify_user_response("-5"), UserIdInput::Invalid);
    assert_eq!(classify_user_response("2147483648"), UserIdInput::Invalid);
}
