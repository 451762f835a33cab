use tandoor_fdc_import::pagination::FoodPageAccumulator;
use tandoor_fdc_import::tandoor::{InternalTandoorFood, InternalTandoorFoodApiResponse};

fn named_food(id: i32, name: &str) -> InternalTandoorFood {
    InternalTandoorFood {
        id,
        name: name.to_string(),
        fdc_id: None,
        properties: vec![],
        url: None,
    }
}

fn page(
    count: i32,
    next: Option<&str>,
    foods: Vec<InternalTandoorFood>,
) -> InternalTandoorFoodApiResponse {
    InternalTandoorFoodApiResponse { count, next: next.map(|n| n.to_string()), results: foods }
}

#[test]
fn three_pages_with_matching_total_yield_all_foods() {
    let mut acc = FoodPageAccumulator::new();
    let next = acc.add_page(page(
        5,
        Some("http://t/api/food/?page=2"),
        vec![named_food(1, "a"), named_food(2, "b")],
    ));
    assert_eq!(next.as_deref(), Some("http://t/api/food/?page=2"));
    let next = acc.add_page(page(
        5,
        Some("http://t/api/food/?page=3"),
        vec![named_food(3, "c"), named_food(4, "d")],
    ));
    assert_eq!(next.as_deref(), Some("http://t/api/food/?page=3"));
    let next = acc.add_page(page(5, None, vec![named_food(5, "e")]));
    assert_eq!(next, None);
    let foods = acc.finish().expect("count matches");
    assert_eq!(foods.len(), 5);
    assert_eq!(foods[0].name, "a");
    assert_eq!(foods[4].name, "e");
}

#[test]
fn mismatched_total_is_a_fatal_consistency_error() {
    let mut acc = FoodPageAccumulator::new();
    acc.add_page(page(6, Some("n2"), vec![named_food(1, "a"), named_food(2, "b")]));
    acc.add_page(page(6, Some("n3"), vec![named_food(3, "c"), named_food(4, "d")]));
    acc.add_page(page(6, None, vec![named_food(5, "e")]));
    let err = acc.finish().expect_err("count mismatch");
    assert_eq!(err.declared, 6);
    assert_eq!(err.delivered, 5);
}

#[test]
fn later_pages_override_the_declared_total() {
    let mut acc = FoodPageAccumulator::new();
    acc.add_page(page(99, Some("n2"), vec![named_food(1, "a")]));
    acc.add_page(page(2, None, vec![named_food(2, "b")]));
    let foods = acc.finish().expect("last declared total governs");
    assert_eq!(foods.len(), 2);
}

#[test]
fn empty_run_with_zero_total_is_consistent() {
    let acc = FoodPageAccumulator::new();
    let foods = acc.finish().expect("zero of zero");
    assert!(foods.is_empty());
}
