//! Property merging: how a food's current catalog properties combine with
//! the nutrient set fetched from the external provider.
//!
//! In override mode the current properties are discarded and the external
//! set replaces them. Otherwise the merge is an idempotent union keyed by
//! cross-reference id: a nutrient is added only when no current property
//! already carries its id, and existing catalog data is never overwritten.

use vstd::prelude::*;
use crate::tandoor::{
    api_food_property_of, property_of_nutrient, ApiTandoorFood, ApiTandoorFoodPropertyView,
    InternalTandoorFood, InternalTandoorFoodProperty, InternalTandoorFoodPropertyView,
};
use crate::usda::{USDAFood, USDANutrientView};

verus! {

/// True when some property of `props` carries the cross-reference id `id`.
pub open spec fn has_property_id(props: Seq<InternalTandoorFoodPropertyView>, id: i32) -> bool {
    exists|i: int| 0 <= i < props.len() && props[i].property_type.fdc_id == id
}

/// One merge step: add the nutrient unless its id is already present.
pub open spec fn merge_step(
    props: Seq<InternalTandoorFoodPropertyView>,
    n: USDANutrientView,
) -> Seq<InternalTandoorFoodPropertyView> {
    if has_property_id(props, n.nutrient_information.id) {
        props
    } else {
        props.push(property_of_nutrient(n))
    }
}

/// The property set after merging the nutrients into `props`, in order,
/// each nutrient seeing the additions made by the ones before it.
pub open spec fn merged_properties(
    props: Seq<InternalTandoorFoodPropertyView>,
    nutrients: Seq<USDANutrientView>,
) -> Seq<InternalTandoorFoodPropertyView>
    decreases nutrients.len(),
{
    if nutrients.len() == 0 {
        props
    } else {
        merged_properties(merge_step(props, nutrients[0]), nutrients.drop_first())
    }
}

/// No two nutrients of the sequence share a cross-reference id.
pub open spec fn distinct_nutrient_ids(ns: Seq<USDANutrientView>) -> bool {
    forall|i: int, j: int|
        0 <= i < j < ns.len() ==> ns[i].nutrient_information.id
            != ns[j].nutrient_information.id
}

proof fn lemma_has_push(
    props: Seq<InternalTandoorFoodPropertyView>,
    p: InternalTandoorFoodPropertyView,
    id: i32,
)
    ensures
        has_property_id(props.push(p), id) <==> (has_property_id(props, id)
            || p.property_type.fdc_id == id),
{
    if has_property_id(props, id) {
        let i = choose|i: int| 0 <= i < props.len() && props[i].property_type.fdc_id == id;
        assert(props.push(p)[i] == props[i]);
    }
    if p.property_type.fdc_id == id {
        assert(props.push(p)[props.len() as int] == p);
    }
    if has_property_id(props.push(p), id) {
        let i = choose|i: int|
            0 <= i < props.push(p).len() && props.push(p)[i].property_type.fdc_id == id;
        if i < props.len() {
            assert(props.push(p)[i] == props[i]);
        } else {
            assert(props.push(p)[i] == p);
        }
    }
}

/// Merging a sequence extended by one nutrient is one more merge step.
pub proof fn lemma_merged_push(
    props: Seq<InternalTandoorFoodPropertyView>,
    ns: Seq<USDANutrientView>,
    n: USDANutrientView,
)
    ensures
        merged_properties(props, ns.push(n)) == merge_step(merged_properties(props, ns), n),
    decreases ns.len(),
{
    let s = ns.push(n);
    if ns.len() == 0 {
        assert(s[0] == n);
        assert(s.drop_first() =~= Seq::<USDANutrientView>::empty());
        assert(merged_properties(props, s) == merged_properties(
            merge_step(props, n),
            s.drop_first(),
        ));
        assert(merged_properties(merge_step(props, n), s.drop_first()) == merge_step(props, n));
    } else {
        assert(s[0] == ns[0]);
        assert(s.drop_first() =~= ns.drop_first().push(n));
        lemma_merged_push(merge_step(props, ns[0]), ns.drop_first(), n);
        assert(merged_properties(props, s) == merged_properties(
            merge_step(props, s[0]),
            s.drop_first(),
        ));
        assert(merged_properties(props, ns) == merged_properties(
            merge_step(props, ns[0]),
            ns.drop_first(),
        ));
    }
}

/// An id is present after the merge exactly when it was present before or
/// some merged nutrient carries it.
pub proof fn lemma_merged_ids(
    props: Seq<InternalTandoorFoodPropertyView>,
    ns: Seq<USDANutrientView>,
    id: i32,
)
    ensures
        has_property_id(merged_properties(props, ns), id) <==> (has_property_id(props, id)
            || exists|k: int| 0 <= k < ns.len() && ns[k].nutrient_information.id == id),
    decreases ns.len(),
{
    if ns.len() > 0 {
        let p1 = merge_step(props, ns[0]);
        if !has_property_id(props, ns[0].nutrient_information.id) {
            lemma_has_push(props, property_of_nutrient(ns[0]), id);
        }
        lemma_merged_ids(p1, ns.drop_first(), id);
        assert forall|k: int| 0 <= k < ns.drop_first().len() implies ns.drop_first()[k]
            == ns[k + 1] by {}
        if exists|k: int| 0 <= k < ns.len() && ns[k].nutrient_information.id == id {
            let k = choose|k: int| 0 <= k < ns.len() && ns[k].nutrient_information.id == id;
            if k > 0 {
                assert(ns.drop_first()[k - 1] == ns[k]);
            }
        }
    }
}

/// Merging never alters or removes the properties already present: they
/// stay, in order, as a prefix of the result.
pub proof fn lemma_merged_extends(
    props: Seq<InternalTandoorFoodPropertyView>,
    ns: Seq<USDANutrientView>,
)
    ensures
        merged_properties(props, ns).len() >= props.len(),
        merged_properties(props, ns).take(props.len() as int) == props,
    decreases ns.len(),
{
    if ns.len() == 0 {
        assert(merged_properties(props, ns).take(props.len() as int) =~= props);
    } else {
        let p1 = merge_step(props, ns[0]);
        lemma_merged_extends(p1, ns.drop_first());
        let m = merged_properties(p1, ns.drop_first());
        assert(m.take(props.len() as int) =~= m.take(p1.len() as int).take(props.len() as int));
        assert(p1.take(props.len() as int) =~= props);
    }
}

/// If every nutrient's id is already present, merging changes nothing.
proof fn lemma_merged_stable(
    props: Seq<InternalTandoorFoodPropertyView>,
    ns: Seq<USDANutrientView>,
)
    requires
        forall|k: int|
            0 <= k < ns.len() ==> has_property_id(
                props,
                #[trigger] ns[k].nutrient_information.id,
            ),
    ensures
        merged_properties(props, ns) == props,
    decreases ns.len(),
{
    if ns.len() > 0 {
        assert(has_property_id(props, ns[0].nutrient_information.id));
        assert forall|k: int| 0 <= k < ns.drop_first().len() implies has_property_id(
            props,
            #[trigger] ns.drop_first()[k].nutrient_information.id,
        ) by {
            assert(ns.drop_first()[k] == ns[k + 1]);
        }
        lemma_merged_stable(props, ns.drop_first());
    }
}

/// Law: the merge is idempotent. Merging the same nutrient set into its own
/// result adds nothing, so an unchanged food is never updated twice.
pub proof fn lemma_merge_idempotent(
    props: Seq<InternalTandoorFoodPropertyView>,
    ns: Seq<USDANutrientView>,
)
    ensures
        merged_properties(merged_properties(props, ns), ns) == merged_properties(props, ns),
{
    let m = merged_properties(props, ns);
    assert forall|k: int| 0 <= k < ns.len() implies has_property_id(
        m,
        #[trigger] ns[k].nutrient_information.id,
    ) by {
        lemma_merged_ids(props, ns, ns[k].nutrient_information.id);
    }
    lemma_merged_stable(m, ns);
}

/// Law (non-override merge): the result is the current properties followed
/// by exactly those nutrients whose id none of the current properties
/// carries, in order; nothing already present is altered or removed.
pub proof fn lemma_merge_non_override(
    props: Seq<InternalTandoorFoodPropertyView>,
    ns: Seq<USDANutrientView>,
)
    requires
        distinct_nutrient_ids(ns),
    ensures
        merged_properties(props, ns) == props + ns.filter(
            |n: USDANutrientView| !has_property_id(props, n.nutrient_information.id),
        ).map_values(|n: USDANutrientView| property_of_nutrient(n)),
    decreases ns.len(),
{
    reveal_with_fuel(Seq::<USDANutrientView>::filter, 2);
    let pred = |n: USDANutrientView| !has_property_id(props, n.nutrient_information.id);
    let conv = |n: USDANutrientView| property_of_nutrient(n);
    if ns.len() == 0 {
        assert(merged_properties(props, ns) =~= props + ns.filter(pred).map_values(conv));
    } else {
        let ns0 = ns.drop_last();
        let n = ns.last();
        assert(ns0.push(n) =~= ns);
        lemma_merged_push(props, ns0, n);
        assert(distinct_nutrient_ids(ns0));
        lemma_merge_non_override(props, ns0);
        let m0 = merged_properties(props, ns0);
        lemma_merged_ids(props, ns0, n.nutrient_information.id);
        assert forall|k: int| 0 <= k < ns0.len() implies ns0[k].nutrient_information.id
            != n.nutrient_information.id by {
            assert(ns0[k] == ns[k]);
            assert(n == ns[ns.len() - 1]);
        }
        assert(has_property_id(m0, n.nutrient_information.id) == has_property_id(
            props,
            n.nutrient_information.id,
        ));
        assert(ns.filter(pred) == (if pred(ns.last()) {
            ns.drop_last().filter(pred).push(ns.last())
        } else {
            ns.drop_last().filter(pred)
        }));
        if has_property_id(props, n.nutrient_information.id) {
            assert(!pred(n));
            assert(ns.filter(pred) == ns0.filter(pred));
            assert(merged_properties(props, ns) == m0);
        } else {
            assert(pred(n));
            assert(ns.filter(pred) == ns0.filter(pred).push(n));
            assert(merged_properties(props, ns) == m0.push(property_of_nutrient(n)));
            assert(props + ns.filter(pred).map_values(conv) =~= (props + ns0.filter(
                pred,
            ).map_values(conv)).push(property_of_nutrient(n)));
        }
    }
}

proof fn lemma_filter_all(ns: Seq<USDANutrientView>, pred: spec_fn(USDANutrientView) -> bool)
    requires
        forall|k: int| 0 <= k < ns.len() ==> pred(#[trigger] ns[k]),
    ensures
        ns.filter(pred) == ns,
    decreases ns.len(),
{
    reveal_with_fuel(Seq::<USDANutrientView>::filter, 2);
    if ns.len() > 0 {
        assert forall|k: int| 0 <= k < ns.drop_last().len() implies pred(
            #[trigger] ns.drop_last()[k],
        ) by {
            assert(ns.drop_last()[k] == ns[k]);
        }
        lemma_filter_all(ns.drop_last(), pred);
        assert(pred(ns.last()));
        assert(ns.filter(pred) == ns.drop_last().filter(pred).push(ns.last()));
        assert(ns.drop_last().push(ns.last()) =~= ns);
    }
}

/// Law (override merge): starting from no current properties, a nutrient
/// set with pairwise distinct ids maps one-to-one onto the result — it is
/// exactly the filtered-and-renamed external set.
pub proof fn lemma_merge_override(ns: Seq<USDANutrientView>)
    requires
        distinct_nutrient_ids(ns),
    ensures
        merged_properties(Seq::<InternalTandoorFoodPropertyView>::empty(), ns)
            == ns.map_values(|n: USDANutrientView| property_of_nutrient(n)),
{
    let empty = Seq::<InternalTandoorFoodPropertyView>::empty();
    let pred = |n: USDANutrientView| !has_property_id(empty, n.nutrient_information.id);
    lemma_merge_non_override(empty, ns);
    assert forall|k: int| 0 <= k < ns.len() implies pred(#[trigger] ns[k]) by {}
    lemma_filter_all(ns, pred);
    assert(empty + ns.map_values(|n: USDANutrientView| property_of_nutrient(n)) =~= ns.map_values(
        |n: USDANutrientView| property_of_nutrient(n),
    ));
}

/// Scans a property list for a cross-reference id.
pub fn has_property_with_id(props: &Vec<InternalTandoorFoodProperty>, id: i32) -> (r: bool)
    ensures
        r == has_property_id(props.deep_view(), id),
{
    let mut i: usize = 0;
    while i < props.len()
        invariant
            0 <= i <= props@.len(),
            forall|j: int|
                0 <= j < i ==> #[trigger] props.deep_view()[j].property_type.fdc_id != id,
        decreases props@.len() - i,
    {
        if props[i].property_type.fdc_id == id {
            proof {
                assert(props.deep_view()[i as int].property_type.fdc_id == id);
            }
            return true;
        }
        i = i + 1;
    }
    false
}

/// Computes the updated food to send to the catalog.
///
/// Returns the id of the food to update together with the update-side food:
/// the same name and stored FDC ID, and the properties merged per
/// [`merged_properties`] — from an empty set when overriding, from the
/// food's current properties otherwise.
pub fn create_updated_food(
    tandoor_food: &InternalTandoorFood,
    usda_food: &USDAFood,
    override_properties: bool,
) -> (r: (i32, ApiTandoorFood))
    ensures
        r.0 == tandoor_food.id,
        r.1@.name == tandoor_food@.name,
        r.1@.fdc_id == tandoor_food@.fdc_id,
        r.1@.properties == merged_properties(
            if override_properties {
                Seq::<InternalTandoorFoodPropertyView>::empty()
            } else {
                tandoor_food@.properties
            },
            usda_food@.food_nutrients,
        ).map_values(|p: InternalTandoorFoodPropertyView| api_food_property_of(p)),
{
    let ghost base = if override_properties {
        Seq::<InternalTandoorFoodPropertyView>::empty()
    } else {
        tandoor_food@.properties
    };
    let mut local_props: Vec<InternalTandoorFoodProperty> = Vec::new();
    if !override_properties {
        let mut i: usize = 0;
        while i < tandoor_food.properties.len()
            invariant
                0 <= i <= tandoor_food.properties@.len(),
                local_props@.len() == i,
                forall|j: int|
                    0 <= j < i ==> #[trigger] local_props@[j]@ == tandoor_food.properties@[j]@,
            decreases tandoor_food.properties@.len() - i,
        {
            local_props.push(tandoor_food.properties[i].duplicate());
            i = i + 1;
        }
    }
    proof {
        assert(local_props.deep_view() =~= base);
    }
    let nutrients = &usda_food.food_nutrients;
    let mut k: usize = 0;
    while k < nutrients.len()
        invariant
            0 <= k <= nutrients@.len(),
            local_props.deep_view() == merged_properties(base, nutrients.deep_view().take(k as int)),
        decreases nutrients@.len() - k,
    {
        let n = &nutrients[k];
        if !has_property_with_id(&local_props, n.nutrient_information.id) {
            local_props.push(InternalTandoorFoodProperty::from_nutrient(n));
        }
        proof {
            lemma_merged_push(base, nutrients.deep_view().take(k as int), nutrients.deep_view()[k as int]);
            assert(nutrients.deep_view().take(k as int).push(nutrients.deep_view()[k as int])
                =~= nutrients.deep_view().take(k + 1));
            assert(local_props.deep_view() =~= merged_properties(
                base,
                nutrients.deep_view().take(k + 1),
            ));
        }
        k = k + 1;
    }
    proof {
        assert(nutrients.deep_view().take(nutrients@.len() as int) =~= nutrients.deep_view());
        assert(usda_food@.food_nutrients == nutrients.deep_view());
    }
    let local_food = InternalTandoorFood {
        id: tandoor_food.id,
        name: tandoor_food.name.clone(),
        fdc_id: tandoor_food.fdc_id,
        properties: local_props,
        url: None,
    };
    let api_food = ApiTandoorFood::from_internal(local_food);
    (tandoor_food.id, api_food)
}

} // verus!
