//! The property-type dictionary: the catalog's property definitions keyed
//! by cross-reference id. It is built once per run, before any per-food
//! work, and maps each id to the catalog's own name for that property —
//! when an id occurs more than once, the definition listed last wins.

use vstd::prelude::*;
use crate::tandoor::{InternalTandoorProperty, InternalTandoorPropertyView};

verus! {

/// The map a property list denotes: each id to its name, later entries
/// overriding earlier ones.
pub open spec fn dict_of(s: Seq<InternalTandoorPropertyView>) -> Map<i32, Seq<char>>
    decreases s.len(),
{
    if s.len() == 0 {
        Map::empty()
    } else {
        dict_of(s.drop_last()).insert(s.last().fdc_id, s.last().name)
    }
}

/// An id is in the dictionary exactly when some entry carries it.
pub proof fn lemma_dict_domain(s: Seq<InternalTandoorPropertyView>, id: i32)
    ensures
        dict_of(s).dom().contains(id) <==> exists|k: int| 0 <= k < s.len() && s[k].fdc_id == id,
    decreases s.len(),
{
    if s.len() > 0 {
        lemma_dict_domain(s.drop_last(), id);
        if s.last().fdc_id == id {
            assert(s[s.len() - 1].fdc_id == id);
        }
        if exists|k: int| 0 <= k < s.len() && s[k].fdc_id == id {
            let k = choose|k: int| 0 <= k < s.len() && s[k].fdc_id == id;
            if k < s.len() - 1 && s.last().fdc_id != id {
                assert(s.drop_last()[k] == s[k]);
            }
        }
        if exists|k: int| 0 <= k < s.drop_last().len() && s.drop_last()[k].fdc_id == id {
            let k = choose|k: int| 0 <= k < s.drop_last().len() && s.drop_last()[k].fdc_id == id;
            assert(s[k].fdc_id == id);
        }
    }
}

/// The name an id maps to is the name of the last entry carrying the id.
pub proof fn lemma_dict_lookup(s: Seq<InternalTandoorPropertyView>, i: int)
    requires
        0 <= i < s.len(),
        forall|j: int| i < j < s.len() ==> s[j].fdc_id != #[trigger] s[i].fdc_id,
    ensures
        dict_of(s).dom().contains(s[i].fdc_id),
        dict_of(s)[s[i].fdc_id] == s[i].name,
    decreases s.len(),
{
    if i == s.len() - 1 {
    } else {
        assert(s.drop_last()[i] == s[i]);
        assert forall|j: int| i < j < s.drop_last().len() implies s.drop_last()[j].fdc_id
            != #[trigger] s.drop_last()[i].fdc_id by {
            assert(s.drop_last()[j] == s[j]);
        }
        lemma_dict_lookup(s.drop_last(), i);
        assert(s.last().fdc_id != s[i].fdc_id);
    }
}

/// The catalog's property definitions, keyed by cross-reference id.
#[derive(Debug, Clone, PartialEq, Eq)]
pub struct PropertyDictionary {
    /// The property definitions as fetched, in catalog order.
    pub entries: Vec<InternalTandoorProperty>,
}

impl View for PropertyDictionary {
    type V = Map<i32, Seq<char>>;

    open spec fn view(&self) -> Map<i32, Seq<char>> {
        dict_of(self.entries.deep_view())
    }
}

impl PropertyDictionary {
    /// Builds the dictionary from the fetched property definitions.
    pub fn from_properties(entries: Vec<InternalTandoorProperty>) -> (r: PropertyDictionary)
        ensures
            r.entries == entries,
            r@ == dict_of(entries.deep_view()),
    {
        PropertyDictionary { entries }
    }

    /// The number of property definitions the catalog reported.
    pub fn property_count(&self) -> (n: usize)
        ensures
            n == self.entries@.len(),
    {
        self.entries.len()
    }

    /// Finds the catalog name for a cross-reference id.
    pub fn lookup(&self, id: i32) -> (r: Option<&String>)
        ensures
            match r {
                Some(name) => self@.dom().contains(id) && name@ == self@[id],
                None => !self@.dom().contains(id),
            },
    {
        let n = self.entries.len();
        let mut i: usize = n;
        while i > 0
            invariant
                0 <= i <= n,
                n == self.entries@.len(),
                forall|j: int|
                    i <= j < n ==> #[trigger] self.entries.deep_view()[j].fdc_id != id,
            decreases i,
        {
            i = i - 1;
            if self.entries[i].fdc_id == id {
                proof {
                    assert(self.entries.deep_view()[i as int].fdc_id == id);
                    lemma_dict_lookup(self.entries.deep_view(), i as int);
                }
                return Some(&self.entries[i].name);
            }
        }
        proof {
            lemma_dict_domain(self.entries.deep_view(), id);
        }
        None
    }

    /// Checks whether a cross-reference id is a tracked property.
    pub fn contains(&self, id: i32) -> (r: bool)
        ensures
            r == self@.dom().contains(id),
    {
        match self.lookup(id) {
            Some(_) => true,
            None => false,
        }
    }
}

} // verus!
