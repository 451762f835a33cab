//! The catalog's API endpoints. Two API versions are supported; they
//! differ only in the URL segment of the property-type listing, and the
//! version is taken as explicit, validated configuration — never inferred.

use vstd::prelude::*;
use crate::text::{decimal_string, int_str, str_eq};

verus! {

/// True for the catalog API versions this library knows.
pub open spec fn supported_version(version: Seq<char>) -> bool {
    version == "v1"@ || version == "v2"@
}

/// The URL segment of the property-type listing for an API version.
pub open spec fn property_path_of(version: Seq<char>) -> Seq<char> {
    if version == "v1"@ {
        "food-property-type/"@
    } else {
        "property-type/"@
    }
}

/// Mathematical image of [`ApiEndpoints`].
#[verifier::ext_equal]
pub struct ApiEndpointsView {
    pub base_url: Seq<char>,
    pub version: Seq<char>,
    pub endpoints: Seq<(Seq<char>, Seq<char>)>,
}

/// The endpoint table a version and base URL denote.
pub open spec fn endpoints_of(version: Seq<char>, base: Seq<char>) -> ApiEndpointsView {
    let burl = "http://"@ + base + "/api/"@;
    ApiEndpointsView {
        base_url: burl,
        version: version,
        endpoints: seq![
            ("properties"@, burl + property_path_of(version)),
            ("food"@, burl + "food/"@),
        ],
    }
}

/// The first endpoint of the table carrying the name, if any.
pub open spec fn lookup_endpoint(
    eps: Seq<(Seq<char>, Seq<char>)>,
    name: Seq<char>,
) -> Option<Seq<char>>
    decreases eps.len(),
{
    if eps.len() == 0 {
        None
    } else if eps[0].0 == name {
        Some(eps[0].1)
    } else {
        lookup_endpoint(eps.drop_first(), name)
    }
}

proof fn lemma_lookup_skip(eps: Seq<(Seq<char>, Seq<char>)>, name: Seq<char>, i: int)
    requires
        0 <= i <= eps.len(),
        forall|j: int| 0 <= j < i ==> (#[trigger] eps[j]).0 != name,
    ensures
        lookup_endpoint(eps, name) == lookup_endpoint(eps.skip(i), name),
    decreases i,
{
    if i > 0 {
        assert(eps[0].0 != name);
        assert forall|j: int| 0 <= j < i - 1 implies (#[trigger] eps.drop_first()[j]).0
            != name by {
            assert(eps.drop_first()[j] == eps[j + 1]);
        }
        lemma_lookup_skip(eps.drop_first(), name, i - 1);
        assert(eps.drop_first().skip(i - 1) =~= eps.skip(i));
    } else {
        assert(eps.skip(0) =~= eps);
    }
}

/// The API endpoints of one configured catalog instance.
#[derive(Debug)]
pub struct ApiEndpoints {
    base_url: String,
    version: String,
    endpoints: Vec<(String, String)>,
}

impl View for ApiEndpoints {
    type V = ApiEndpointsView;

    closed spec fn view(&self) -> ApiEndpointsView {
        ApiEndpointsView {
            base_url: self.base_url@,
            version: self.version@,
            endpoints: self.endpoints.deep_view(),
        }
    }
}

impl ApiEndpoints {
    #[verifier::type_invariant]
    spec fn wf(self) -> bool {
        self.endpoints@.len() == 2
    }

    /// Builds the endpoint table for a supported API version.
    pub fn new(version: &str, base_url: &str) -> (r: Result<ApiEndpoints, String>)
        ensures
            match r {
                Ok(e) => supported_version(version@) && e@ == endpoints_of(version@, base_url@),
                Err(msg) => !supported_version(version@) && msg@
                    == "The given API version is not supported: "@ + version@,
            },
    {
        Self::with_base_url(version, base_url)
    }

    /// Builds the endpoint table for a supported API version and base URL.
    pub fn with_base_url(version: &str, base_url: &str) -> (r: Result<ApiEndpoints, String>)
        ensures
            match r {
                Ok(e) => supported_version(version@) && e@ == endpoints_of(version@, base_url@),
                Err(msg) => !supported_version(version@) && msg@
                    == "The given API version is not supported: "@ + version@,
            },
    {
        let v1 = str_eq(version, "v1");
        let v2 = str_eq(version, "v2");
        if !v1 && !v2 {
            return Err(
                String::from_str("The given API version is not supported: ").concat(version),
            );
        }
        let base_owned = String::from_str("http://").concat(base_url).concat("/api/");
        let prop_path: &str = if v1 {
            "food-property-type/"
        } else {
            "property-type/"
        };
        let mut endpoints: Vec<(String, String)> = Vec::new();
        endpoints.push((String::from_str("properties"), base_owned.clone().concat(prop_path)));
        endpoints.push((String::from_str("food"), base_owned.clone().concat("food/")));
        let result = ApiEndpoints {
            base_url: base_owned,
            version: String::from_str(version),
            endpoints,
        };
        proof {
            assert(result@.endpoints =~= endpoints_of(version@, base_url@).endpoints);
            assert(result@ =~= endpoints_of(version@, base_url@));
        }
        Ok(result)
    }

    /// The endpoint of the property-type listing.
    pub fn get_endpoint_properties(&self) -> (r: &String)
        ensures
            r@ == self@.endpoints[0].1,
    {
        proof {
            use_type_invariant(self);
        }
        &self.endpoints[0].1
    }

    /// The endpoint of the food listing.
    pub fn get_endpoint_food(&self) -> (r: &String)
        ensures
            r@ == self@.endpoints[1].1,
    {
        proof {
            use_type_invariant(self);
        }
        &self.endpoints[1].1
    }

    /// The URL of the partial-update endpoint for one food.
    pub fn get_endpoint_food_update(&self, food_id: i32) -> (r: String)
        ensures
            r@ == self@.endpoints[1].1 + int_str(food_id as int) + "/"@,
    {
        proof {
            use_type_invariant(self);
        }
        let mut url = self.endpoints[1].1.clone();
        let id_text = decimal_string(food_id);
        url.append(id_text.as_str());
        url.append("/");
        url
    }

    /// Finds an endpoint by name.
    pub fn get_endpoint(&self, name: &str) -> (r: Option<&String>)
        ensures
            match r {
                Some(s) => lookup_endpoint(self@.endpoints, name@) == Some(s@),
                None => lookup_endpoint(self@.endpoints, name@) is None,
            },
    {
        let mut i: usize = 0;
        while i < self.endpoints.len()
            invariant
                0 <= i <= self.endpoints@.len(),
                forall|j: int|
                    0 <= j < i ==> (#[trigger] self.endpoints.deep_view()[j]).0 != name@,
            decreases self.endpoints@.len() - i,
        {
            if str_eq(self.endpoints[i].0.as_str(), name) {
                proof {
                    lemma_lookup_skip(self.endpoints.deep_view(), name@, i as int);
                    assert(self.endpoints.deep_view().skip(i as int)[0]
                        == self.endpoints.deep_view()[i as int]);
                }
                return Some(&self.endpoints[i].1);
            }
            i = i + 1;
        }
        proof {
            lemma_lookup_skip(self.endpoints.deep_view(), name@, i as int);
            assert(self.endpoints.deep_view().skip(i as int) =~= Seq::<(
                Seq<char>,
                Seq<char>,
            )>::empty());
        }
        None
    }

    /// All endpoints, as name and URL pairs.
    pub fn get_all_endpoints(&self) -> (r: &Vec<(String, String)>)
        ensures
            r.deep_view() == self@.endpoints,
    {
        &self.endpoints
    }

    /// The configured API version.
    pub fn get_version(&self) -> (r: &str)
        ensures
            r@ == self@.version,
    {
        self.version.as_str()
    }

    /// The base URL all endpoints share.
    pub fn get_base_url(&self) -> (r: &str)
        ensures
            r@ == self@.base_url,
    {
        self.base_url.as_str()
    }
}

} // verus!
