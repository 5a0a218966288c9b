//! Tenants: a caller's access token resolves to a customer whose domain
//! scopes the paths of its recommendations.
use vstd::prelude::*;
use vstd::string::StringExecFns;

use crate::errors::CRUDError;
use crate::recommendations::{is_recommendation_list, nan_free, Item, Recommendation};

verus! {

/// The one access token that is recognised.
pub open spec fn accepted_token() -> Seq<char> {
    "cool"@
}

/// The domain of the tenant that the recognised token resolves to.
pub open spec fn tenant_domain() -> Seq<char> {
    "invfin"@
}

/// A tenant: its access token and the domain that scopes its paths.
pub struct Customer {
    pub key: String,
    pub domain: String,
}

impl Customer {
    /// The tenant of `token`, bound to the fixed domain.
    pub fn new(token: String) -> (r: Self)
        ensures
            r.key@ == token@,
            r.domain@ == tenant_domain(),
    {
        Customer { key: token, domain: String::from_str("invfin") }
    }

    /// Resolves an access token: the recognised token gives its tenant, any
    /// other gives none.
    pub fn get(token: String) -> (r: Option<Self>)
        ensures
            r is Some <==> token@ == accepted_token(),
            r matches Some(c) ==> c.key@ == token@ && c.domain@ == tenant_domain(),
    {
        let accepted = String::from_str("cool");
        if token == accepted {
            Some(Customer::new(token))
        } else {
            None
        }
    }

    /// Recommendations for an entity under this tenant's domain, from the
    /// store's answer for it: its item and its reference items, which must
    /// be free of NaN features, or the error that fetching them gave, which is
    /// passed on unchanged.
    pub fn get_recommendations(&self, fetched: Result<(Item, Vec<Item>), CRUDError>, num_recs: u8) -> (r: Result<Vec<Recommendation>, CRUDError>)
        requires
            fetched matches Ok((item, references)) ==> nan_free(item, references@),
        ensures
            match fetched {
                Err(e) => r == Err::<Vec<Recommendation>, CRUDError>(e),
                Ok((item, references)) => r matches Ok(recs)
                    && is_recommendation_list(recs@, self.domain@, references@, num_recs),
            },
    {
        match fetched {
            Ok((item, references)) => Ok(Recommendation::generate_recommendations(self.domain.as_str(), &item, &references, num_recs)),
            Err(err) => Err(err),
        }
    }
}

} // verus!
