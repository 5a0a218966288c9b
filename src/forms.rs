//! The contact form of a prospective customer, and the insert it becomes.
use vstd::prelude::*;
use vstd::string::StringExecFns;

verus! {

/// What a prospective customer submits.
pub struct PotentialCustomerForm {
    pub name: String,
    pub email: String,
    pub message: String,
    pub agent: String,
    pub language: String,
    pub url: String,
}

/// The columns that a form fills, in order.
pub open spec fn form_fields_text() -> Seq<char> {
    "name, email, message, agent, language, url"@
}

/// Each value quoted as `'value'`, the six joined by `, `, as given: quotes
/// inside a value are not escaped.
pub open spec fn form_values_text(f: PotentialCustomerForm) -> Seq<char> {
    "'"@ + f.name@ + "', '"@ + f.email@ + "', '"@ + f.message@ + "', '"@ + f.agent@ + "', '"@ + f.language@
        + "', '"@ + f.url@ + "'"@
}

impl PotentialCustomerForm {
    /// The column list of the form's insert.
    pub fn insert_fields() -> (r: &'static str)
        ensures
            r@ == form_fields_text(),
    {
        "name, email, message, agent, language, url"
    }

    /// The value list of the form's insert, in the order of `insert_fields`.
    pub fn insert_values(&self) -> (r: String)
        ensures
            r@ == form_values_text(*self),
    {
        let mut r = String::from_str("'");
        r.append(self.name.as_str());
        r.append("', '");
        r.append(self.email.as_str());
        r.append("', '");
        r.append(self.message.as_str());
        r.append("', '");
        r.append(self.agent.as_str());
        r.append("', '");
        r.append(self.language.as_str());
        r.append("', '");
        r.append(self.url.as_str());
        r.append("'");
        r
    }
}

} // verus!
