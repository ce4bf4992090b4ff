//! Named string parameters, and their form encoding for a query string.

use vstd::prelude::*;
use crate::text::text_of;

verus! {

/// One named string value of a query or of a body.
#[derive(Debug, Clone, PartialEq, Eq)]
pub struct Param {
    pub name: String,
    pub value: String,
}

impl View for Param {
    type V = (Seq<char>, Seq<char>);

    open spec fn view(&self) -> (Seq<char>, Seq<char>) {
        (self.name@, self.value@)
    }
}

impl Param {
    /// A parameter with the given name and value.
    pub fn new(name: &str, value: &str) -> (r: Param)
        ensures
            r@ == (name@, value@),
    {
        Param { name: name.to_owned(), value: value.to_owned() }
    }
}

/// A list of parameters as pairs of name and value, in the list's order.
pub open spec fn pairs_of(params: Seq<Param>) -> Seq<(Seq<char>, Seq<char>)> {
    params.map_values(|p: Param| p@)
}

/// The `application/x-www-form-urlencoded` rendering of a list of pairs,
/// in the list's order.
pub uninterp spec fn form_urlencoded(pairs: Seq<(Seq<char>, Seq<char>)>) -> Option<Seq<char>>;

/// Encodes parameters as a query string with `serde_urlencoded::to_string`,
/// handing it the parameters as a sequence of pairs.
///
/// Trusted: the result is the named `form_urlencoded` of the pairs, `None`
/// where the crate reports an error.
#[verifier::external_body]
pub(crate) fn encode_form(params: &Vec<Param>) -> (r: Option<String>)
    ensures
        text_of(r) == form_urlencoded(pairs_of(params@)),
{
    let pairs: Vec<(&str, &str)> =
        params.iter().map(|p| (p.name.as_str(), p.value.as_str())).collect();
    serde_urlencoded::to_string(pairs).ok()
}

} // verus!
