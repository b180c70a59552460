//! The URLs that send the browser back to a client: a base with parameters
//! appended to its query.

use vstd::prelude::*;
use crate::outside::{
    parse_url_with_params,
    url_fits,
    url_with_params,
    URL_PARAMS_MAX,
    URL_TEXT_MAX,
};

verus! {

/// The absolute URL `base` with `params` appended to its query, in order.
/// `None` where `base` is no absolute URL, and where the base, a parameter
/// or the number of parameters is beyond what a URL is built from.
pub open spec fn redirect_url(base: Seq<char>, params: Seq<(Seq<char>, Seq<char>)>) -> Option<
    Seq<char>,
> {
    if url_fits(base, params) {
        url_with_params(base, params)
    } else {
        None
    }
}

/// Builds the URL that [`redirect_url`] defines.
pub fn url_with_query(base: &str, params: &Vec<(String, String)>) -> (r: Option<String>)
    ensures
        r.deep_view() == redirect_url(base@, params.deep_view()),
{
    if base.unicode_len() > URL_TEXT_MAX || params.len() > URL_PARAMS_MAX {
        return None;
    }
    let mut i: usize = 0;
    while i < params.len()
        invariant
            i <= params.len(),
            forall|j: int|
                0 <= j < i ==> (#[trigger] params.deep_view()[j]).0.len() <= URL_TEXT_MAX
                    && params.deep_view()[j].1.len() <= URL_TEXT_MAX,
        decreases params.len() - i,
    {
        let name_len = params[i].0.as_str().unicode_len();
        let value_len = params[i].1.as_str().unicode_len();
        assert(params.deep_view()[i as int].0 == params[i as int].0@);
        assert(params.deep_view()[i as int].1 == params[i as int].1@);
        if name_len > URL_TEXT_MAX || value_len > URL_TEXT_MAX {
            return None;
        }
        i = i + 1;
    }
    match parse_url_with_params(base, params) {
        Ok(text) => Some(text),
        Err(_) => None,
    }
}

} // verus!
