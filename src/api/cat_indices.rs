//! The `_cat/indices` endpoint.
use vstd::prelude::*;

verus! {

/// The address of `GET <base>/_cat/indices<query>`.
pub fn get(base_url: &str, url_qry: &str) -> (r: String)
    ensures
        r@ == base_url@ + "/_cat/indices"@ + url_qry@,
{
    let mut url = String::from_str(base_url);
    url.append("/_cat/indices");
    url.append(url_qry);
    url
}

/// The address of `GET <base>/_cat/indices/<index><query>`.
pub fn get_index(base_url: &str, url_qry: &str, index: &str) -> (r: String)
    ensures
        r@ == base_url@ + "/_cat/indices/"@ + index@ + url_qry@,
{
    let mut url = String::from_str(base_url);
    url.append("/_cat/indices/");
    url.append(index);
    url.append(url_qry);
    url
}

} // verus!
