//! The `_stats` endpoint.
use vstd::prelude::*;

verus! {

/// The address of `GET <base>/_stats/<metric><query>`.
pub fn get_metric(base_url: &str, url_qry: &str, metric: &str) -> (r: String)
    ensures
        r@ == base_url@ + "/_stats/"@ + metric@ + url_qry@,
{
    let mut url = String::from_str(base_url);
    url.append("/_stats/");
    url.append(metric);
    url.append(url_qry);
    url
}

/// The address of `GET <base>/<index>/_stats<query>`.
pub fn get_index(base_url: &str, url_qry: &str, index: &str) -> (r: String)
    ensures
        r@ == base_url@ + "/"@ + index@ + "/_stats"@ + url_qry@,
{
    let mut url = String::from_str(base_url);
    url.append("/");
    url.append(index);
    url.append("/_stats");
    url.append(url_qry);
    url
}

/// The address of `GET <base>/<index>/_stats/<metric><query>`.
pub fn get_index_metric(base_url: &str, url_qry: &str, index: &str, metric: &str) -> (r: String)
    ensures
        r@ == base_url@ + "/"@ + index@ + "/_stats/"@ + metric@ + url_qry@,
{
    let mut url = String::from_str(base_url);
    url.append("/");
    url.append(index);
    url.append("/_stats/");
    url.append(metric);
    url.append(url_qry);
    url
}

/// The address of `GET <base>/_stats<query>`.
pub fn get(base_url: &str, url_qry: &str) -> (r: String)
    ensures
        r@ == base_url@ + "/_stats"@ + url_qry@,
{
    let mut url = String::from_str(base_url);
    url.append("/_stats");
    url.append(url_qry);
    url
}

} // verus!
