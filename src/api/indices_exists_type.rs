//! The type-exists endpoint.
use vstd::prelude::*;

verus! {

/// The address of `HEAD <base>/<index>/<type><query>`.
pub fn head_index_type(base_url: &str, url_qry: &str, index: &str, doc_type: &str) -> (r: String)
    ensures
        r@ == base_url@ + "/"@ + index@ + "/"@ + doc_type@ + url_qry@,
{
    let mut url = String::from_str(base_url);
    url.append("/");
    url.append(index);
    url.append("/");
    url.append(doc_type);
    url.append(url_qry);
    url
}

} // verus!
