use vstd::prelude::*;
use vstd::string::*;

verus! {

/// The orders endpoint under a broker's base URL.
pub fn orders_url(base_url: &str) -> (url: String)
    ensures
        url@ == base_url@ + "/v2/orders"@,
{
    let mut url = String::from_str(base_url);
    url.append("/v2/orders");
    url
}

} // verus!
