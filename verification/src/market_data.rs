use vstd::prelude::*;
use vstd::string::*;

verus! {

/// The query for one-minute bars of `symbol` between `start` and `end`, a
/// thousand bars per page, from the IEX feed.
pub open spec fn bars_query(symbol: Seq<char>, start: Seq<char>, end: Seq<char>) -> Seq<char> {
    "https://data.alpaca.markets/v2/stocks/bars?symbols="@ + symbol + "&timeframe=1Min&start="@
        + start + "&end="@ + end + "&limit=1000&feed=iex"@
}

/// The page-token suffix of a bars request: empty on the first page.
pub open spec fn page_suffix(page_token: Option<&str>) -> Seq<char> {
    match page_token {
        Some(t) => "&page_token="@ + t@,
        None => Seq::empty(),
    }
}

/// The URL of one page of bars: the query, followed by the page token when
/// a previous page named one.
pub fn bars_page_url(symbol: &str, start: &str, end: &str, page_token: Option<&str>) -> (url: String)
    ensures
        url@ == bars_query(symbol@, start@, end@) + page_suffix(page_token),
{
    let mut url = String::from_str("https://data.alpaca.markets/v2/stocks/bars?symbols=");
    url.append(symbol);
    url.append("&timeframe=1Min&start=");
    url.append(start);
    url.append("&end=");
    url.append(end);
    url.append("&limit=1000&feed=iex");
    let ghost query = url@;
    assert(query == bars_query(symbol@, start@, end@));
    match page_token {
        Some(token) => {
            url.append("&page_token=");
            url.append(token);
            assert(url@ =~= query + ("&page_token="@ + token@));
        },
        None => {
            assert(url@ =~= query + Seq::<char>::empty());
        },
    }
    url
}

} // verus!
