//! The weekly time-series endpoint of the remote API.
use crate::config::Config;
use crate::error::FetchError;
use crate::request::FinanzApiRequestInformation;
use vstd::prelude::*;
use vstd::string::StringExecFns;

verus! {

/// Where and with which key the remote API is called.
#[derive(Debug)]
pub struct FinanzApiFetchData {
    pub api_key: String,
    pub url: String,
}

impl From<Config> for FinanzApiFetchData {
    fn from(value: Config) -> (r: FinanzApiFetchData) {
        FinanzApiFetchData { api_key: value.finanz_api_key, url: value.finanz_api_url }
    }
}

impl vstd::std_specs::convert::FromSpecImpl<Config> for FinanzApiFetchData {
    open spec fn obeys_from_spec() -> bool {
        true
    }

    open spec fn from_spec(v: Config) -> FinanzApiFetchData {
        FinanzApiFetchData { api_key: v.finanz_api_key, url: v.finanz_api_url }
    }
}

/// The header of a time-series document.
#[derive(Clone, Debug, PartialEq)]
pub struct MetaData {
    pub information: String,
    pub symbol: String,
    /// The day of the newest data point, as `YYYY-MM-DD`; a fetched
    /// document is cached under this date.
    pub last_refreshed: String,
    pub time_zone: String,
}

/// A query parameter, name and value.
pub open spec fn param(p: (String, String)) -> (Seq<char>, Seq<char>) {
    (p.0@, p.1@)
}

/// The query of a weekly request: the function, the symbol, the key and the
/// format of the answer.
pub open spec fn weekly_query(key: Seq<char>, api_key: Seq<char>) -> Seq<(Seq<char>, Seq<char>)> {
    seq![
        ("function"@, "TIME_SERIES_WEEKLY"@),
        ("symbol"@, key),
        ("apikey"@, api_key),
        ("datatype"@, "json"@),
    ]
}

impl FinanzApiFetchData {
    /// The query parameters of the HTTP GET that answers `request`; a search
    /// has no remote implementation and is refused.
    pub fn fetch_query(&self, request: &FinanzApiRequestInformation) -> (r: Result<
        Vec<(String, String)>,
        FetchError,
    >)
        ensures
            request is Search <==> r matches Err(FetchError::Unsupported(_)),
            request is GetWeekly <==> r is Ok,
            r is Ok ==> r->Ok_0@.map_values(|p: (String, String)| param(p)) == weekly_query(
                request->GetWeekly_key@,
                self.api_key@,
            ),
    {
        match request {
            FinanzApiRequestInformation::Search { .. } => Err(
                FetchError::Unsupported(String::from_str("the remote API offers no search")),
            ),
            FinanzApiRequestInformation::GetWeekly { key, .. } => {
                let mut query: Vec<(String, String)> = Vec::new();
                query.push((String::from_str("function"), String::from_str("TIME_SERIES_WEEKLY")));
                query.push((String::from_str("symbol"), key.clone()));
                query.push((String::from_str("apikey"), self.api_key.clone()));
                query.push((String::from_str("datatype"), String::from_str("json")));
                proof {
                    assert(query@.map_values(|p: (String, String)| param(p)) =~= weekly_query(
                        key@,
                        self.api_key@,
                    ));
                }
                Ok(query)
            },
        }
    }
}

} // verus!
