//! What is asked of the remote API, and where its answer is cached.
use crate::date::{dmy_text, parse_date, parsed_date, valid_date, ymd_pattern, Date};
use crate::error::FetchError;
use vstd::prelude::*;
use vstd::string::StringExecFns;

verus! {

/// A request to the remote API; it also names a place in the cache.
#[derive(Debug)]
pub enum FinanzApiRequestInformation {
    /// A symbol search; the remote side of it is not offered.
    Search { input: String },
    /// The weekly time series of the symbol `key`, up to `bis`.
    GetWeekly { key: String, from: Option<Date>, bis: Date },
}

/// Directory that holds the cached searches.
pub open spec fn search_dir() -> Seq<char> {
    "./cache/finanzapi/search"@
}

/// Directory under which each symbol's weekly series has its own directory.
pub open spec fn weekly_root() -> Seq<char> {
    "./cache/finanzapi/getweekly/"@
}

pub open spec fn json_suffix() -> Seq<char> {
    ".json"@
}

/// The file `stem.json` in the directory `dir`.
pub open spec fn file_in(dir: Seq<char>, stem: Seq<char>) -> Seq<char> {
    dir + "/"@ + stem + json_suffix()
}

/// The directory to create and the file to write for a fetched value.
#[derive(Debug)]
pub struct CacheTarget {
    pub dir: String,
    pub path: String,
}

impl FinanzApiRequestInformation {
    pub open spec fn wf(&self) -> bool {
        match self {
            FinanzApiRequestInformation::Search { .. } => true,
            FinanzApiRequestInformation::GetWeekly { bis, .. } => bis.wf(),
        }
    }

    /// The directory of the logical series: it depends on the kind and the key only.
    pub open spec fn cache_dir(&self) -> Seq<char> {
        match self {
            FinanzApiRequestInformation::Search { .. } => search_dir(),
            FinanzApiRequestInformation::GetWeekly { key, .. } => weekly_root() + key@,
        }
    }

    /// The file of one cached copy: the directory, then the input or the
    /// `bis` date as `dd-mm-yyyy`, then `.json`.
    pub open spec fn cache_path(&self) -> Seq<char> {
        match self {
            FinanzApiRequestInformation::Search { input } => file_in(self.cache_dir(), input@),
            FinanzApiRequestInformation::GetWeekly { bis, .. } => file_in(self.cache_dir(), bis.dmy()),
        }
    }

    /// Returns the directory of this request's cache entries.
    pub fn get_cache_dir_path(&self) -> (r: String)
        ensures
            r@ == self.cache_dir(),
    {
        match self {
            FinanzApiRequestInformation::Search { .. } => String::from_str("./cache/finanzapi/search"),
            FinanzApiRequestInformation::GetWeekly { key, .. } => {
                String::from_str("./cache/finanzapi/getweekly/").concat(key.as_str())
            },
        }
    }

    /// Returns the file of this request's cache entry.
    pub fn get_cache_path(&self) -> (r: String)
        requires
            self.wf(),
        ensures
            r@ == self.cache_path(),
    {
        let dir = self.get_cache_dir_path();
        match self {
            FinanzApiRequestInformation::Search { input } => {
                dir.concat("/").concat(input.as_str()).concat(".json")
            },
            FinanzApiRequestInformation::GetWeekly { bis, .. } => {
                let stem = bis.to_dmy();
                dir.concat("/").concat(stem.as_str()).concat(".json")
            },
        }
    }

    /// The same weekly request with `bis` replaced by the date of `text`,
    /// read as `YYYY-MM-DD`.
    pub open spec fn with_bis(&self, text: Seq<char>) -> Option<FinanzApiRequestInformation> {
        match self {
            FinanzApiRequestInformation::Search { .. } => None,
            FinanzApiRequestInformation::GetWeekly { key, from, bis } => match parsed_date(
                text,
                ymd_pattern(),
            ) {
                Some(t) => Some(
                    FinanzApiRequestInformation::GetWeekly {
                        key: *key,
                        from: *from,
                        bis: Date { year: t.0 as i32, month: t.1 as u32, day: t.2 as u32 },
                    },
                ),
                None => None,
            },
        }
    }

    /// Where a value fetched for this request is stored: the request's
    /// directory, and the file named after the date `last_refreshed` that
    /// the fetched payload reports, not after the caller's `bis`.
    pub fn write_target(&self, last_refreshed: String) -> (r: Result<CacheTarget, FetchError>)
        requires
            self.wf(),
        ensures
            self is Search ==> r matches Err(FetchError::Unsupported(_)),
            self is GetWeekly ==> (parsed_date(last_refreshed@, ymd_pattern()) is None <==> r matches Err(
                FetchError::ChronoParse(_),
            )),
            r is Ok <==> self.with_bis(last_refreshed@) is Some,
            r is Ok ==> r->Ok_0.dir@ == self.cache_dir() && r->Ok_0.path@ == self.with_bis(
                last_refreshed@,
            )->Some_0.cache_path(),
    {
        let refreshed = self.set_bis(last_refreshed)?;
        let dir = refreshed.get_cache_dir_path();
        let path = refreshed.get_cache_path();
        Ok(CacheTarget { dir, path })
    }

    /// Returns a new request whose `bis` is the date that `neues_bis` gives
    /// as `YYYY-MM-DD`; `self` is left as it is. A search has no dates and
    /// is refused.
    pub fn set_bis(&self, neues_bis: String) -> (r: Result<FinanzApiRequestInformation, FetchError>)
        requires
            self.wf(),
        ensures
            self is Search ==> r matches Err(FetchError::Unsupported(_)),
            self is GetWeekly ==> (parsed_date(neues_bis@, ymd_pattern()) is None <==> r matches Err(
                FetchError::ChronoParse(_),
            )),
            r is Ok <==> self.with_bis(neues_bis@) is Some,
            r is Ok ==> r->Ok_0 == self.with_bis(neues_bis@)->Some_0 && r->Ok_0.wf(),
    {
        match self {
            FinanzApiRequestInformation::Search { .. } => Err(
                FetchError::Unsupported(String::from_str("a search has no date to set")),
            ),
            FinanzApiRequestInformation::GetWeekly { key, from, .. } => {
                proof {
                    reveal_strlit("%Y-%m-%d");
                    assert("%Y-%m-%d"@ =~= ymd_pattern());
                }
                match parse_date(neues_bis.as_str(), "%Y-%m-%d") {
                    Ok(d) => Ok(
                        FinanzApiRequestInformation::GetWeekly { key: key.clone(), from: *from, bis: d },
                    ),
                    Err(e) => Err(FetchError::ChronoParse(e)),
                }
            },
        }
    }
}

/// Refreshing a request's date keeps its cache directory: the directory
/// names the logical series, the file name only the copy.
pub proof fn lemma_refresh_keeps_directory(request: FinanzApiRequestInformation, text: Seq<char>)
    requires
        request.with_bis(text) is Some,
    ensures
        request.with_bis(text)->Some_0.cache_dir() == request.cache_dir(),
{
}

/// A fetched value is stored in the request's directory, in the file named
/// after the date that its payload reports.
pub proof fn lemma_stored_under_reported_date(
    request: FinanzApiRequestInformation,
    text: Seq<char>,
    t: (int, int, int),
)
    requires
        request is GetWeekly,
        parsed_date(text, ymd_pattern()) == Some(t),
        valid_date(t.0, t.1, t.2),
    ensures
        request.with_bis(text) is Some,
        request.with_bis(text)->Some_0.cache_path() == file_in(request.cache_dir(), dmy_text(t.0, t.1, t.2)),
{
}

/// Writing a value for a request and then reading that request's entry
/// reach the same file when the payload reports the request's own `bis`.
pub proof fn lemma_write_then_read_same_file(request: FinanzApiRequestInformation, text: Seq<char>)
    requires
        request.wf(),
        request is GetWeekly,
        parsed_date(text, ymd_pattern()) == Some(request->GetWeekly_bis.triple()),
    ensures
        request.with_bis(text) is Some,
        request.with_bis(text)->Some_0.cache_path() == request.cache_path(),
{
}

} // verus!
