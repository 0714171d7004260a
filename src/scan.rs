//! The offline fallback: the newest cached copy in a request's directory.
use crate::date::{dmy_pattern, dmy_text, later, parse_date, parsed_date, Date};
use crate::request::{file_in, FinanzApiRequestInformation};
use vstd::prelude::*;
use vstd::string::{StrSliceExecFns, StringExecFns};

verus! {

/// The date that a cache file name carries: the name without its last five
/// characters (the `.json` suffix), read as `dd-mm-yyyy`. A name of five
/// characters or fewer carries none.
pub open spec fn entry_date(name: Seq<char>) -> Option<(int, int, int)> {
    if name.len() > 5 {
        parsed_date(name.subrange(0, name.len() - 5), dmy_pattern())
    } else {
        None
    }
}

/// How many of `names` carry no date.
pub open spec fn count_skipped(names: Seq<Seq<char>>) -> nat
    decreases names.len(),
{
    if names.len() == 0 {
        0
    } else {
        count_skipped(names.drop_last()) + if entry_date(names.last()) is None {
            1nat
        } else {
            0nat
        }
    }
}

/// `t` is carried by one of `names` and no name carries a later day.
pub open spec fn is_latest(names: Seq<Seq<char>>, t: (int, int, int)) -> bool {
    &&& exists|i: int| 0 <= i < names.len() && #[trigger] entry_date(names[i]) == Some(t)
    &&& forall|j: int|
        0 <= j < names.len() && #[trigger] entry_date(names[j]) is Some ==> !later(
            entry_date(names[j])->Some_0,
            t,
        )
}

pub open spec fn names_view(names: Seq<String>) -> Seq<Seq<char>> {
    names.map_values(|s: String| s@)
}

/// What a scan of a cache directory found.
pub struct LatestCache {
    /// The file of the newest copy, if any name carried a date.
    pub path: Option<String>,
    /// How many names carried no date and were passed over.
    pub skipped: usize,
}

impl FinanzApiRequestInformation {
    /// Picks, among the file names of this request's cache directory, the
    /// one with the latest date, and returns its path. Names that carry no
    /// date are skipped and counted, never an error.
    pub fn latest_cache_path(&self, file_names: &Vec<String>) -> (r: LatestCache)
        ensures
            r.skipped == count_skipped(names_view(file_names@)),
            r.path is None <==> forall|i: int|
                0 <= i < file_names@.len() ==> #[trigger] entry_date(file_names@[i]@) is None,
            r.path is Some ==> exists|t: (int, int, int)|
                #[trigger] is_latest(names_view(file_names@), t) && r.path->Some_0@ == file_in(
                    self.cache_dir(),
                    dmy_text(t.0, t.1, t.2),
                ),
    {
        let ghost names = names_view(file_names@);
        let mut best: Option<Date> = None;
        let mut skipped: usize = 0;
        let mut i: usize = 0;
        proof {
            reveal_strlit("%d-%m-%Y");
            assert("%d-%m-%Y"@ =~= dmy_pattern());
        }
        while i < file_names.len()
            invariant
                0 <= i <= file_names@.len(),
                names == names_view(file_names@),
                names.len() == file_names@.len(),
                "%d-%m-%Y"@ == dmy_pattern(),
                skipped as nat == count_skipped(names.take(i as int)),
                skipped <= i,
                best is None <==> forall|j: int| 0 <= j < i ==> #[trigger] entry_date(names[j]) is None,
                best is Some ==> best->Some_0.wf() && is_latest(names.take(i as int), best->Some_0.triple()),
            decreases file_names@.len() - i,
        {
            let name = file_names[i].as_str();
            let len = name.unicode_len();
            let mut found: Option<Date> = None;
            if len > 5 {
                let stem = name.substring_char(0, len - 5);
                match parse_date(stem, "%d-%m-%Y") {
                    Ok(d) => {
                        found = Some(d);
                    },
                    Err(_) => {},
                }
            }
            proof {
                assert(names[i as int] == file_names@[i as int]@);
                assert(found is None <==> entry_date(names[i as int]) is None);
                assert(names.take(i as int + 1).drop_last() =~= names.take(i as int));
            }
            match found {
                None => {
                    skipped = skipped + 1;
                },
                Some(d) => {
                    let ghost old_best = best;
                    let better = match best {
                        None => true,
                        Some(b) => d.after(&b),
                    };
                    if better {
                        best = Some(d);
                    }
                    proof {
                        let pre = names.take(i as int);
                        let post = names.take(i as int + 1);
                        let t = best->Some_0.triple();
                        assert(post[i as int] == names[i as int]);
                        assert forall|j: int| 0 <= j < post.len() && #[trigger] entry_date(post[j]) is Some
                            implies !later(entry_date(post[j])->Some_0, t) by {
                            if j < i {
                                assert(post[j] == pre[j]);
                            }
                        }
                        if better {
                            assert(entry_date(post[i as int]) == Some(t));
                        } else {
                            let w = choose|k: int| 0 <= k < pre.len() && #[trigger] entry_date(pre[k]) == Some(t);
                            assert(post[w] == pre[w]);
                        }
                    }
                },
            }
            proof {
                let pre = names.take(i as int);
                let post = names.take(i as int + 1);
                if found is None && best is Some {
                    let t = best->Some_0.triple();
                    let w = choose|k: int| 0 <= k < pre.len() && #[trigger] entry_date(pre[k]) == Some(t);
                    assert(post[w] == pre[w]);
                    assert forall|j: int| 0 <= j < post.len() && #[trigger] entry_date(post[j]) is Some
                        implies !later(entry_date(post[j])->Some_0, t) by {
                        if j < i {
                            assert(post[j] == pre[j]);
                        }
                    }
                }
            }
            i = i + 1;
        }
        proof {
            assert(names.take(i as int) =~= names);
            assert forall|j: int| 0 <= j < file_names@.len() implies names[j] == file_names@[j]@ by {}
            if best is None {
                assert forall|j: int| 0 <= j < file_names@.len() implies #[trigger] entry_date(
                    file_names@[j]@,
                ) is None by {
                    assert(names[j] == file_names@[j]@);
                }
            } else {
                let t = best->Some_0.triple();
                let w = choose|k: int| 0 <= k < names.len() && #[trigger] entry_date(names[k]) == Some(t);
                assert(names[w] == file_names@[w]@);
                assert(entry_date(file_names@[w]@) is Some);
            }
        }
        let path = match best {
            None => None,
            Some(d) => {
                let stem = d.to_dmy();
                Some(self.get_cache_dir_path().concat("/").concat(stem.as_str()).concat(".json"))
            },
        };
        LatestCache { path, skipped }
    }
}

} // verus!
