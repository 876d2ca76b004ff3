//! Where the historical price CSV of a symbol is looked for.

use crate::text::{str_equal, string_views};
use vstd::prelude::*;
use vstd::string::StringExecFns;

verus! {

/// What `str::to_lowercase` returns for a string (Unicode lower-case mapping).
pub uninterp spec fn lowercase_of(s: Seq<char>) -> Seq<char>;

/// Calls `str::to_lowercase`. Claimed: the result is the fixed Unicode
/// lower-case mapping of the argument, a function of the argument alone.
#[verifier::external_body]
fn to_lowercase(s: &str) -> (r: String)
    ensures
        r@ == lowercase_of(s@),
{
    s.to_lowercase()
}

/// The CSV paths tried for a symbol whose lower-case form is `lower`, in
/// order of preference: five years of data, one year, and for TSLA alone
/// the legacy file name used before consistent naming.
pub open spec fn csv_candidate_paths(lower: Seq<char>) -> Seq<Seq<char>> {
    let own = seq!["data/"@ + lower + "_five_year.csv"@, "data/"@ + lower + "_one_year.csv"@];
    if lower == "tsla"@ {
        own.push("data/tesla_one_year.csv"@)
    } else {
        own
    }
}

/// The first candidate whose flag says it exists, else the first candidate.
pub open spec fn first_existing(candidates: Seq<Seq<char>>, exists: Seq<bool>) -> Seq<char>
    decreases candidates.len(),
{
    if candidates.len() == 0 {
        Seq::empty()
    } else {
        first_existing_from(candidates, exists, 0)
    }
}

/// The first candidate at index `>= i` whose flag is set, else candidate 0.
pub open spec fn first_existing_from(candidates: Seq<Seq<char>>, exists: Seq<bool>, i: nat) -> Seq<char>
    decreases candidates.len() - i,
{
    if i >= candidates.len() {
        candidates[0]
    } else if i < exists.len() && exists[i as int] {
        candidates[i as int]
    } else {
        first_existing_from(candidates, exists, i + 1)
    }
}

/// The candidate CSV paths for `symbol`, in order of preference.
pub fn csv_candidates(symbol: &str) -> (r: Vec<String>)
    ensures
        2 <= r@.len() <= 3,
        string_views(r@) == csv_candidate_paths(lowercase_of(symbol@)),
{
    let lower = to_lowercase(symbol);
    let mut five = String::from_str("data/");
    five.append(lower.as_str());
    five.append("_five_year.csv");
    let mut one = String::from_str("data/");
    one.append(lower.as_str());
    one.append("_one_year.csv");
    let mut r: Vec<String> = Vec::new();
    r.push(five);
    r.push(one);
    if str_equal(lower.as_str(), "tsla") {
        r.push(String::from_str("data/tesla_one_year.csv"));
    }
    assert(string_views(r@) =~= csv_candidate_paths(lowercase_of(symbol@)));
    r
}

/// The most suitable CSV path for `symbol`: the first candidate of
/// [`csv_candidates`] whose entry in `exists` is `true` (the caller probes
/// the file system in that order), else the five-year path, so that the
/// loader reports a clear error.
pub fn find_csv(symbol: &str, exists: &Vec<bool>) -> (r: String)
    ensures
        r@ == first_existing(csv_candidate_paths(lowercase_of(symbol@)), exists@),
{
    let candidates = csv_candidates(symbol);
    let ghost cands = string_views(candidates@);
    let n = candidates.len();
    let mut i: usize = 0;
    while i < n
        invariant
            i <= n,
            n == candidates@.len(),
            n >= 2,
            cands == string_views(candidates@),
            cands == csv_candidate_paths(lowercase_of(symbol@)),
            first_existing(cands, exists@) == first_existing_from(cands, exists@, i as nat),
        decreases n - i,
    {
        if i < exists.len() && exists[i] {
            let r = candidates[i].clone();
            return r;
        }
        i = i + 1;
    }
    candidates[0].clone()
}

/// Law: the chosen CSV path is always one of the candidates.
pub proof fn lemma_find_csv_is_candidate(candidates: Seq<Seq<char>>, exists: Seq<bool>)
    requires
        candidates.len() > 0,
    ensures
        candidates.contains(first_existing(candidates, exists)),
{
    lemma_first_existing_from_is_candidate(candidates, exists, 0);
}

proof fn lemma_first_existing_from_is_candidate(candidates: Seq<Seq<char>>, exists: Seq<bool>, i: nat)
    requires
        candidates.len() > 0,
    ensures
        candidates.contains(first_existing_from(candidates, exists, i)),
    decreases candidates.len() - i,
{
    if i >= candidates.len() {
        assert(candidates[0] == first_existing_from(candidates, exists, i));
    } else if i < exists.len() && exists[i as int] {
        assert(candidates[i as int] == first_existing_from(candidates, exists, i));
    } else {
        lemma_first_existing_from_is_candidate(candidates, exists, i + 1);
    }
}

} // verus!
