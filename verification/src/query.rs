//! Shared query-string pieces: the optional limit, start and end parameters
//! that the history endpoints accept.

use vstd::prelude::*;
use vstd::string::StringExecFns;

use crate::text::{dec_of, dec_of_int, i64_to_dec, u64_to_dec};

verus! {

/// The `&limit=` parameter, empty when no limit is asked for.
pub open spec fn limit_param(limit: Option<u16>) -> Seq<char> {
    match limit {
        None => Seq::<char>::empty(),
        Some(l) => "&limit="@ + dec_of(l as nat),
    }
}

/// The `&start=` parameter over epoch milliseconds, empty when absent.
pub open spec fn start_param(start: Option<i64>) -> Seq<char> {
    match start {
        None => Seq::<char>::empty(),
        Some(s) => "&start="@ + dec_of_int(s as int),
    }
}

/// The `&end=` parameter over epoch milliseconds, empty when absent.
pub open spec fn end_param(end: Option<i64>) -> Seq<char> {
    match end {
        None => Seq::<char>::empty(),
        Some(e) => "&end="@ + dec_of_int(e as int),
    }
}

/// The three optional history parameters, in their fixed order.
pub open spec fn hist_params(limit: Option<u16>, start: Option<i64>, end: Option<i64>) -> Seq<
    char,
> {
    limit_param(limit) + start_param(start) + end_param(end)
}

/// Appends the optional history parameters to a path under construction.
pub fn append_hist_params(
    url: &mut String,
    limit: Option<u16>,
    start: Option<i64>,
    end: Option<i64>,
)
    ensures
        final(url)@ == old(url)@ + hist_params(limit, start, end),
{
    if let Some(l) = limit {
        url.append("&limit=");
        let d = u64_to_dec(l as u64);
        url.append(d.as_str());
    }
    if let Some(s) = start {
        url.append("&start=");
        let d = i64_to_dec(s);
        url.append(d.as_str());
    }
    if let Some(e) = end {
        url.append("&end=");
        let d = i64_to_dec(e);
        url.append(d.as_str());
    }
    proof {
        assert(url@ =~= old(url)@ + hist_params(limit, start, end));
    }
}

/// The key texts and value texts of a list of query parameter pairs.
pub open spec fn pairs_view(ps: Seq<(String, String)>) -> Seq<(Seq<char>, Seq<char>)> {
    ps.map(|i: int, p: (String, String)| (p.0@, p.1@))
}

/// The optional history parameters as name/value pairs, in their fixed
/// order.
pub open spec fn hist_pairs(limit: Option<u16>, start: Option<i64>, end: Option<i64>) -> Seq<
    (Seq<char>, Seq<char>),
> {
    (match limit {
        None => Seq::<(Seq<char>, Seq<char>)>::empty(),
        Some(l) => seq![("limit"@, dec_of(l as nat))],
    }) + (match start {
        None => Seq::<(Seq<char>, Seq<char>)>::empty(),
        Some(s) => seq![("start"@, dec_of_int(s as int))],
    }) + (match end {
        None => Seq::<(Seq<char>, Seq<char>)>::empty(),
        Some(e) => seq![("end"@, dec_of_int(e as int))],
    })
}

/// Builds the optional history parameters as name/value pairs for a call
/// that sends them as query parameters.
pub fn hist_params_vec(limit: Option<u16>, start: Option<i64>, end: Option<i64>) -> (v: Vec<
    (String, String),
>)
    ensures
        pairs_view(v@) == hist_pairs(limit, start, end),
{
    let mut v: Vec<(String, String)> = Vec::new();
    if let Some(l) = limit {
        v.push((String::from_str("limit"), u64_to_dec(l as u64)));
    }
    if let Some(s) = start {
        v.push((String::from_str("start"), i64_to_dec(s)));
    }
    if let Some(e) = end {
        v.push((String::from_str("end"), i64_to_dec(e)));
    }
    proof {
        assert(pairs_view(v@) =~= hist_pairs(limit, start, end));
    }
    v
}

} // verus!
