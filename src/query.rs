use vstd::prelude::*;
use vstd::string::*;

use crate::content::ContentType;
use crate::error::Error;
use crate::fetcher::{Fetcher, STATUS_OK};
use crate::locator::{opt_view, Url, CDX_HOST};
use crate::records::{json_objects, page_decoded, CDXItems};
use crate::text::{decimal_string, decimal_text};
use crate::timestamp::{
    is_timestamp, lemma_digit_count_bound, lemma_pow10_values, pad_high, pad_low, pad_scale, padded,
    pow10, timestamp_ok,
};

verus! {

/// Whether an optional time window is valid: each bound has at most
/// fourteen digits and, when both are set, the earliest instant of `from`
/// does not come after the latest instant of `to`.
pub open spec fn range_ok(from: Option<u64>, to: Option<u64>) -> bool {
    match (from, to) {
        (Some(f), Some(t)) => timestamp_ok(f) && timestamp_ok(t) && pad_low(f as nat) <= pad_high(
            t as nat,
        ),
        (Some(f), None) => timestamp_ok(f),
        (None, Some(t)) => timestamp_ok(t),
        (None, None) => true,
    }
}

fn check_range(from: Option<u64>, to: Option<u64>) -> (r: bool)
    ensures
        r == range_ok(from, to),
{
    match (from, to) {
        (Some(f), Some(t)) => {
            if !is_timestamp(f) || !is_timestamp(t) {
                return false;
            }
            let (lo, _) = padded(f);
            let (_, hi) = padded(t);
            lo <= hi
        },
        (Some(f), None) => is_timestamp(f),
        (None, Some(t)) => is_timestamp(t),
        (None, None) => true,
    }
}

/// A bound of more than fourteen digits makes any time window invalid.
pub proof fn lemma_long_bound_refused(f: u64, t: Option<u64>)
    requires
        f >= 100000000000000,
    ensures
        !range_ok(Some(f), t),
        !range_ok(t, Some(f)),
{
    lemma_digit_count_bound(f as nat, 14);
    lemma_pow10_values();
}

/// Two full fourteen-digit timestamps form a valid window exactly when
/// `from` is not after `to`.
pub proof fn lemma_full_timestamps_compare(f: u64, t: u64)
    requires
        10000000000000 <= f < 100000000000000,
        10000000000000 <= t < 100000000000000,
    ensures
        range_ok(Some(f), Some(t)) <==> f <= t,
{
    lemma_digit_count_bound(f as nat, 14);
    lemma_digit_count_bound(f as nat, 13);
    lemma_digit_count_bound(t as nat, 14);
    lemma_digit_count_bound(t as nat, 13);
    lemma_pow10_values();
    assert(pad_scale(f as nat) == 1 && pad_scale(t as nat) == 1) by {
        assert(pow10(0) == 1);
    }
}

/// `name=value` for a numeric option that is set.
pub open spec fn number_param(name: Seq<char>, v: Option<u64>) -> Option<Seq<char>> {
    match v {
        Some(n) => Some(name + "="@ + decimal_text(n as nat)),
        None => None,
    }
}

/// The decimal text of a signed number.
pub open spec fn signed_text(n: i64) -> Seq<char> {
    if n < 0 {
        "-"@ + decimal_text((-n) as nat)
    } else {
        decimal_text(n as nat)
    }
}

/// `name=value` for a signed option that is set.
pub open spec fn signed_param(name: Seq<char>, v: Option<i64>) -> Option<Seq<char>> {
    match v {
        Some(n) => Some(name + "="@ + signed_text(n)),
        None => None,
    }
}

/// `name=value` for a text option that is set, the value verbatim.
pub open spec fn text_param(name: Seq<char>, v: Option<Seq<char>>) -> Option<Seq<char>> {
    match v {
        Some(s) => Some(name + "="@ + s),
        None => None,
    }
}

/// `name=true` for a flag that is on.
pub open spec fn flag_param(name: Seq<char>, b: bool) -> Option<Seq<char>> {
    if b {
        Some(name + "=true"@)
    } else {
        None
    }
}

pub open spec fn with_param(ps: Seq<Seq<char>>, p: Option<Seq<char>>) -> Seq<Seq<char>> {
    match p {
        Some(x) => ps.push(x),
        None => ps,
    }
}

/// The parameters joined by `&`.
pub open spec fn join_params(ps: Seq<Seq<char>>) -> Seq<char>
    decreases ps.len(),
{
    if ps.len() == 0 {
        Seq::empty()
    } else if ps.len() == 1 {
        ps[0]
    } else {
        join_params(ps.drop_last()) + "&"@ + ps.last()
    }
}

pub open spec fn parts_view(v: Vec<String>) -> Seq<Seq<char>> {
    v@.map_values(|s: String| s@)
}

fn add_param(parts: &mut Vec<String>, p: Option<String>)
    ensures
        parts_view(*final(parts)) == with_param(parts_view(*old(parts)), opt_view(p)),
{
    if let Some(x) = p {
        parts.push(x);
        assert(parts_view(*final(parts)) =~= parts_view(*old(parts)).push(x@));
    }
}

fn join(parts: &Vec<String>) -> (r: String)
    ensures
        r@ == join_params(parts_view(*parts)),
{
    let ghost pv = parts_view(*parts);
    let mut out = String::new();
    if parts.len() == 0 {
        return out;
    }
    out.append(parts[0].as_str());
    let mut i: usize = 1;
    assert(pv.subrange(0, 1).drop_last().len() == 0);
    while i < parts.len()
        invariant
            pv == parts_view(*parts),
            1 <= i <= parts@.len(),
            out@ == join_params(pv.subrange(0, i as int)),
        decreases parts@.len() - i,
    {
        assert(pv.subrange(0, i + 1).drop_last() =~= pv.subrange(0, i as int));
        out.append("&");
        out.append(parts[i].as_str());
        i = i + 1;
    }
    assert(pv.subrange(0, parts@.len() as int) =~= pv);
    out
}

fn number_param_of(name: &str, v: Option<u64>) -> (r: Option<String>)
    ensures
        opt_view(r) == number_param(name@, v),
{
    match v {
        Some(n) => {
            let mut s = String::from_str(name);
            s.append("=");
            let d = decimal_string(n);
            s.append(d.as_str());
            Some(s)
        },
        None => None,
    }
}

fn signed_string(n: i64) -> (r: String)
    ensures
        r@ == signed_text(n),
{
    if n < 0 {
        let m: u64 = ((-(n + 1)) as u64) + 1;
        let mut s = String::from_str("-");
        let d = decimal_string(m);
        s.append(d.as_str());
        s
    } else {
        decimal_string(n as u64)
    }
}

fn signed_param_of(name: &str, v: Option<i64>) -> (r: Option<String>)
    ensures
        opt_view(r) == signed_param(name@, v),
{
    match v {
        Some(n) => {
            let mut s = String::from_str(name);
            s.append("=");
            let d = signed_string(n);
            s.append(d.as_str());
            Some(s)
        },
        None => None,
    }
}

fn text_param_of(name: &str, v: &Option<String>) -> (r: Option<String>)
    ensures
        opt_view(r) == text_param(name@, opt_view(*v)),
{
    match v {
        Some(x) => {
            let mut s = String::from_str(name);
            s.append("=");
            s.append(x.as_str());
            Some(s)
        },
        None => None,
    }
}

fn flag_param_of(name: &str, b: bool) -> (r: Option<String>)
    ensures
        opt_view(r) == flag_param(name@, b),
{
    if b {
        let mut s = String::from_str(name);
        s.append("=true");
        Some(s)
    } else {
        None
    }
}

/// The options of one query against a collection's CDX index.
#[derive(Clone, Debug, PartialEq, Eq)]
pub struct CDXQuerier {
    /// The collection's index path on the CDX host.
    pub path: String,
    /// The start of the time window, a timestamp or a prefix of one.
    pub from: Option<u64>,
    /// The end of the time window, a timestamp or a prefix of one.
    pub to: Option<u64>,
    /// The most records the service is to return.
    pub limit: Option<u64>,
    /// The service's ordering mode.
    pub sort: Option<i64>,
    /// A field-match expression, forwarded verbatim.
    pub filter: Option<String>,
    /// The single field to return.
    pub field: Option<String>,
    /// The page to return.
    pub page: Option<u64>,
    /// The number of index blocks per page.
    pub page_size: Option<u64>,
    /// Ask for the number of pages instead of records.
    pub show_num_pages: bool,
    /// Ask for the paged secondary index instead of records.
    pub show_paged_index: bool,
}

impl CDXQuerier {
    /// The time window is valid and a page size, if set, is positive.
    pub open spec fn wf(&self) -> bool {
        range_ok(self.from, self.to) && self.page_size != Some(0u64)
    }

    /// The query parameters, in the order they are rendered.
    pub open spec fn params(&self) -> Seq<Seq<char>> {
        let ps = seq!["output=json"@];
        let ps = with_param(ps, number_param("from"@, self.from));
        let ps = with_param(ps, number_param("to"@, self.to));
        let ps = with_param(ps, number_param("limit"@, self.limit));
        let ps = with_param(ps, signed_param("sort"@, self.sort));
        let ps = with_param(ps, text_param("filter"@, opt_view(self.filter)));
        let ps = with_param(ps, text_param("fl"@, opt_view(self.field)));
        let ps = with_param(ps, number_param("page"@, self.page));
        let ps = with_param(ps, number_param("pageSize"@, self.page_size));
        let ps = with_param(ps, flag_param("showNumPages"@, self.show_num_pages));
        with_param(ps, flag_param("showPagedIndex"@, self.show_paged_index))
    }

    /// The rendered query string.
    pub open spec fn query_text(&self) -> Seq<char> {
        join_params(self.params())
    }

    /// The locator, as (host, path), of the query.
    pub open spec fn target(&self) -> (Seq<char>, Seq<char>) {
        (CDX_HOST@, self.path@ + "?"@ + self.query_text())
    }

    /// A query with an empty path and no option set.
    pub fn new() -> (r: CDXQuerier)
        ensures
            r.wf(),
            r.path@.len() == 0,
            r.from is None && r.to is None && r.limit is None && r.sort is None,
            r.filter is None && r.field is None && r.page is None && r.page_size is None,
            !r.show_num_pages && !r.show_paged_index,
    {
        CDXQuerier {
            path: String::new(),
            from: None,
            to: None,
            limit: None,
            sort: None,
            filter: None,
            field: None,
            page: None,
            page_size: None,
            show_num_pages: false,
            show_paged_index: false,
        }
    }

    /// Sets the collection's index path.
    pub fn set_path(self, path: &str) -> (r: Result<CDXQuerier, Error>)
        ensures
            r matches Ok(q) && q.path@ == path@ && q == (CDXQuerier { path: q.path, ..self }),
    {
        Ok(CDXQuerier { path: String::from_str(path), ..self })
    }

    /// Sets the start of the time window. It may be a prefix of a
    /// timestamp and then stands for the earliest instant it allows; more
    /// than fourteen digits, or a start after the end already set, gives
    /// `InvalidRange`.
    pub fn set_from(self, from: u64) -> (r: Result<CDXQuerier, Error>)
        ensures
            r is Ok <==> range_ok(Some(from), self.to),
            r matches Ok(q) ==> q == (CDXQuerier { from: Some(from), ..self }),
            r is Err ==> r == Err::<CDXQuerier, Error>(Error::InvalidRange),
    {
        if check_range(Some(from), self.to) {
            Ok(CDXQuerier { from: Some(from), ..self })
        } else {
            Err(Error::InvalidRange)
        }
    }

    /// Sets the end of the time window. It may be a prefix of a timestamp
    /// and then stands for the latest instant it allows; more than
    /// fourteen digits, or an end before the start already set, gives
    /// `InvalidRange`.
    pub fn set_to(self, to: u64) -> (r: Result<CDXQuerier, Error>)
        ensures
            r is Ok <==> range_ok(self.from, Some(to)),
            r matches Ok(q) ==> q == (CDXQuerier { to: Some(to), ..self }),
            r is Err ==> r == Err::<CDXQuerier, Error>(Error::InvalidRange),
    {
        if check_range(self.from, Some(to)) {
            Ok(CDXQuerier { to: Some(to), ..self })
        } else {
            Err(Error::InvalidRange)
        }
    }

    /// Sets both ends of the time window at once, replacing any set
    /// before; fails with `InvalidRange` as `set_from` and `set_to` do.
    pub fn set_time_range(self, from: u64, to: u64) -> (r: Result<CDXQuerier, Error>)
        ensures
            r is Ok <==> range_ok(Some(from), Some(to)),
            r matches Ok(q) ==> q == (CDXQuerier { from: Some(from), to: Some(to), ..self }),
            r is Err ==> r == Err::<CDXQuerier, Error>(Error::InvalidRange),
    {
        if check_range(Some(from), Some(to)) {
            Ok(CDXQuerier { from: Some(from), to: Some(to), ..self })
        } else {
            Err(Error::InvalidRange)
        }
    }

    /// Sets the most records the service is to return.
    pub fn set_limit(self, limit: u64) -> (r: Result<CDXQuerier, Error>)
        ensures
            r == Ok::<CDXQuerier, Error>(CDXQuerier { limit: Some(limit), ..self }),
    {
        Ok(CDXQuerier { limit: Some(limit), ..self })
    }

    /// Sets the service's ordering mode; its meaning is the service's.
    pub fn set_sort(self, sort: i64) -> (r: Result<CDXQuerier, Error>)
        ensures
            r == Ok::<CDXQuerier, Error>(CDXQuerier { sort: Some(sort), ..self }),
    {
        Ok(CDXQuerier { sort: Some(sort), ..self })
    }

    /// Sets the field-match expression, forwarded verbatim.
    pub fn set_filter(self, filter: &str) -> (r: Result<CDXQuerier, Error>)
        ensures
            r matches Ok(q) && opt_view(q.filter) == Some(filter@) && q == (CDXQuerier {
                filter: q.filter,
                ..self
            }),
    {
        Ok(CDXQuerier { filter: Some(String::from_str(filter)), ..self })
    }

    /// Sets the single field to return.
    pub fn set_field(self, field: &str) -> (r: Result<CDXQuerier, Error>)
        ensures
            r matches Ok(q) && opt_view(q.field) == Some(field@) && q == (CDXQuerier {
                field: q.field,
                ..self
            }),
    {
        Ok(CDXQuerier { field: Some(String::from_str(field)), ..self })
    }

    /// Sets the page to return.
    pub fn set_page(self, page: u64) -> (r: Result<CDXQuerier, Error>)
        ensures
            r == Ok::<CDXQuerier, Error>(CDXQuerier { page: Some(page), ..self }),
    {
        Ok(CDXQuerier { page: Some(page), ..self })
    }

    /// Sets the page size; zero gives `InvalidPageSize`.
    pub fn set_page_size(self, page_size: u64) -> (r: Result<CDXQuerier, Error>)
        ensures
            page_size == 0 ==> r == Err::<CDXQuerier, Error>(Error::InvalidPageSize),
            page_size != 0 ==> r == Ok::<CDXQuerier, Error>(
                CDXQuerier { page_size: Some(page_size), ..self },
            ),
    {
        if page_size == 0 {
            Err(Error::InvalidPageSize)
        } else {
            Ok(CDXQuerier { page_size: Some(page_size), ..self })
        }
    }

    /// Sets the page and the page size at once; a page size of zero gives
    /// `InvalidPageSize`.
    pub fn set_pagination(self, page: u64, page_size: u64) -> (r: Result<CDXQuerier, Error>)
        ensures
            page_size == 0 ==> r == Err::<CDXQuerier, Error>(Error::InvalidPageSize),
            page_size != 0 ==> r == Ok::<CDXQuerier, Error>(
                CDXQuerier { page: Some(page), page_size: Some(page_size), ..self },
            ),
    {
        if page_size == 0 {
            Err(Error::InvalidPageSize)
        } else {
            Ok(CDXQuerier { page: Some(page), page_size: Some(page_size), ..self })
        }
    }

    /// Turns on or off the request for the number of pages.
    pub fn set_show_num_pages(self, toggle: bool) -> (r: CDXQuerier)
        ensures
            r == (CDXQuerier { show_num_pages: toggle, ..self }),
    {
        CDXQuerier { show_num_pages: toggle, ..self }
    }

    /// Turns on or off the request for the paged secondary index.
    pub fn set_show_paged_index(self, toggle: bool) -> (r: CDXQuerier)
        ensures
            r == (CDXQuerier { show_paged_index: toggle, ..self }),
    {
        CDXQuerier { show_paged_index: toggle, ..self }
    }

    /// Renders the options as a query string: `output=json`, then each
    /// option that is set, joined by `&`.
    pub fn query_string(&self) -> (r: String)
        ensures
            r@ == self.query_text(),
    {
        let mut parts: Vec<String> = Vec::new();
        parts.push(String::from_str("output=json"));
        assert(parts_view(parts) =~= seq!["output=json"@]);
        add_param(&mut parts, number_param_of("from", self.from));
        add_param(&mut parts, number_param_of("to", self.to));
        add_param(&mut parts, number_param_of("limit", self.limit));
        add_param(&mut parts, signed_param_of("sort", self.sort));
        add_param(&mut parts, text_param_of("filter", &self.filter));
        add_param(&mut parts, text_param_of("fl", &self.field));
        add_param(&mut parts, number_param_of("page", self.page));
        add_param(&mut parts, number_param_of("pageSize", self.page_size));
        add_param(&mut parts, flag_param_of("showNumPages", self.show_num_pages));
        add_param(&mut parts, flag_param_of("showPagedIndex", self.show_paged_index));
        join(&parts)
    }

    /// The locator of the query: the index path, `?`, the query string.
    pub fn url(&self) -> (r: Url)
        ensures
            r@ == self.target(),
    {
        let mut path = String::from_str(self.path.as_str());
        path.append("?");
        let q = self.query_string();
        path.append(q.as_str());
        Url::CDX { path }
    }

    /// The request that runs the query, asking for JSON.
    pub fn fetcher(&self) -> (r: Fetcher)
        ensures
            r.url@ == self.target(),
            r.content_type == ContentType::JSON,
    {
        Fetcher::json_fetcher(self.url())
    }

    /// Completes the query from the transport's answer to `self.fetcher()`:
    /// a status other than 200 gives `UnexpectedStatus`, else the body is
    /// decoded into the page of records, in the order received.
    pub fn exec(self, status: u16, body: &[u8]) -> (r: Result<CDXItems, Error>)
        ensures
            status != STATUS_OK ==> r == Err::<CDXItems, Error>(Error::UnexpectedStatus(status)),
            status == STATUS_OK ==> page_decoded(r, json_objects(body@)),
    {
        CDXItems::fetch(status, body)
    }
}

impl Default for CDXQuerier {
    fn default() -> (r: CDXQuerier)
        ensures
            r.wf(),
            r.path@.len() == 0,
            r.from is None && r.to is None && r.limit is None && r.sort is None,
            r.filter is None && r.field is None && r.page is None && r.page_size is None,
            !r.show_num_pages && !r.show_paged_index,
    {
        CDXQuerier::new()
    }
}

} // verus!
