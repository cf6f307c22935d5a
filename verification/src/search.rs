//! Search: the query sent to the remote search API and the results that
//! come back, as plain request/response values.

use vstd::prelude::*;
use vstd::string::StringExecFns;

use crate::json::{dec_str, dec_u32, escape_string, escaped, json_of, json_view, json_views,
    lemma_json_views, parse_json, JsonV, JsonValue};

verus! {

/// One search result from the server.
#[derive(Debug)]
pub struct SearchResult {
    pub url: String,
    pub title: String,
    pub description: String,
    pub thumbnail: Option<String>,
}

/// Spec-level shape of [`SearchResult`].
#[verifier::ext_equal]
pub struct SearchResultV {
    pub url: Seq<char>,
    pub title: Seq<char>,
    pub description: Seq<char>,
    pub thumbnail: Option<Seq<char>>,
}

impl View for SearchResult {
    type V = SearchResultV;

    open spec fn view(&self) -> SearchResultV {
        SearchResultV {
            url: self.url@,
            title: self.title@,
            description: self.description@,
            thumbnail: match self.thumbnail {
                Some(ref t) => Some(t@),
                None => None,
            },
        }
    }
}

impl Clone for SearchResult {
    /// A clone is equal to the original in every field.
    fn clone(&self) -> (r: Self)
        ensures
            r == *self,
    {
        SearchResult {
            url: self.url.clone(),
            title: self.title.clone(),
            description: self.description.clone(),
            thumbnail: match &self.thumbnail {
                Some(t) => Some(t.clone()),
                None => None,
            },
        }
    }
}

impl SearchResult {
    /// A result from its four fields.
    pub fn new(url: String, title: String, description: String, thumbnail: Option<String>) -> (r:
        SearchResult)
        ensures
            r == (SearchResult { url, title, description, thumbnail }),
    {
        SearchResult { url, title, description, thumbnail }
    }

    /// The result's manifest URL.
    pub fn url(&self) -> (r: String)
        ensures
            r@ == self.url@,
    {
        self.url.clone()
    }

    /// The result's title.
    pub fn title(&self) -> (r: String)
        ensures
            r@ == self.title@,
    {
        self.title.clone()
    }

    /// The result's description.
    pub fn description(&self) -> (r: String)
        ensures
            r@ == self.description@,
    {
        self.description.clone()
    }

    /// The result's thumbnail URI, when it has one.
    pub fn thumbnail(&self) -> (r: Option<String>)
        ensures
            match (r, self.thumbnail) {
                (Some(a), Some(b)) => a@ == b@,
                (None, None) => true,
                _ => false,
            },
    {
        match &self.thumbnail {
            Some(t) => Some(t.clone()),
            None => None,
        }
    }
}

// ---------------------------------------------------------------------------
// Extraction of results from response JSON.
// ---------------------------------------------------------------------------

/// The result one JSON value describes: `url`, `title` and `description`
/// must be strings; `thumbnail` may be absent or null (no thumbnail) or a
/// string. Anything else is malformed.
pub open spec fn search_result_of(v: JsonV) -> Option<SearchResultV> {
    match (v.get("url"@), v.get("title"@), v.get("description"@)) {
        (Some(JsonV::Str(url)), Some(JsonV::Str(title)), Some(JsonV::Str(description))) => match v.get(
            "thumbnail"@,
        ) {
            None => Some(SearchResultV { url, title, description, thumbnail: None }),
            Some(JsonV::Null) => Some(SearchResultV { url, title, description, thumbnail: None }),
            Some(JsonV::Str(t)) => Some(
                SearchResultV { url, title, description, thumbnail: Some(t) },
            ),
            Some(_) => None,
        },
        _ => None,
    }
}

/// The results of a list of values; nothing if any element is malformed.
pub open spec fn search_results_of(items: Seq<JsonV>) -> Option<Seq<SearchResultV>>
    decreases items.len(),
{
    if items.len() == 0 {
        Some(Seq::empty())
    } else {
        match (search_results_of(items.drop_last()), search_result_of(items.last())) {
            (Some(init), Some(r)) => Some(init.push(r)),
            _ => None,
        }
    }
}

/// One malformed element spoils the whole list.
proof fn lemma_search_results_fail(items: Seq<JsonV>, i: int)
    requires
        0 <= i < items.len(),
        search_result_of(items[i]) is None,
    ensures
        search_results_of(items) is None,
    decreases items.len(),
{
    if i < items.len() - 1 {
        lemma_search_results_fail(items.drop_last(), i);
    }
}

/// The result list a string of response JSON describes: the parsed results
/// when the text is a well-formed array of well-formed results, and the
/// empty list otherwise.
pub open spec fn results_of_text(s: Seq<char>) -> Seq<SearchResultV> {
    match json_of(s) {
        Some(JsonV::Arr(items)) => match search_results_of(items) {
            Some(rs) => rs,
            None => Seq::empty(),
        },
        _ => Seq::empty(),
    }
}

/// The shapes of a list of results, in order.
pub open spec fn results_view(rs: Seq<SearchResult>) -> Seq<SearchResultV> {
    rs.map(|_i: int, r: SearchResult| r@)
}

fn parse_search_result(v: &JsonValue) -> (r: Option<SearchResult>)
    ensures
        match r {
            Some(res) => search_result_of(v@) == Some(res@),
            None => search_result_of(v@) is None,
        },
{
    let url: String = match v.get("url") {
        Some(x) => match x.as_str_value() {
            Some(s) => s.clone(),
            None => {
                return None;
            },
        },
        None => {
            return None;
        },
    };
    let title: String = match v.get("title") {
        Some(x) => match x.as_str_value() {
            Some(s) => s.clone(),
            None => {
                return None;
            },
        },
        None => {
            return None;
        },
    };
    let description: String = match v.get("description") {
        Some(x) => match x.as_str_value() {
            Some(s) => s.clone(),
            None => {
                return None;
            },
        },
        None => {
            return None;
        },
    };
    let thumbnail: Option<String> = match v.get("thumbnail") {
        None => None,
        Some(x) => match x {
            JsonValue::Null => None,
            JsonValue::Str(s) => Some(s.clone()),
            _ => {
                return None;
            },
        },
    };
    Some(SearchResult { url, title, description, thumbnail })
}

fn parse_search_results(items: &Vec<JsonValue>) -> (r: Option<Vec<SearchResult>>)
    ensures
        match r {
            Some(rs) => search_results_of(json_views(items@)) == Some(results_view(rs@)),
            None => search_results_of(json_views(items@)) is None,
        },
{
    let ghost jvs = json_views(items@);
    proof {
        lemma_json_views(items@);
    }
    let n = items.len();
    let mut out: Vec<SearchResult> = Vec::new();
    let mut i: usize = 0;
    while i < n
        invariant
            n == items.len(),
            i <= n,
            jvs == json_views(items@),
            jvs.len() == n,
            forall|j: int| 0 <= j < n ==> jvs[j] == json_view(items@[j]),
            search_results_of(jvs.take(i as int)) == Some(results_view(out@)),
        decreases n - i,
    {
        match parse_search_result(&items[i]) {
            Some(res) => {
                let ghost prev = out@;
                out.push(res);
                proof {
                    assert(jvs.take(i + 1).drop_last() =~= jvs.take(i as int));
                    assert(results_view(out@) =~= results_view(prev).push(out@.last()@));
                }
            },
            None => {
                proof {
                    lemma_search_results_fail(jvs, i as int);
                }
                return None;
            },
        }
        i += 1;
    }
    proof {
        assert(jvs.take(n as int) =~= jvs);
    }
    Some(out)
}

/// The results of one search response.
pub struct SearchResults {
    pub results: Vec<SearchResult>,
}

impl SearchResults {
    /// Parses a search response. Text that is not a well-formed array of
    /// well-formed results yields the empty collection, never an error.
    pub fn new(s: String) -> (r: SearchResults)
        ensures
            results_view(r.results@) == results_of_text(s@),
    {
        let empty_ok: SearchResults = SearchResults { results: Vec::new() };
        proof {
            assert(results_view(empty_ok.results@) =~= Seq::<SearchResultV>::empty());
        }
        match parse_json(s.as_str()) {
            Some(v) => match v {
                JsonValue::Arr(items) => match parse_search_results(&items) {
                    Some(rs) => SearchResults { results: rs },
                    None => empty_ok,
                },
                _ => empty_ok,
            },
            None => empty_ok,
        }
    }

    /// How many results came back.
    pub fn len(&self) -> (r: usize)
        ensures
            r == self.results@.len(),
    {
        self.results.len()
    }

    /// A copy of the result at `i`, or nothing out of range.
    pub fn get(&self, i: usize) -> (r: Option<SearchResult>)
        ensures
            match r {
                Some(res) => i < self.results@.len() && res == self.results@[i as int],
                None => i >= self.results@.len(),
            },
    {
        if i < self.results.len() {
            Some(self.results[i].clone())
        } else {
            None
        }
    }
}

// ---------------------------------------------------------------------------
// The query sent to the server.
// ---------------------------------------------------------------------------

/// A search query: free text, a theme, a sort key, and a row count that is
/// clamped, not rejected, into a byte's range.
pub struct SearchQuery {
    pub query: String,
    pub theme: String,
    pub sort: String,
    pub rows: u8,
}

impl SearchQuery {
    /// A query for the given text: no theme, no sort key, ten rows.
    pub fn new(query: String) -> (r: SearchQuery)
        ensures
            r.query@ == query@,
            r.theme@ == Seq::<char>::empty(),
            r.sort@ == Seq::<char>::empty(),
            r.rows == 10,
    {
        SearchQuery { query, theme: String::new(), sort: String::new(), rows: 10 }
    }

    /// Replaces the theme.
    pub fn set_theme(&mut self, theme: String)
        ensures
            *final(self) == (SearchQuery { theme, ..*old(self) }),
    {
        self.theme = theme;
    }

    /// Replaces the sort key.
    pub fn set_sort(&mut self, sort: String)
        ensures
            *final(self) == (SearchQuery { sort, ..*old(self) }),
    {
        self.sort = sort;
    }

    /// Sets the row count, clamped to a byte: anything above 255 becomes
    /// 255.
    pub fn set_rows(&mut self, rows: u32)
        ensures
            final(self).rows == if rows > 255 {
                255int
            } else {
                rows as int
            },
            final(self).query == old(self).query,
            final(self).theme == old(self).theme,
            final(self).sort == old(self).sort,
    {
        self.rows = if rows > 255 {
            255
        } else {
            rows as u8
        };
    }

    /// The query text.
    pub fn query(&self) -> (r: String)
        ensures
            r@ == self.query@,
    {
        self.query.clone()
    }

    /// The theme.
    pub fn theme(&self) -> (r: String)
        ensures
            r@ == self.theme@,
    {
        self.theme.clone()
    }

    /// The sort key.
    pub fn sort(&self) -> (r: String)
        ensures
            r@ == self.sort@,
    {
        self.sort.clone()
    }

    /// The row count.
    pub fn rows(&self) -> (r: u8)
        ensures
            r == self.rows,
    {
        self.rows
    }

    /// The query as one JSON object, fields in declaration order, the row
    /// count as a number.
    pub open spec fn json_text(self) -> Seq<char> {
        "{\"query\":\""@ + escape_string(self.query@) + "\",\"theme\":\""@ + escape_string(
            self.theme@,
        ) + "\",\"sort\":\""@ + escape_string(self.sort@) + "\",\"rows\":"@ + dec_str(
            self.rows as nat,
        ) + "}"@
    }

    /// Serializes the query to JSON text, exactly [`Self::json_text`].
    pub fn json(&self) -> (r: String)
        ensures
            r@ == self.json_text(),
    {
        let mut out = String::new();
        out.append("{\"query\":\"");
        out.append(escaped(self.query.as_str()).as_str());
        out.append("\",\"theme\":\"");
        out.append(escaped(self.theme.as_str()).as_str());
        out.append("\",\"sort\":\"");
        out.append(escaped(self.sort.as_str()).as_str());
        out.append("\",\"rows\":");
        out.append(dec_u32(self.rows as u32).as_str());
        out.append("}");
        proof {
            assert(out@ =~= self.json_text());
        }
        out
    }
}

} // verus!
