//! The records exchanged with the search services and with the caller.
use vstd::prelude::*;

use crate::text::{join_lines, join_with_newlines, string_views};

verus! {

/// `serde_json::Value`, carried through the library as an opaque value.
#[verifier::external_type_specification]
#[verifier::external_body]
pub struct ExJsonValue(serde_json::Value);

/// Endpoint of the Parallel MCP server.
pub const PARALLEL_MCP_URL: &'static str = "https://search.parallel.ai/mcp";

/// Base of Ollama's web API; the tool name (`web_search` or `web_fetch`) follows it.
pub const OLLAMA_MCP_URL: &'static str = "https://ollama.com/api/";

// ===============================================
// Parallel

/// A JSON-RPC answer of the Parallel MCP server.
#[derive(Debug)]
pub struct ParallelResp<T> {
    pub jsonrpc: String,
    pub id: i32,
    pub result: ParallelRespRes<T>,
}

/// The `result` member of a Parallel answer.
#[derive(Debug)]
pub struct ParallelRespRes<T> {
    /// Usually one item.
    pub content: Vec<ContentItem>,
    pub structured_content: T,
    pub is_error: bool,
}

/// One item of `content`: its `type` (usually "text") and the stringified structured content.
#[derive(Debug)]
pub struct ContentItem {
    pub content_type: String,
    pub text: String,
}

/// Parallel's answer to a search.
pub type SearchResp = ParallelResp<SearchStructuredContent>;

/// Parallel's answer to a fetch.
pub type FetchResp = ParallelResp<FetchStructuredContent>;

/// Structured content of a Parallel search.
#[derive(Debug)]
pub struct SearchStructuredContent {
    pub search_id: String,
    pub results: Vec<SearchRes>,
    /// Displayed to the user, never stored.
    pub warnings: Option<serde_json::Value>,
    pub usage: Vec<Usage>,
    pub session_id: String,
}

/// One hit of a Parallel search.
#[derive(Debug)]
pub struct SearchRes {
    pub url: String,
    pub title: String,
    pub publish_date: Option<String>,
    pub excerpts: Vec<String>,
}

/// Structured content of a Parallel fetch.
#[derive(Debug)]
pub struct FetchStructuredContent {
    pub extract_id: String,
    pub results: Vec<FetchRes>,
    pub errors: Vec<serde_json::Value>,
    pub warnings: Option<serde_json::Value>,
    pub usage: Vec<Usage>,
    pub session_id: String,
}

/// One page extracted by a Parallel fetch.
#[derive(Debug)]
pub struct FetchRes {
    pub url: String,
    pub title: String,
    pub publish_date: Option<String>,
    pub excerpts: Vec<String>,
    pub full_content: Option<String>,
}

/// Usage accounting reported by Parallel.
#[derive(Debug)]
pub struct Usage {
    pub name: String,
    pub count: i32,
}

// ============================

/// A JSON-RPC `tools/call` request to the Parallel MCP server.
#[derive(Debug)]
pub struct WebPayloadParallel<T> {
    /// "2.0"
    pub jsonrpc: String,
    pub id: i32,
    /// "tools/call"
    pub method: String,
    pub params: WebParams<T>,
}

/// The `params` member of a request: the tool's name and its arguments.
#[derive(Debug)]
pub struct WebParams<T> {
    /// "web_search" or "web_fetch"
    pub name: String,
    pub arguments: T,
}

/// A search request.
pub type WebSearchPayloadParallel = WebPayloadParallel<SearchArgsParallel>;

/// A fetch request.
pub type WebFetchPayloadParallel = WebPayloadParallel<FetchArgsParallel>;

/// Arguments of a search: the main query and some extra ones.
#[derive(Debug)]
pub struct SearchArgsParallel {
    pub objective: String,
    pub search_queries: Vec<String>,
}

/// Every query of a search, the objective first, then the extra queries in order.
pub open spec fn spec_queries(args: SearchArgsParallel) -> Seq<Seq<char>> {
    seq![args.objective@] + string_views(args.search_queries@)
}

/// The queries of a search are its objective followed by every extra query,
/// in order: one more than the extra queries, none left out.
pub proof fn spec_queries_lists_every_query(args: SearchArgsParallel)
    ensures
        spec_queries(args).len() == args.search_queries@.len() + 1,
        spec_queries(args)[0] == args.objective@,
        forall|i: int|
            0 <= i < args.search_queries@.len() ==> #[trigger] spec_queries(args)[i + 1]
                == args.search_queries@[i]@,
{
}

impl SearchArgsParallel {
    /// The objective, then each extra query, in order.
    pub fn iter_queries(&self) -> (r: Vec<&str>)
        ensures
            r@.map_values(|q: &str| q@) == spec_queries(*self),
            r@.len() == self.search_queries@.len() + 1,
            r@[0]@ == self.objective@,
            forall|i: int| 0 <= i < self.search_queries@.len() ==> #[trigger] r@[i + 1]@ == self.search_queries@[i]@,
    {
        let mut r: Vec<&str> = Vec::new();
        r.push(self.objective.as_str());
        let mut i: usize = 0;
        while i < self.search_queries.len()
            invariant
                i <= self.search_queries.len(),
                r@.map_values(|q: &str| q@) == seq![self.objective@] + string_views(
                    self.search_queries@.take(i as int),
                ),
            decreases self.search_queries.len() - i,
        {
            let ghost before = r@;
            r.push(self.search_queries[i].as_str());
            assert(r@.map_values(|q: &str| q@) =~= before.map_values(|q: &str| q@).push(
                self.search_queries@[i as int]@,
            ));
            assert(string_views(self.search_queries@.take(i + 1)) =~= string_views(
                self.search_queries@.take(i as int),
            ).push(self.search_queries@[i as int]@));
            i = i + 1;
        }
        assert(self.search_queries@.take(self.search_queries.len() as int)
            =~= self.search_queries@);
        proof {
            spec_queries_lists_every_query(*self);
            assert forall|i: int| 0 <= i < self.search_queries@.len() implies #[trigger] r@[i + 1]@
                == self.search_queries@[i]@ by {
                assert(r@.map_values(|q: &str| q@)[i + 1] == r@[i + 1]@);
            }
            assert(r@.map_values(|q: &str| q@)[0] == r@[0]@);
        }
        r
    }
}

/// Arguments of a fetch: what to look for and the pages to read.
#[derive(Debug)]
pub struct FetchArgsParallel {
    pub objective: String,
    pub urls: Vec<String>,
}

impl FetchArgsParallel {
    /// The urls, in order.
    pub fn iter_urls(&self) -> (r: Vec<&str>)
        ensures
            r@.map_values(|u: &str| u@) == string_views(self.urls@),
    {
        let mut r: Vec<&str> = Vec::new();
        let mut i: usize = 0;
        while i < self.urls.len()
            invariant
                i <= self.urls.len(),
                r@.map_values(|u: &str| u@) == string_views(self.urls@.take(i as int)),
            decreases self.urls.len() - i,
        {
            let ghost before = r@;
            r.push(self.urls[i].as_str());
            assert(r@.map_values(|u: &str| u@) =~= before.map_values(|u: &str| u@).push(
                self.urls@[i as int]@,
            ));
            assert(string_views(self.urls@.take(i + 1)) =~= string_views(self.urls@.take(i as int)).push(
                self.urls@[i as int]@,
            ));
            i = i + 1;
        }
        assert(self.urls@.take(self.urls.len() as int) =~= self.urls@);
        r
    }
}

impl From<WebSearchArgs> for SearchArgsParallel {
    fn from(s: WebSearchArgs) -> (r: SearchArgsParallel) {
        SearchArgsParallel { objective: s.objective, search_queries: s.search_queries }
    }
}

impl vstd::std_specs::convert::FromSpecImpl<WebSearchArgs> for SearchArgsParallel {
    open spec fn obeys_from_spec() -> bool {
        true
    }

    open spec fn from_spec(s: WebSearchArgs) -> SearchArgsParallel {
        SearchArgsParallel { objective: s.objective, search_queries: s.search_queries }
    }
}

impl From<WebFetchArgs> for FetchArgsParallel {
    fn from(value: WebFetchArgs) -> (r: FetchArgsParallel) {
        FetchArgsParallel { objective: value.objective, urls: value.urls }
    }
}

impl vstd::std_specs::convert::FromSpecImpl<WebFetchArgs> for FetchArgsParallel {
    open spec fn obeys_from_spec() -> bool {
        true
    }

    open spec fn from_spec(value: WebFetchArgs) -> FetchArgsParallel {
        FetchArgsParallel { objective: value.objective, urls: value.urls }
    }
}

// ========================================================
// Ollama

/// Ollama's answer to a search.
#[derive(Debug)]
pub struct OllamaSearchResp {
    pub results: Vec<SearchResOl>,
}

/// One hit in Ollama's format; the caller receives search results in this format.
#[derive(Debug)]
pub struct SearchResOl {
    pub title: String,
    pub url: String,
    pub content: String,
    /// Ollama has no such field; it is kept when a Parallel hit is converted.
    pub publish_date: Option<String>,
}

/// Ollama's answer to a fetch: a single page.
#[derive(Debug)]
pub struct FetchResOl {
    pub title: String,
    pub content: String,
    pub links: Vec<String>,
}

// ===============================================================
// Tool calling

/// A tool call as the caller sends it; `arguments` holds JSON text.
#[derive(Debug)]
pub struct ToolCall {
    pub id: String,
    /// "web_search" or "web_fetch"
    pub name: String,
    pub arguments: String,
}

/// Arguments of a `web_fetch` call.
#[derive(Debug)]
pub struct WebFetchArgs {
    pub objective: String,
    pub urls: Vec<String>,
}

/// Arguments of a `web_search` call.
#[derive(Debug)]
pub struct WebSearchArgs {
    pub objective: String,
    pub search_queries: Vec<String>,
}

// ================================================================
// What the caller receives

/// One fetched page in the format that the caller receives.
#[derive(Debug)]
pub struct FetchRetVal {
    pub title: String,
    /// The page's address, where the service reports it.
    pub url: Option<String>,
    pub content: String,
    pub publish_date: Option<String>,
}

/// `o` is the hit `r` in Ollama's format: same title, url and date, the
/// excerpts joined line by line as content.
pub open spec fn search_hit_converted(r: SearchRes, o: SearchResOl) -> bool {
    &&& o.title == r.title
    &&& o.url == r.url
    &&& o.publish_date == r.publish_date
    &&& o.content@ == join_lines(string_views(r.excerpts@))
}

/// Each hit of `src` converted, in order.
pub open spec fn search_hits_converted(src: Seq<SearchRes>, dst: Seq<SearchResOl>) -> bool {
    &&& dst.len() == src.len()
    &&& forall|i: int| 0 <= i < src.len() ==> #[trigger] search_hit_converted(src[i], dst[i])
}

/// The text of a Parallel page: its full content where Parallel sends it,
/// else its excerpts joined line by line.
pub open spec fn fetch_page_text(r: FetchRes) -> Seq<char> {
    match r.full_content {
        Some(c) => c@,
        None => join_lines(string_views(r.excerpts@)),
    }
}

/// `v` is the Parallel page `r` in the caller's format.
pub open spec fn fetch_page_converted(r: FetchRes, v: FetchRetVal) -> bool {
    &&& v.title == r.title
    &&& v.url == Some(r.url)
    &&& v.publish_date == r.publish_date
    &&& v.content@ == fetch_page_text(r)
}

/// Each page of `src` converted, in order.
pub open spec fn fetch_pages_converted(src: Seq<FetchRes>, dst: Seq<FetchRetVal>) -> bool {
    &&& dst.len() == src.len()
    &&& forall|i: int| 0 <= i < src.len() ==> #[trigger] fetch_page_converted(src[i], dst[i])
}

/// The Ollama page `o` in the caller's format: no url or date is known.
pub open spec fn ollama_page(o: FetchResOl) -> FetchRetVal {
    FetchRetVal { title: o.title, url: None, content: o.content, publish_date: None }
}

/// A converted hit keeps the title, url and date of the Parallel hit, and
/// its content is all of the hit's excerpts joined line by line; a converted
/// list has one hit per Parallel hit, in the same order.
pub proof fn search_conversion_fields(src: Seq<SearchRes>, dst: Seq<SearchResOl>)
    requires
        search_hits_converted(src, dst),
    ensures
        dst.len() == src.len(),
        forall|i: int|
            0 <= i < src.len() ==> {
                &&& (#[trigger] dst[i]).title == src[i].title
                &&& dst[i].url == src[i].url
                &&& dst[i].publish_date == src[i].publish_date
                &&& dst[i].content@ == join_lines(string_views(src[i].excerpts@))
            },
{
    assert forall|i: int| 0 <= i < src.len() implies {
        &&& (#[trigger] dst[i]).title == src[i].title
        &&& dst[i].url == src[i].url
        &&& dst[i].publish_date == src[i].publish_date
        &&& dst[i].content@ == join_lines(string_views(src[i].excerpts@))
    } by {
        assert(search_hit_converted(src[i], dst[i]));
    }
}

/// A converted page keeps the title and date of the Parallel page, its url
/// becomes known, and its content is the page's text; a converted list has
/// one record per Parallel page, in the same order.
pub proof fn fetch_conversion_fields(src: Seq<FetchRes>, dst: Seq<FetchRetVal>)
    requires
        fetch_pages_converted(src, dst),
    ensures
        dst.len() == src.len(),
        forall|i: int|
            0 <= i < src.len() ==> {
                &&& (#[trigger] dst[i]).title == src[i].title
                &&& dst[i].url == Some(src[i].url)
                &&& dst[i].publish_date == src[i].publish_date
                &&& dst[i].content@ == fetch_page_text(src[i])
            },
{
    assert forall|i: int| 0 <= i < src.len() implies {
        &&& (#[trigger] dst[i]).title == src[i].title
        &&& dst[i].url == Some(src[i].url)
        &&& dst[i].publish_date == src[i].publish_date
        &&& dst[i].content@ == fetch_page_text(src[i])
    } by {
        assert(fetch_page_converted(src[i], dst[i]));
    }
}

/// An Ollama page reaches the caller with its title and content unchanged,
/// and with no url or date, whatever links it holds.
pub proof fn ollama_page_fields(o: FetchResOl)
    ensures
        ollama_page(o).title == o.title,
        ollama_page(o).content == o.content,
        ollama_page(o).url == None::<String>,
        ollama_page(o).publish_date == None::<String>,
{
}

/// A Parallel page's text is its full content when Parallel sends one, and
/// otherwise its excerpts joined line by line.
pub proof fn fetch_page_text_cases(r: FetchRes)
    ensures
        r.full_content matches Some(c) ==> fetch_page_text(r) == c@,
        r.full_content is None ==> fetch_page_text(r) == join_lines(string_views(r.excerpts@)),
{
}

impl SearchRes {
    /// This hit in Ollama's format.
    pub fn into_ollama(self) -> (o: SearchResOl)
        ensures
            search_hit_converted(self, o),
    {
        let content = join_with_newlines(&self.excerpts);
        SearchResOl { title: self.title, url: self.url, content, publish_date: self.publish_date }
    }
}

/// Search results are handed to the caller in Ollama's format; the Parallel
/// content is consumed by the conversion.
impl From<SearchStructuredContent> for OllamaSearchResp {
    fn from(value: SearchStructuredContent) -> (r: OllamaSearchResp)
        ensures
            search_hits_converted(value.results@, r.results@),
    {
        let ghost src = value.results@;
        let mut results: Vec<SearchResOl> = Vec::new();
        for hit in it: value.results.into_iter()
            invariant
                it.seq() == src,
                results.len() == it.index(),
                forall|i: int| 0 <= i < it.index() ==> #[trigger] search_hit_converted(src[i], results@[i]),
        {
            results.push(hit.into_ollama());
        }
        OllamaSearchResp { results }
    }
}

impl vstd::std_specs::convert::FromSpecImpl<SearchStructuredContent> for OllamaSearchResp {
    /// The converted text is stated by the `ensures` of `from` itself.
    open spec fn obeys_from_spec() -> bool {
        false
    }

    open spec fn from_spec(value: SearchStructuredContent) -> OllamaSearchResp {
        arbitrary()
    }
}

impl From<FetchRes> for FetchRetVal {
    fn from(r: FetchRes) -> (v: FetchRetVal)
        ensures
            fetch_page_converted(r, v),
    {
        let content = match r.full_content {
            Some(c) => c,
            None => join_with_newlines(&r.excerpts),
        };
        FetchRetVal { title: r.title, url: Some(r.url), content, publish_date: r.publish_date }
    }
}

impl vstd::std_specs::convert::FromSpecImpl<FetchRes> for FetchRetVal {
    /// The converted text is stated by the `ensures` of `from` itself.
    open spec fn obeys_from_spec() -> bool {
        false
    }

    open spec fn from_spec(r: FetchRes) -> FetchRetVal {
        arbitrary()
    }
}

impl From<FetchResOl> for FetchRetVal {
    fn from(o: FetchResOl) -> (v: FetchRetVal) {
        FetchRetVal { title: o.title, url: None, content: o.content, publish_date: None }
    }
}

impl vstd::std_specs::convert::FromSpecImpl<FetchResOl> for FetchRetVal {
    open spec fn obeys_from_spec() -> bool {
        true
    }

    open spec fn from_spec(o: FetchResOl) -> FetchRetVal {
        ollama_page(o)
    }
}

/// Fetched pages are handed to the caller one record per page; the Parallel
/// content is consumed by the conversion.
impl From<FetchStructuredContent> for Vec<FetchRetVal> {
    fn from(value: FetchStructuredContent) -> (r: Vec<FetchRetVal>)
        ensures
            fetch_pages_converted(value.results@, r@),
    {
        let ghost src = value.results@;
        let mut pages: Vec<FetchRetVal> = Vec::new();
        for page in it: value.results.into_iter()
            invariant
                it.seq() == src,
                pages.len() == it.index(),
                forall|i: int| 0 <= i < it.index() ==> #[trigger] fetch_page_converted(src[i], pages@[i]),
        {
            pages.push(FetchRetVal::from(page));
        }
        pages
    }
}

impl vstd::std_specs::convert::FromSpecImpl<FetchStructuredContent> for Vec<FetchRetVal> {
    /// The converted text is stated by the `ensures` of `from` itself.
    open spec fn obeys_from_spec() -> bool {
        false
    }

    open spec fn from_spec(value: FetchStructuredContent) -> Vec<FetchRetVal> {
        arbitrary()
    }
}

} // verus!
