//! The decisions of a tool call: which service answers, how the Ollama
//! fallback is planned, and what the caller finally receives.
//!
//! The network calls themselves are made by the caller of this module: it
//! asks a session what to request next, makes the request, and hands the
//! outcome back.
use vstd::prelude::*;

use crate::metadata::{
    search_hits_converted, fetch_pages_converted, ollama_page, spec_queries,
    FetchArgsParallel, FetchResOl, FetchResp, FetchRetVal, OllamaSearchResp, SearchArgsParallel,
    SearchResOl, SearchResp, OLLAMA_MCP_URL,
};
use crate::text::string_views;

verus! {

/// At most this many queries are sent to Ollama when a search falls back.
pub const MAX_FALLBACK_QUERIES: usize = 10;

/// How many results Ollama is asked for per query for a search of `n` queries:
/// about twelve in all, but never fewer than 3 nor more than 10 per query.
pub open spec fn spec_top_k(n: int) -> int
    recommends
        n > 0,
{
    let k = (12 + n / 2) / n;
    if k < 3 {
        3
    } else if k > 10 {
        10
    } else {
        k
    }
}

/// The number of results asked of Ollama per query, for `n` queries.
pub fn ollama_top_k(n: usize) -> (k: usize)
    requires
        n > 0,
    ensures
        k == spec_top_k(n as int),
        3 <= k <= 10,
        k > 3 ==> k * n <= 12 + n / 2,
        k < 10 ==> 12 + n / 2 < (k + 1) * n,
{
    let k = (12 + n / 2) / n;
    proof {
        let ni = n as int;
        let m = 12 + ni / 2;
        let ki = k as int;
        assert(ki == m / ni);
        assert(ki * ni <= m < (ki + 1) * ni) by (nonlinear_arith)
            requires
                ni > 0,
                ki == m / ni,
        ;
        if ki < 3 {
            assert((ki + 1) * ni <= 3 * ni) by (nonlinear_arith)
                requires
                    ni > 0,
                    ki + 1 <= 3,
            ;
        }
        if ki > 10 {
            assert(10 * ni <= ki * ni) by (nonlinear_arith)
                requires
                    ni > 0,
                    ki >= 10,
            ;
        }
    }
    if k < 3 {
        3
    } else if k > 10 {
        10
    } else {
        k
    }
}

/// The number of results asked of Ollama's search: `top_k`, or 5 when none is given.
pub fn ollama_max_results(top_k: Option<usize>) -> (k: usize)
    ensures
        k == match top_k {
            Some(t) => t,
            None => 5,
        },
{
    match top_k {
        Some(t) => t,
        None => 5,
    }
}

/// The address of one of Ollama's web tools (`web_search`, `web_fetch`).
pub fn ollama_endpoint(tool: &str) -> (url: String)
    ensures
        url@ == OLLAMA_MCP_URL@ + tool@,
{
    String::from_str(OLLAMA_MCP_URL).concat(tool)
}

/// The first `MAX_FALLBACK_QUERIES` of `q`.
pub open spec fn first_queries(q: Seq<Seq<char>>) -> Seq<Seq<char>> {
    if q.len() <= MAX_FALLBACK_QUERIES {
        q
    } else {
        q.take(MAX_FALLBACK_QUERIES as int)
    }
}

/// The hits of one Ollama search: none when it failed.
pub open spec fn outcome_hits<E>(o: Result<OllamaSearchResp, E>) -> Seq<SearchResOl> {
    match o {
        Ok(r) => r.results@,
        Err(_) => Seq::empty(),
    }
}

/// The hits of the successful searches among `outcomes`, in order.
pub open spec fn successful_hits<E>(outcomes: Seq<Result<OllamaSearchResp, E>>) -> Seq<SearchResOl>
    decreases outcomes.len(),
{
    if outcomes.len() == 0 {
        Seq::empty()
    } else {
        successful_hits(outcomes.drop_last()) + outcome_hits(outcomes.last())
    }
}

/// The first queries of a list are its first `MAX_FALLBACK_QUERIES`
/// elements, unchanged and in order, or the whole list when it is shorter.
pub proof fn first_queries_prefix(q: Seq<Seq<char>>)
    ensures
        first_queries(q).len() == if q.len() <= MAX_FALLBACK_QUERIES { q.len() } else { MAX_FALLBACK_QUERIES as nat },
        forall|i: int| 0 <= i < first_queries(q).len() ==> #[trigger] first_queries(q)[i] == q[i],
{
}

/// A successful Ollama search contributes all of its hits, in order; a
/// failed one contributes nothing.
pub proof fn outcome_hits_cases<E>(o: Result<OllamaSearchResp, E>)
    ensures
        o matches Ok(r) ==> outcome_hits(o) == r.results@,
        o is Err ==> outcome_hits(o) == Seq::<SearchResOl>::empty(),
{
}

/// Answers are collected one after another: no answers collect nothing, and
/// one more answer adds exactly what that answer contributes.
pub proof fn successful_hits_step<E>(outcomes: Seq<Result<OllamaSearchResp, E>>, o: Result<OllamaSearchResp, E>)
    ensures
        successful_hits(Seq::<Result<OllamaSearchResp, E>>::empty()) == Seq::<SearchResOl>::empty(),
        successful_hits(outcomes.push(o)) == successful_hits(outcomes) + outcome_hits(o),
{
    assert(outcomes.push(o).drop_last() =~= outcomes);
}

/// A web search in progress: the results so far and, when Parallel failed,
/// the Ollama queries still to send.
pub struct SearchSession {
    queries: Vec<String>,
    top_k: usize,
    next: usize,
    results: Vec<SearchResOl>,
}

impl SearchSession {
    /// The queries planned for Ollama (none when Parallel answered).
    pub closed spec fn planned(self) -> Seq<Seq<char>> {
        string_views(self.queries@)
    }

    /// The number of results asked of Ollama per query.
    pub closed spec fn top_k(self) -> int {
        self.top_k as int
    }

    /// How many of the planned queries have been answered.
    pub closed spec fn tried(self) -> int {
        self.next as int
    }

    /// The hits collected so far.
    pub closed spec fn collected(self) -> Seq<SearchResOl> {
        self.results@
    }

    /// What every session satisfies.
    pub open spec fn wf(self) -> bool {
        &&& 0 <= self.tried() <= self.planned().len()
        &&& self.planned().len() <= MAX_FALLBACK_QUERIES
        &&& 3 <= self.top_k() <= 10
    }

    /// `after` is `before` once the answer `outcome` to its next query was recorded.
    pub open spec fn recorded<E>(before: Self, after: Self, outcome: Result<OllamaSearchResp, E>) -> bool {
        &&& after.planned() == before.planned()
        &&& after.top_k() == before.top_k()
        &&& after.tried() == before.tried() + 1
        &&& after.collected() == before.collected() + outcome_hits(outcome)
    }

    /// The session that follows Parallel's answer to `args`. When Parallel
    /// answered, its hits in Ollama's format are the whole result and nothing
    /// is sent to Ollama; when it failed, the objective and the extra queries,
    /// at most `MAX_FALLBACK_QUERIES` of them, are planned for Ollama, each
    /// asking for `spec_top_k` of the number of all queries.
    pub fn from_parallel<E>(args: &SearchArgsParallel, parallel: Result<SearchResp, E>) -> (s: Self)
        ensures
            s.wf(),
            s.tried() == 0,
            s.top_k() == spec_top_k(spec_queries(*args).len() as int),
            match parallel {
                Ok(resp) => {
                    &&& s.planned() == Seq::<Seq<char>>::empty()
                    &&& search_hits_converted(resp.result.structured_content.results@, s.collected())
                },
                Err(_) => {
                    &&& s.planned() == first_queries(spec_queries(*args))
                    &&& s.collected() == Seq::<SearchResOl>::empty()
                },
            },
    {
        let all = args.iter_queries();
        let top_k = ollama_top_k(all.len());
        match parallel {
            Ok(resp) => {
                let converted = OllamaSearchResp::from(resp.result.structured_content);
                SearchSession { queries: Vec::new(), top_k, next: 0, results: converted.results }
            },
            Err(_) => {
                let ghost views = all@.map_values(|q: &str| q@);
                let mut queries: Vec<String> = Vec::new();
                let mut i: usize = 0;
                while i < all.len() && i < MAX_FALLBACK_QUERIES
                    invariant
                        i <= all.len(),
                        i <= MAX_FALLBACK_QUERIES,
                        views == all@.map_values(|q: &str| q@),
                        string_views(queries@) == views.take(i as int),
                    decreases all.len() - i,
                {
                    let ghost before = queries@;
                    queries.push(String::from_str(all[i]));
                    assert(string_views(queries@) =~= string_views(before).push(views[i as int]));
                    assert(views.take(i + 1) =~= views.take(i as int).push(views[i as int]));
                    i = i + 1;
                }
                assert(views.take(i as int) =~= first_queries(views));
                SearchSession { queries, top_k, next: 0, results: Vec::new() }
            },
        }
    }

    /// The next query to send to Ollama and the number of results to ask
    /// for, or `None` once every planned query has been answered.
    pub fn next_query(&self) -> (r: Option<(String, usize)>)
        requires
            self.wf(),
        ensures
            self.tried() < self.planned().len() ==> (r matches Some((q, k)) && q@ == self.planned()[self.tried()]
                && k == self.top_k()),
            self.tried() >= self.planned().len() ==> r is None,
    {
        if self.next < self.queries.len() {
            Some((self.queries[self.next].clone(), self.top_k))
        } else {
            None
        }
    }

    /// Records Ollama's answer to the query that `next_query` gave: the hits
    /// of a successful search are appended, a failed one is skipped.
    pub fn record<E>(&mut self, outcome: Result<OllamaSearchResp, E>)
        requires
            old(self).wf(),
            old(self).tried() < old(self).planned().len(),
        ensures
            final(self).wf(),
            Self::recorded(*old(self), *final(self), outcome),
            outcome matches Ok(resp) ==> final(self).collected() == old(self).collected() + resp.results@,
            outcome is Err ==> final(self).collected() == old(self).collected(),
    {
        if let Ok(resp) = outcome {
            let mut hits = resp.results;
            self.results.append(&mut hits);
        }
        self.next = self.next + 1;
    }

    /// The hits to hand to the caller.
    pub fn finish(self) -> (r: Vec<SearchResOl>)
        ensures
            r@ == self.collected(),
    {
        self.results
    }
}

/// The page that one Ollama fetch adds: none when it failed.
pub open spec fn outcome_pages<E>(o: Result<FetchResOl, E>) -> Seq<FetchRetVal> {
    match o {
        Ok(page) => seq![ollama_page(page)],
        Err(_) => Seq::empty(),
    }
}

/// The pages of the successful fetches among `outcomes`, in order.
pub open spec fn successful_pages<E>(outcomes: Seq<Result<FetchResOl, E>>) -> Seq<FetchRetVal>
    decreases outcomes.len(),
{
    if outcomes.len() == 0 {
        Seq::empty()
    } else {
        successful_pages(outcomes.drop_last()) + outcome_pages(outcomes.last())
    }
}

/// A successful Ollama fetch contributes exactly one page, that page in the
/// caller's format, whatever it holds; a failed one contributes nothing.
pub proof fn outcome_pages_cases<E>(o: Result<FetchResOl, E>)
    ensures
        o matches Ok(p) ==> outcome_pages(o) == seq![ollama_page(p)],
        o matches Ok(p) ==> outcome_pages(o).len() == 1,
        o is Err ==> outcome_pages(o) == Seq::<FetchRetVal>::empty(),
{
}

/// Fetches are collected one after another: no fetches collect nothing, and
/// one more fetch adds exactly what that fetch contributes.
pub proof fn successful_pages_step<E>(outcomes: Seq<Result<FetchResOl, E>>, o: Result<FetchResOl, E>)
    ensures
        successful_pages(Seq::<Result<FetchResOl, E>>::empty()) == Seq::<FetchRetVal>::empty(),
        successful_pages(outcomes.push(o)) == successful_pages(outcomes) + outcome_pages(o),
{
    assert(outcomes.push(o).drop_last() =~= outcomes);
}

/// Recording one answer keeps the plan and the number of results per query,
/// counts one more answered query, and appends what that answer contributes.
pub proof fn search_recorded_fields<E>(before: SearchSession, after: SearchSession, o: Result<OllamaSearchResp, E>)
    requires
        SearchSession::recorded(before, after, o),
    ensures
        after.planned() == before.planned(),
        after.top_k() == before.top_k(),
        after.tried() == before.tried() + 1,
        o matches Ok(r) ==> after.collected() == before.collected() + r.results@,
        o is Err ==> after.collected() == before.collected(),
{
    assert(before.collected() + Seq::<SearchResOl>::empty() =~= before.collected());
}

/// A web fetch in progress: the pages so far and, when Parallel failed, the
/// urls still to fetch through Ollama.
pub struct FetchSession {
    urls: Vec<String>,
    next: usize,
    results: Vec<FetchRetVal>,
}

impl FetchSession {
    /// The urls planned for Ollama (none when Parallel answered).
    pub closed spec fn planned(self) -> Seq<Seq<char>> {
        string_views(self.urls@)
    }

    /// How many of the planned urls have been answered.
    pub closed spec fn tried(self) -> int {
        self.next as int
    }

    /// The pages collected so far.
    pub closed spec fn collected(self) -> Seq<FetchRetVal> {
        self.results@
    }

    /// What every session satisfies.
    pub open spec fn wf(self) -> bool {
        0 <= self.tried() <= self.planned().len()
    }

    /// `after` is `before` once the answer `outcome` to its next url was recorded.
    pub open spec fn recorded<E>(before: Self, after: Self, outcome: Result<FetchResOl, E>) -> bool {
        &&& after.planned() == before.planned()
        &&& after.tried() == before.tried() + 1
        &&& after.collected() == before.collected() + outcome_pages(outcome)
    }

    /// The session that follows Parallel's answer to `args`. When Parallel
    /// answered, its pages in the caller's format are the whole result and
    /// nothing is fetched through Ollama; when it failed, every url of `args`
    /// is planned for Ollama, with no cutoff.
    pub fn from_parallel<E>(args: &FetchArgsParallel, parallel: Result<FetchResp, E>) -> (s: Self)
        ensures
            s.wf(),
            s.tried() == 0,
            match parallel {
                Ok(resp) => {
                    &&& s.planned() == Seq::<Seq<char>>::empty()
                    &&& fetch_pages_converted(resp.result.structured_content.results@, s.collected())
                },
                Err(_) => {
                    &&& s.planned() == string_views(args.urls@)
                    &&& s.collected() == Seq::<FetchRetVal>::empty()
                },
            },
    {
        match parallel {
            Ok(resp) => {
                let pages: Vec<FetchRetVal> = Vec::from(resp.result.structured_content);
                FetchSession { urls: Vec::new(), next: 0, results: pages }
            },
            Err(_) => {
                let all = args.iter_urls();
                let ghost views = all@.map_values(|u: &str| u@);
                let mut urls: Vec<String> = Vec::new();
                let mut i: usize = 0;
                while i < all.len()
                    invariant
                        i <= all.len(),
                        views == all@.map_values(|u: &str| u@),
                        string_views(urls@) == views.take(i as int),
                    decreases all.len() - i,
                {
                    let ghost before = urls@;
                    urls.push(String::from_str(all[i]));
                    assert(string_views(urls@) =~= string_views(before).push(views[i as int]));
                    assert(views.take(i + 1) =~= views.take(i as int).push(views[i as int]));
                    i = i + 1;
                }
                assert(views.take(i as int) =~= views);
                FetchSession { urls, next: 0, results: Vec::new() }
            },
        }
    }

    /// The next url to fetch through Ollama, or `None` once every planned
    /// url has been answered.
    pub fn next_url(&self) -> (r: Option<String>)
        requires
            self.wf(),
        ensures
            self.tried() < self.planned().len() ==> (r matches Some(u) && u@ == self.planned()[self.tried()]),
            self.tried() >= self.planned().len() ==> r is None,
    {
        if self.next < self.urls.len() {
            Some(self.urls[self.next].clone())
        } else {
            None
        }
    }

    /// Records Ollama's answer for the url that `next_url` gave: a fetched
    /// page is appended in the caller's format, a failed fetch is skipped.
    pub fn record<E>(&mut self, outcome: Result<FetchResOl, E>)
        requires
            old(self).wf(),
            old(self).tried() < old(self).planned().len(),
        ensures
            final(self).wf(),
            Self::recorded(*old(self), *final(self), outcome),
            outcome is Err ==> final(self).collected() == old(self).collected(),
            outcome matches Ok(page) ==> {
                &&& final(self).collected().len() == old(self).collected().len() + 1
                &&& final(self).collected().take(old(self).collected().len() as int) == old(self).collected()
                &&& final(self).collected().last().title == page.title
                &&& final(self).collected().last().content == page.content
                &&& final(self).collected().last().url == None::<String>
                &&& final(self).collected().last().publish_date == None::<String>
            },
    {
        assert(self.planned().len() == self.urls@.len());
        assert(self.next < self.urls.len());
        let ghost before = self.results@;
        if let Ok(page) = outcome {
            let converted = FetchRetVal::from(page);
            self.results.push(converted);
            assert(self.results@ =~= before + seq![ollama_page(page)]);
        } else {
            assert(self.results@ =~= before + Seq::<FetchRetVal>::empty());
        }
        self.next = self.next + 1;
    }

    /// The pages to hand to the caller.
    pub fn finish(self) -> (r: Vec<FetchRetVal>)
        ensures
            r@ == self.collected(),
    {
        self.results
    }
}

/// Recording one fetch keeps the plan, counts one more answered url, and
/// appends exactly one page for a successful fetch and nothing for a failed one.
pub proof fn fetch_recorded_fields<E>(before: FetchSession, after: FetchSession, o: Result<FetchResOl, E>)
    requires
        FetchSession::recorded(before, after, o),
    ensures
        after.planned() == before.planned(),
        after.tried() == before.tried() + 1,
        o matches Ok(p) ==> after.collected() == before.collected().push(ollama_page(p)),
        o is Err ==> after.collected() == before.collected(),
{
    assert(before.collected() + Seq::<FetchRetVal>::empty() =~= before.collected());
    if let Ok(p) = o {
        assert(before.collected() + seq![ollama_page(p)] =~= before.collected().push(ollama_page(p)));
    }
}

/// Recording answers one after another: a search session ends up with the
/// hits it had, then the hits of each successful Ollama search in the order
/// of the queries; failed searches add nothing, and the plan and the number
/// of results per query never change.
pub proof fn search_session_collects_successes<E>(
    states: Seq<SearchSession>,
    outcomes: Seq<Result<OllamaSearchResp, E>>,
)
    requires
        states.len() == outcomes.len() + 1,
        forall|i: int|
            0 <= i < outcomes.len() ==> #[trigger] SearchSession::recorded(
                states[i],
                states[i + 1],
                outcomes[i],
            ),
    ensures
        states.last().collected() == states[0].collected() + successful_hits(outcomes),
        states.last().tried() == states[0].tried() + outcomes.len(),
        states.last().planned() == states[0].planned(),
        states.last().top_k() == states[0].top_k(),
    decreases outcomes.len(),
{
    if outcomes.len() == 0 {
        assert(states[0].collected() + successful_hits(outcomes) =~= states[0].collected());
    } else {
        let n = outcomes.len() - 1;
        let earlier_states = states.drop_last();
        let earlier = outcomes.drop_last();
        assert forall|i: int| 0 <= i < earlier.len() implies #[trigger] SearchSession::recorded(
            earlier_states[i],
            earlier_states[i + 1],
            earlier[i],
        ) by {
            assert(SearchSession::recorded(states[i], states[i + 1], outcomes[i]));
        }
        search_session_collects_successes(earlier_states, earlier);
        assert(SearchSession::recorded(states[n], states[n + 1], outcomes[n]));
        assert(states[0].collected() + successful_hits(outcomes) =~= states[0].collected()
            + successful_hits(earlier) + outcome_hits(outcomes[n]));
    }
}

/// Recording answers one after another: a fetch session ends up with the
/// pages it had, then one page for each successful Ollama fetch in the order
/// of the urls; failed fetches add nothing, and the plan never changes.
pub proof fn fetch_session_collects_successes<E>(
    states: Seq<FetchSession>,
    outcomes: Seq<Result<FetchResOl, E>>,
)
    requires
        states.len() == outcomes.len() + 1,
        forall|i: int|
            0 <= i < outcomes.len() ==> #[trigger] FetchSession::recorded(
                states[i],
                states[i + 1],
                outcomes[i],
            ),
    ensures
        states.last().collected() == states[0].collected() + successful_pages(outcomes),
        states.last().tried() == states[0].tried() + outcomes.len(),
        states.last().planned() == states[0].planned(),
    decreases outcomes.len(),
{
    if outcomes.len() == 0 {
        assert(states[0].collected() + successful_pages(outcomes) =~= states[0].collected());
    } else {
        let n = outcomes.len() - 1;
        let earlier_states = states.drop_last();
        let earlier = outcomes.drop_last();
        assert forall|i: int| 0 <= i < earlier.len() implies #[trigger] FetchSession::recorded(
            earlier_states[i],
            earlier_states[i + 1],
            earlier[i],
        ) by {
            assert(FetchSession::recorded(states[i], states[i + 1], outcomes[i]));
        }
        fetch_session_collects_successes(earlier_states, earlier);
        assert(FetchSession::recorded(states[n], states[n + 1], outcomes[n]));
        assert(states[0].collected() + successful_pages(outcomes) =~= states[0].collected()
            + successful_pages(earlier) + outcome_pages(outcomes[n]));
    }
}

} // verus!
