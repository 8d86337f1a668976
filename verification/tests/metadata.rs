use web_tools::metadata::{
    FetchArgsParallel, FetchRes, FetchResOl, FetchRetVal, FetchStructuredContent,
    OllamaSearchResp, SearchArgsParallel, SearchRes, SearchStructuredContent, Usage, WebFetchArgs,
    WebSearchArgs,
};

fn hit(url: &str, title: &str, date: Option<&str>, excerpts: &[&str]) -> SearchRes {
    SearchRes {
        url: url.to_string(),
        title: title.to_string(),
        publish_date: date.map(|d| d.to_string()),
        excerpts: excerpts.iter().map(|e| e.to_string()).collect(),
    }
}

#[test]
fn test_from_search_structured_to_ollama_response() {
    // Simulate a SearchStructuredContent from the parallel API
    let structured = SearchStructuredContent {
        search_id: "s123".into(),
        results: vec![
            SearchRes {
                url: "https://a.com".into(),
                title: "A".into(),
                publish_date: Some("2025-01-01".into()),
                excerpts: vec!["excerpt1".into(), "excerpt2".into()],
            },
            SearchRes {
                url: "https://b.com".into(),
                title: "B".into(),
                publish_date: None,
                excerpts: vec!["excerpt3".into()],
            },
        ],
        warnings: None,
        usage: vec![],
        session_id: "sess1".into(),
    };

    // Convert to OllamaSearchResp
    let ollama: OllamaSearchResp = structured.into();

    assert_eq!(ollama.results.len(), 2);
    assert_eq!(ollama.results[0].title, "A");
    assert_eq!(ollama.results[0].url, "https://a.com");
    assert_eq!(ollama.results[0].content, "excerpt1\nexcerpt2");
    assert_eq!(ollama.results[0].publish_date, Some("2025-01-01".into()));

    assert_eq!(ollama.results[1].title, "B");
    assert_eq!(ollama.results[1].publish_date, None);
    assert_eq!(ollama.results[1].content, "excerpt3");
}

#[test]
fn search_conversion_keeps_order_and_empty_excerpts() {
    let structured = SearchStructuredContent {
        search_id: "s".into(),
        results: vec![
            hit("https://1", "one", None, &[]),
            hit("https://2", "two", Some("2024-02-02"), &["x", "", "y"]),
            hit("https://3", "three", None, &["only"]),
        ],
        warnings: Some(serde_json::Value::String("slow".into())),
        usage: vec![Usage { name: "search".into(), count: 1 }],
        session_id: "sess".into(),
    };
    let ollama = OllamaSearchResp::from(structured);
    let titles: Vec<&str> = ollama.results.iter().map(|r| r.title.as_str()).collect();
    assert_eq!(titles, vec!["one", "two", "three"]);
    assert_eq!(ollama.results[0].content, "");
    assert_eq!(ollama.results[1].content, "x\n\ny");
    assert_eq!(ollama.results[1].publish_date, Some("2024-02-02".to_string()));
    assert_eq!(ollama.results[2].url, "https://3");
}

#[test]
fn search_conversion_of_no_hits_is_empty() {
    let structured = SearchStructuredContent {
        search_id: "s".into(),
        results: vec![],
        warnings: None,
        usage: vec![],
        session_id: "sess".into(),
    };
    assert!(OllamaSearchResp::from(structured).results.is_empty());
}

#[test]
fn iter_queries_puts_objective_first() {
    let args = SearchArgsParallel {
        objective: "main".into(),
        search_queries: vec!["q1".into(), "q2".into()],
    };
    assert_eq!(args.iter_queries(), vec!["main", "q1", "q2"]);
    let lone = SearchArgsParallel { objective: "alone".into(), search_queries: vec![] };
    assert_eq!(lone.iter_queries(), vec!["alone"]);
}

#[test]
fn iter_urls_keeps_order() {
    let args = FetchArgsParallel {
        objective: "o".into(),
        urls: vec!["https://x".into(), "https://y".into()],
    };
    assert_eq!(args.iter_urls(), vec!["https://x", "https://y"]);
    let none = FetchArgsParallel { objective: "o".into(), urls: vec![] };
    assert!(none.iter_urls().is_empty());
}

#[test]
fn tool_arguments_convert_field_by_field() {
    let s: SearchArgsParallel =
        WebSearchArgs { objective: "obj".into(), search_queries: vec!["a".into()] }.into();
    assert_eq!(s.objective, "obj");
    assert_eq!(s.search_queries, vec!["a".to_string()]);
    let f: FetchArgsParallel =
        WebFetchArgs { objective: "obj2".into(), urls: vec!["https://u".into()] }.into();
    assert_eq!(f.objective, "obj2");
    assert_eq!(f.urls, vec!["https://u".to_string()]);
}

#[test]
fn fetch_page_prefers_full_content() {
    let page = FetchRes {
        url: "https://p".into(),
        title: "P".into(),
        publish_date: Some("2023-03-03".into()),
        excerpts: vec!["e1".into(), "e2".into()],
        full_content: Some("everything".into()),
    };
    let v = FetchRetVal::from(page);
    assert_eq!(v.title, "P");
    assert_eq!(v.url, Some("https://p".to_string()));
    assert_eq!(v.content, "everything");
    assert_eq!(v.publish_date, Some("2023-03-03".to_string()));
}

#[test]
fn fetch_page_without_full_content_joins_excerpts() {
    let page = FetchRes {
        url: "https://q".into(),
        title: "Q".into(),
        publish_date: None,
        excerpts: vec!["e1".into(), "e2".into()],
        full_content: None,
    };
    let v = FetchRetVal::from(page);
    assert_eq!(v.content, "e1\ne2");
    assert_eq!(v.publish_date, None);
}

#[test]
fn ollama_page_has_no_url_or_date() {
    let page = FetchResOl {
        title: "T".into(),
        content: "C".into(),
        links: vec!["https://l".into()],
    };
    let v = FetchRetVal::from(page);
    assert_eq!(v.title, "T");
    assert_eq!(v.content, "C");
    assert_eq!(v.url, None);
    assert_eq!(v.publish_date, None);
}

#[test]
fn fetch_conversion_gives_one_record_per_page() {
    let content = FetchStructuredContent {
        extract_id: "x1".into(),
        results: vec![
            FetchRes {
                url: "https://a".into(),
                title: "A".into(),
                publish_date: None,
                excerpts: vec!["a1".into()],
                full_content: None,
            },
            FetchRes {
                url: "https://b".into(),
                title: "B".into(),
                publish_date: None,
                excerpts: vec![],
                full_content: Some("full b".into()),
            },
        ],
        errors: vec![],
        warnings: None,
        usage: vec![],
        session_id: "s".into(),
    };
    let pages: Vec<FetchRetVal> = content.into();
    assert_eq!(pages.len(), 2);
    assert_eq!(pages[0].url, Some("https://a".to_string()));
    assert_eq!(pages[0].content, "a1");
    assert_eq!(pages[1].title, "B");
    assert_eq!(pages[1].content, "full b");
}
