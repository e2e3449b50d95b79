use edge_router::serve::on_cache_result;
use edge_router::serve::on_fetch_result;
use edge_router::serve::AfterCache;

#[test]
fn cache_hit_responds_without_fetch() {
    let step = on_cache_result("https://origin.example/api".to_string(), Some("cached"));
    assert_eq!(step, AfterCache::Respond("cached"));
}

#[test]
fn cache_miss_fetches_the_origin_url() {
    let step: AfterCache<&str> = on_cache_result("https://origin.example/api".to_string(), None);
    assert_eq!(step, AfterCache::FetchOrigin("https://origin.example/api".to_string()));
}

#[test]
fn fetched_response_is_stored_under_origin_url_and_returned() {
    let plan = on_fetch_result("https://origin.example/api".to_string(), "fresh");
    assert_eq!(plan.cache_key, "https://origin.example/api");
    assert_eq!(plan.response, "fresh");
}

// A minimal synchronous driver over the step functions, recording every
// collaborator call, so the whole cache-aside exchange can be exercised.
struct FakeHost {
    cached: Option<String>,
    fetch_calls: Vec<String>,
    put_calls: Vec<(String, String)>,
}

fn serve_once(host: &mut FakeHost, origin_url: &str) -> String {
    match on_cache_result(origin_url.to_string(), host.cached.clone()) {
        AfterCache::Respond(resp) => resp,
        AfterCache::FetchOrigin(url) => {
            host.fetch_calls.push(url.clone());
            let fresh = format!("response for {}", url);
            let plan = on_fetch_result(url, fresh);
            host.put_calls.push((plan.cache_key.clone(), plan.response.clone()));
            plan.response
        }
    }
}

#[test]
fn hit_path_makes_no_fetch_and_no_put() {
    let mut host = FakeHost {
        cached: Some("cached body".to_string()),
        fetch_calls: Vec::new(),
        put_calls: Vec::new(),
    };
    let resp = serve_once(&mut host, "https://origin.example/api");
    assert_eq!(resp, "cached body");
    assert!(host.fetch_calls.is_empty());
    assert!(host.put_calls.is_empty());
}

#[test]
fn miss_path_fetches_once_puts_once_and_returns_fresh() {
    let mut host = FakeHost { cached: None, fetch_calls: Vec::new(), put_calls: Vec::new() };
    let resp = serve_once(&mut host, "https://origin.example/api");
    assert_eq!(resp, "response for https://origin.example/api");
    assert_eq!(host.fetch_calls, vec!["https://origin.example/api".to_string()]);
    assert_eq!(
        host.put_calls,
        vec![(
            "https://origin.example/api".to_string(),
            "response for https://origin.example/api".to_string(),
        )]
    );
}
