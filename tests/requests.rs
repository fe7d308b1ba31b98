use celestia_node_api::decimal::push_decimal;
use celestia_node_api::{Context, Endpoint, DEFAULT_BASE_URL};

fn default_url(endpoint: Endpoint) -> String {
    Context::new(DEFAULT_BASE_URL).url(&endpoint)
}

#[test]
fn balance_none() {
    assert_eq!(
        default_url(Endpoint::Balance { address: None }),
        "http://localhost:26658/balance"
    );
}

#[test]
fn balance_some() {
    assert_eq!(
        default_url(Endpoint::Balance { address: Some("0".to_string()) }),
        "http://localhost:26658/balance/0"
    );
}

#[test]
fn data_available() {
    assert_eq!(
        default_url(Endpoint::DataAvailable { height: 1 }),
        "http://localhost:26658/data_available/1"
    );
}

#[test]
fn head() {
    assert_eq!(default_url(Endpoint::Head), "http://localhost:26658/head");
}

#[test]
fn header() {
    assert_eq!(
        default_url(Endpoint::Header { height: 1 }),
        "http://localhost:26658/header/1"
    );
}

#[test]
fn namespaced_data_none() {
    assert_eq!(
        default_url(Endpoint::NamespacedData {
            namespace_id: "0123456789abcdef".to_string(),
            height: None,
        }),
        "http://localhost:26658/namespaced_data/0123456789abcdef"
    );
}

#[test]
fn namespaced_data_some() {
    assert_eq!(
        default_url(Endpoint::NamespacedData {
            namespace_id: "0123456789abcdef".to_string(),
            height: Some(1),
        }),
        "http://localhost:26658/namespaced_data/0123456789abcdef/height/1"
    );
}

#[test]
fn namespaced_shares_none() {
    assert_eq!(
        default_url(Endpoint::NamespacedShares {
            namespace_id: "0123456789abcdef".to_string(),
            height: None,
        }),
        "http://localhost:26658/namespaced_shares/0123456789abcdef"
    );
}

#[test]
fn namespaced_shares_some() {
    assert_eq!(
        default_url(Endpoint::NamespacedShares {
            namespace_id: "0123456789abcdef".to_string(),
            height: Some(1),
        }),
        "http://localhost:26658/namespaced_shares/0123456789abcdef/height/1"
    );
}

#[test]
fn balance_paths_differ_by_address() {
    let own = Endpoint::Balance { address: None }.path();
    let other = Endpoint::Balance { address: Some("celestia1abc".to_string()) }.path();
    assert_eq!(own, "balance");
    assert_eq!(other, "balance/celestia1abc");
    assert_ne!(own, other);
}

#[test]
fn height_is_spelled_in_decimal() {
    assert_eq!(Endpoint::Header { height: 1234567 }.path(), "header/1234567");
    assert_eq!(
        Endpoint::NamespacedData { namespace_id: "ns".to_string(), height: Some(90) }.path(),
        "namespaced_data/ns/height/90"
    );
    assert_eq!(
        Endpoint::Header { height: u64::MAX }.path(),
        "header/18446744073709551615"
    );
    assert_eq!(Endpoint::DataAvailable { height: 0 }.path(), "data_available/0");
    assert_eq!(Endpoint::Header { height: 10 }.path(), "header/10");
}

#[test]
fn latest_namespaced_path_has_no_height() {
    let latest = Endpoint::NamespacedData { namespace_id: "ns".to_string(), height: None }.path();
    assert_eq!(latest, "namespaced_data/ns");
    assert!(!latest.contains("height"));
    let at_zero = Endpoint::NamespacedData { namespace_id: "ns".to_string(), height: Some(0) }.path();
    assert_ne!(latest, at_zero);
    let shares = Endpoint::NamespacedShares { namespace_id: "ns".to_string(), height: None }.path();
    assert_eq!(shares, "namespaced_shares/ns");
}

#[test]
fn balance_of_address_zero_url() {
    let context = Context::new("http://localhost:9999");
    assert_eq!(
        context.url(&Endpoint::Balance { address: Some("0".to_string()) }),
        "http://localhost:9999/balance/0"
    );
}

#[test]
fn base_url_is_kept() {
    let context = Context::new("http://node.example:26658");
    assert_eq!(context.base_url(), "http://node.example:26658");
    assert_eq!(context.url(&Endpoint::Head), "http://node.example:26658/head");
}

#[test]
fn empty_namespace_and_address() {
    assert_eq!(Endpoint::Balance { address: Some(String::new()) }.path(), "balance/");
    assert_eq!(
        Endpoint::NamespacedShares { namespace_id: String::new(), height: Some(7) }.path(),
        "namespaced_shares//height/7"
    );
}

#[test]
fn push_decimal_appends() {
    let mut s = "n=".to_string();
    push_decimal(&mut s, 0);
    assert_eq!(s, "n=0");
    push_decimal(&mut s, 1000);
    assert_eq!(s, "n=01000");
    let mut t = String::new();
    push_decimal(&mut t, u64::MAX);
    assert_eq!(t, u64::MAX.to_string());
}
