use openfoodfacts::client::fields_param;
use openfoodfacts::{Format, HeaderKind, Off, OffClient, OffError, Sorting};

fn client_in(locale: &str) -> OffClient {
    Off::new("linux").locale(locale).build()
}

fn pairs(query: &[(String, String)]) -> Vec<(&str, &str)> {
    query.iter().map(|(k, v)| (k.as_str(), v.as_str())).collect()
}

#[test]
fn new_builder_names_the_platform() {
    let builder = Off::new("plan9");
    assert_eq!(
        builder.user_agent.as_deref(),
        Some("OffRustClient - plan9 - Version alpha - https://github.com/openfoodfacts/openfoodfacts-rust")
    );
}

#[test]
fn setters_leave_the_other_options() {
    let builder = Off::new("linux").auth("u", "p").locale("fr");
    assert_eq!(builder.locale, "fr");
    assert_eq!(builder.auth.as_ref().map(|a| (a.0.as_str(), a.1.as_str())), Some(("u", "p")));
    assert!(builder.user_agent.is_some());
    let builder = builder.user_agent("agent").locale("de");
    assert_eq!(builder.locale, "de");
    assert_eq!(builder.user_agent.as_deref(), Some("agent"));
}

#[test]
fn build_sends_user_agent_then_credentials() {
    let client = Off::new("linux").locale("it").auth("user", "pwd").user_agent("my agent").build();
    assert_eq!(client.locale, "it");
    assert_eq!(client.default_headers.len(), 2);
    assert_eq!(client.default_headers[0].kind(), HeaderKind::UserAgent);
    assert_eq!(client.default_headers[0].text(), "my agent");
    assert_eq!(client.default_headers[0].value().to_str().unwrap(), "my agent");
    assert_eq!(client.default_headers[1].kind(), HeaderKind::Authorization);
    assert_eq!(client.default_headers[1].text(), "Basic user:pwd");
    assert_eq!(client.default_headers[1].value().to_str().unwrap(), "Basic user:pwd");
}

#[test]
fn build_without_options_sends_no_headers() {
    let mut builder = Off::new("linux");
    builder.user_agent = None;
    let client = builder.build();
    assert!(client.default_headers.is_empty());
    assert_eq!(client.locale, "world");
}

#[test]
fn build_keeps_non_ascii_header_text() {
    let client = Off::new("linux").user_agent("agent é\ttab").build();
    assert_eq!(client.default_headers[0].value().as_bytes(), "agent é\ttab".as_bytes());
}

#[test]
fn base_url_is_normalised_by_the_parser() {
    // The parser lower-cases the host: the text is not handed back unchanged.
    let client = client_in("GR");
    assert_eq!(client.base_url(None).unwrap(), "https://gr.openfoodfacts.org/");
}

#[test]
fn base_url_with_bad_locale_is_an_error() {
    let client = client_in("a b");
    match client.base_url(None) {
        Err(OffError::Url(e)) => assert_eq!(e, url::ParseError::IdnaError),
        other => panic!("unexpected {:?}", other),
    }
    assert!(client.api_url(None).is_err());
    assert!(client.facet("brands", None).is_err());
    // a good locale given in the call overrides the bad default
    assert!(client.facet("brands", Some("fr")).is_ok());
}

#[test]
fn taxonomy_and_categories_ignore_the_default_locale() {
    let a = client_in("fr");
    let b = client_in("a b");
    assert_eq!(a.taxonomy("additives").unwrap().url, b.taxonomy("additives").unwrap().url);
    assert_eq!(a.categories().unwrap().url, b.categories().unwrap().url);
}

#[test]
fn missing_locale_is_the_default_locale() {
    let c = client_in("es");
    assert_eq!(c.facet("brands", None).unwrap().url, c.facet("brands", Some("es")).unwrap().url);
    assert_eq!(c.facet("brands", None).unwrap().url, "https://es.openfoodfacts.org/brands.json");
    assert_eq!(
        c.product_by_barcode("123", None).unwrap().url,
        "https://es.openfoodfacts.org/api/v0/product/123"
    );
}

#[test]
fn join_encodes_the_path() {
    let c = client_in("world");
    let request = c.products_by_category("plant based", None).unwrap();
    assert_eq!(request.url, "https://world.openfoodfacts.org/category/plant%20based.json");
}

#[test]
fn product_nutrients_query() {
    let c = client_in("fr");
    let request = c.product_nutrients("3017620422003", None).unwrap();
    assert_eq!(request.url, "https://fr.openfoodfacts.org/cgi/nutients.pl");
    assert_eq!(
        pairs(&request.query),
        vec![
            ("code", "3017620422003"),
            ("id", "ingredients_fr"),
            ("process_image", "1"),
            ("ocr_engine", "google_cloud_vision"),
        ]
    );
}

#[test]
fn search_by_barcode_fields() {
    let c = client_in("world");
    let all = c.search_by_barcode("1,2", None, None).unwrap();
    assert_eq!(all.url, "https://world.openfoodfacts.org/api/v0/search");
    assert_eq!(pairs(&all.query), vec![("code", "1,2"), ("fields", "")]);
    let star = c.search_by_barcode("1,2", Some("*"), None).unwrap();
    assert_eq!(pairs(&star.query), pairs(&all.query));
    let some = c.search_by_barcode("1,2", Some("code,product_name"), Some("it")).unwrap();
    assert_eq!(some.url, "https://it.openfoodfacts.org/api/v0/search");
    assert_eq!(pairs(&some.query), vec![("code", "1,2"), ("fields", "code,product_name")]);
}

#[test]
fn fields_param_values() {
    assert_eq!(fields_param(None), "");
    assert_eq!(fields_param(Some("*")), "");
    assert_eq!(fields_param(Some("**")), "**");
    assert_eq!(fields_param(Some("")), "");
    assert_eq!(fields_param(Some("a")), "a");
}

#[test]
fn format_and_sorting_are_plain_values() {
    assert_ne!(Format::Json, Format::Xml);
    assert_ne!(Sorting::Popularity, Sorting::ProductName);
    assert_ne!(Sorting::CreatedDate, Sorting::LastModifiedDate);
}

#[test]
fn build_lowercases_the_locale() {
    let builder = Off::new("linux").locale("GR");
    assert_eq!(builder.locale, "GR");
    let client = builder.build();
    assert_eq!(client.locale, "gr");
    let client = Off::new("linux").locale("Pt-BR").build();
    assert_eq!(client.locale, "pt-br");
    let client = Off::new("linux").locale("ÉS").build();
    assert_eq!(client.locale, "És");
}

#[test]
fn is_buildable_checks_header_texts() {
    assert!(Off::new("linux").is_buildable());
    assert!(Off::new("linux").auth("user", "pwd").user_agent("a\tb é").is_buildable());
    assert!(!Off::new("linux").user_agent("bad\nagent").is_buildable());
    assert!(!Off::new("linux").auth("user", "p\u{7f}").is_buildable());
    let mut builder = Off::new("linux");
    builder.user_agent = None;
    assert!(builder.is_buildable());
}
