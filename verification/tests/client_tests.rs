use openfoodfacts::{Auth, Off, OffClient};

/// The operating system name that the builders here are made on.
const OS: &str = "linux";

fn client() -> OffClient {
    Off::new(OS).build()
}

// Get a Builder with default options.
#[test]
fn test_builder_default_options() {
    let builder = Off::new(OS);
    assert_eq!(builder.locale, "world");
    assert_eq!(builder.auth, None);
    assert_eq!(
        builder.user_agent,
        Some(format!(
            "OffRustClient - {} - Version {} - {}",
            OS, "alpha", "https://github.com/openfoodfacts/openfoodfacts-rust"
        ))
    );
}

// Set Builder options.
#[test]
fn test_builder_with_options() {
    let builder = Off::new(OS).locale("gr").auth("user", "pwd").user_agent("user agent");
    assert_eq!(builder.locale, "gr");
    assert_eq!(builder.auth, Some(Auth("user".to_string(), "pwd".to_string())));
    assert_eq!(builder.user_agent, Some("user agent".to_string()));
}

// Get base URL with default locale
#[test]
fn test_client_base_url_default() {
    let off = client();
    assert_eq!(off.base_url(None).unwrap().as_str(), "https://world.openfoodfacts.org/");
}

// Get base URL with given locale
#[test]
fn test_client_base_url_locale() {
    let off = client();
    assert_eq!(off.base_url(Some("gr")).unwrap().as_str(), "https://gr.openfoodfacts.org/");
}

// Get API URL
#[test]
fn test_client_api_url() {
    let off = client();
    assert_eq!(off.api_url(None).unwrap().as_str(), "https://world.openfoodfacts.org/api/v0/");
}

// Get search URL
#[test]
fn test_client_search_url() {
    let off = client();
    assert_eq!(
        off.search_url(Some("gr")).unwrap().as_str(),
        "https://gr.openfoodfacts.org/cgi/search.pl"
    );
}

#[test]
fn test_client_taxonomy() {
    let off = client();
    let request = off.taxonomy("nova_groups").unwrap();
    assert_eq!(
        request.url.as_str(),
        "https://world.openfoodfacts.org/data/taxonomies/nova_groups.json"
    );
    assert!(request.query.is_empty());
}

#[test]
fn test_client_taxonomy_not_found() {
    let off = client();
    let request = off.taxonomy("not_found").unwrap();
    assert_eq!(
        request.url.as_str(),
        "https://world.openfoodfacts.org/data/taxonomies/not_found.json"
    );
}

#[test]
fn test_client_facet() {
    let off = client();
    let request = off.facet("brands", Some("gr")).unwrap();
    assert_eq!(request.url.as_str(), "https://gr.openfoodfacts.org/brands.json");
}

#[test]
fn test_client_categories() {
    let off = client();
    let request = off.categories().unwrap();
    assert_eq!(request.url.as_str(), "https://world.openfoodfacts.org/categories.json");
}

#[test]
fn test_client_products_by_category() {
    let off = client();
    let request = off.products_by_category("cheeses", None).unwrap();
    assert_eq!(request.url.as_str(), "https://world.openfoodfacts.org/category/cheeses.json");
}

#[test]
fn test_client_products_with_additive() {
    let off = client();
    let request = off.products_with_additive("e322-lecithins", None).unwrap();
    assert_eq!(
        request.url.as_str(),
        "https://world.openfoodfacts.org/additive/e322-lecithins.json"
    );
}

#[test]
fn test_client_products_in_state() {
    let off = client();
    let request = off.products_in_state("empty", None).unwrap();
    assert_eq!(request.url.as_str(), "https://world.openfoodfacts.org/state/empty.json");
}

#[test]
fn test_client_product_by_barcode() {
    let off = client();
    let request = off.product_by_barcode("069000019832", None).unwrap(); // Diet Pepsi
    assert_eq!(
        request.url.as_str(),
        "https://world.openfoodfacts.org/api/v0/product/069000019832"
    );
}
