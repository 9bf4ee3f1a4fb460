//! The API client: each call of the Open Food Facts API as the `GET` request
//! that asks it.

use crate::web::{joined_url, parsed_url, url_join, url_parse, DefaultHeader};
use url::ParseError;
use vstd::prelude::*;

verus! {

/// Output formats.
#[derive(Debug, Clone, Copy, PartialEq, Eq)]
pub enum Format {
    Json,
    Xml,
}

/// Sorting criteria.
#[derive(Debug, Clone, Copy, PartialEq, Eq)]
pub enum Sorting {
    Popularity,
    ProductName,
    CreatedDate,
    LastModifiedDate,
}

/// Why a request could not be made.
#[derive(Debug)]
pub enum OffError {
    /// The URL of the request did not parse.
    Url(ParseError),
}

/// The OFF API client, made by the [`crate::Off`] builder.
///
/// Each method gives the `GET` request that asks the API for what it names;
/// the caller sends it, with the client's default headers.
pub struct OffClient {
    /// The default locale to use when no locale is given in a method call,
    /// in ASCII lower case (`build` lowers the builder's locale).
    pub locale: String,
    /// The headers to send with each request.
    pub default_headers: Vec<DefaultHeader>,
}

/// A `GET` request of the API: the URL and the query parameters to add to it.
#[derive(Debug)]
pub struct ApiRequest {
    pub url: String,
    pub query: Vec<(String, String)>,
}

/// What a request is: the URL text and the query parameters.
pub struct RequestView {
    pub url: Seq<char>,
    pub query: Seq<(Seq<char>, Seq<char>)>,
}

/// The query parameters by their views.
pub open spec fn query_view(query: Seq<(String, String)>) -> Seq<(Seq<char>, Seq<char>)> {
    query.map_values(|p: (String, String)| (p.0@, p.1@))
}

impl View for ApiRequest {
    type V = RequestView;

    open spec fn view(&self) -> RequestView {
        RequestView { url: self.url@, query: query_view(self.query@) }
    }
}

/// An optional text by its view.
pub open spec fn str_opt_view(s: Option<&str>) -> Option<Seq<char>> {
    match s {
        Some(t) => Some(t@),
        None => None,
    }
}

/// The URL text of a result, or `None` for an error.
pub open spec fn url_result_view(r: Result<String, OffError>) -> Option<Seq<char>> {
    match r {
        Ok(s) => Some(s@),
        Err(_) => None,
    }
}

/// The request of a result, or `None` for an error.
pub open spec fn request_result_view(r: Result<ApiRequest, OffError>) -> Option<RequestView> {
    match r {
        Ok(q) => Some(q@),
        Err(_) => None,
    }
}

/// The text of the base URL for a locale: `https://{locale}.openfoodfacts.org/`.
pub open spec fn base_url_text(locale: Seq<char>) -> Seq<char> {
    "https://"@ + locale + ".openfoodfacts.org/"@
}

/// `input` joined onto a base URL, where there is one.
pub open spec fn join_onto(base: Option<Seq<char>>, input: Seq<char>) -> Option<Seq<char>> {
    match base {
        Some(b) => joined_url(b, input),
        None => None,
    }
}

/// The `GET` request of a URL, where there is one, with the given query.
pub open spec fn get_request(url: Option<Seq<char>>, query: Seq<(Seq<char>, Seq<char>)>) -> Option<
    RequestView,
> {
    match url {
        Some(u) => Some(RequestView { url: u, query }),
        None => None,
    }
}

/// The path of a JSON document under a base URL: `{prefix}{name}.json`.
pub open spec fn json_path(prefix: Seq<char>, name: Seq<char>) -> Seq<char> {
    prefix + name + ".json"@
}

/// The value of the `fields` parameter of a search: empty (all fields) where
/// no fields or `*` are given, else the fields given.
pub open spec fn fields_value(fields: Option<Seq<char>>) -> Seq<char> {
    match fields {
        None => Seq::empty(),
        Some(f) => if f == "*"@ {
            Seq::empty()
        } else {
            f
        },
    }
}

/// The query of a nutrients request for a barcode.
pub open spec fn nutrients_query(barcode: Seq<char>) -> Seq<(Seq<char>, Seq<char>)> {
    seq![
        ("code"@, barcode),
        ("id"@, "ingredients_fr"@),
        ("process_image"@, "1"@),
        ("ocr_engine"@, "google_cloud_vision"@),
    ]
}

/// The query of a search by barcodes.
pub open spec fn barcode_search_query(barcodes: Seq<char>, fields: Option<Seq<char>>) -> Seq<
    (Seq<char>, Seq<char>),
> {
    seq![("code"@, barcodes), ("fields"@, fields_value(fields))]
}

impl OffClient {
    /// The locale given, or the client's default locale where none is given.
    pub open spec fn locale_or_default(self, locale: Option<Seq<char>>) -> Seq<char> {
        match locale {
            Some(l) => l,
            None => self.locale@,
        }
    }

    pub open spec fn spec_base_url(self, locale: Option<Seq<char>>) -> Option<Seq<char>> {
        parsed_url(base_url_text(self.locale_or_default(locale)))
    }

    pub open spec fn spec_api_url(self, locale: Option<Seq<char>>) -> Option<Seq<char>> {
        join_onto(self.spec_base_url(locale), "api/v0/"@)
    }

    pub open spec fn spec_search_url(self, locale: Option<Seq<char>>) -> Option<Seq<char>> {
        join_onto(self.spec_base_url(locale), "cgi/search.pl"@)
    }

    pub open spec fn spec_taxonomy(self, taxonomy: Seq<char>) -> Option<RequestView> {
        get_request(
            join_onto(self.spec_base_url(Some("world"@)), json_path("data/taxonomies/"@, taxonomy)),
            seq![],
        )
    }

    pub open spec fn spec_facet(self, facet: Seq<char>, locale: Option<Seq<char>>) -> Option<
        RequestView,
    > {
        get_request(join_onto(self.spec_base_url(locale), json_path(Seq::empty(), facet)), seq![])
    }

    pub open spec fn spec_categories(self) -> Option<RequestView> {
        get_request(join_onto(self.spec_base_url(Some("world"@)), "categories.json"@), seq![])
    }

    pub open spec fn spec_products_by_category(
        self,
        category: Seq<char>,
        locale: Option<Seq<char>>,
    ) -> Option<RequestView> {
        get_request(join_onto(self.spec_base_url(locale), json_path("category/"@, category)), seq![])
    }

    pub open spec fn spec_products_with_additive(
        self,
        additive: Seq<char>,
        locale: Option<Seq<char>>,
    ) -> Option<RequestView> {
        get_request(join_onto(self.spec_base_url(locale), json_path("additive/"@, additive)), seq![])
    }

    pub open spec fn spec_products_in_state(self, state: Seq<char>, locale: Option<Seq<char>>) -> Option<
        RequestView,
    > {
        get_request(join_onto(self.spec_base_url(locale), json_path("state/"@, state)), seq![])
    }

    pub open spec fn spec_product_by_barcode(self, barcode: Seq<char>, locale: Option<Seq<char>>) -> Option<
        RequestView,
    > {
        get_request(join_onto(self.spec_api_url(locale), "product/"@ + barcode), seq![])
    }

    pub open spec fn spec_product_nutrients(self, barcode: Seq<char>, locale: Option<Seq<char>>) -> Option<
        RequestView,
    > {
        get_request(join_onto(self.spec_base_url(locale), "cgi/nutients.pl"@), nutrients_query(barcode))
    }

    pub open spec fn spec_search_by_barcode(
        self,
        barcodes: Seq<char>,
        fields: Option<Seq<char>>,
        locale: Option<Seq<char>>,
    ) -> Option<RequestView> {
        get_request(
            join_onto(self.spec_api_url(locale), "search"@),
            barcode_search_query(barcodes, fields),
        )
    }
}

impl ApiRequest {
    /// The `GET` request of a URL, where the URL was made, with the given query;
    /// else the error that making the URL gave.
    pub fn get(url: Result<String, OffError>, query: Vec<(String, String)>) -> (r: Result<
        ApiRequest,
        OffError,
    >)
        ensures
            request_result_view(r) == get_request(url_result_view(url), query_view(query@)),
    {
        match url {
            Ok(url) => Ok(ApiRequest { url, query }),
            Err(e) => Err(e),
        }
    }
}

/// `input` joined onto a base URL, where the base URL was made; else the error
/// that making the base URL gave.
fn join_onto_base(base: Result<String, OffError>, input: &str) -> (r: Result<String, OffError>)
    ensures
        url_result_view(r) == join_onto(url_result_view(base), input@),
{
    match base {
        Ok(b) => match url_join(b.as_str(), input) {
            Ok(u) => Ok(u),
            Err(e) => Err(OffError::Url(e)),
        },
        Err(e) => Err(e),
    }
}

/// An empty query.
fn no_query() -> (q: Vec<(String, String)>)
    ensures
        query_view(q@) == Seq::<(Seq<char>, Seq<char>)>::empty(),
{
    let q: Vec<(String, String)> = Vec::new();
    assert(query_view(q@) =~= Seq::<(Seq<char>, Seq<char>)>::empty());
    q
}

/// `{prefix}{name}.json`.
fn json_path_text(prefix: &str, name: &str) -> (r: String)
    ensures
        r@ == json_path(prefix@, name@),
{
    let mut path = String::from_str(prefix);
    path.append(name);
    path.append(".json");
    path
}

/// Whether a text is `*`.
fn is_star(text: &str) -> (r: bool)
    ensures
        r <==> text@ == "*"@,
{
    proof {
        reveal_strlit("*");
    }
    if text.unicode_len() == 1 {
        let c = text.get_char(0);
        if c == '*' {
            assert(text@ =~= "*"@);
            true
        } else {
            false
        }
    } else {
        false
    }
}

/// The value of the `fields` parameter of a search: empty where no fields or
/// `*` are given (both ask for all fields), else the fields given.
pub fn fields_param(fields: Option<&str>) -> (r: &str)
    ensures
        r@ == fields_value(str_opt_view(fields)),
{
    proof {
        reveal_strlit("");
    }
    match fields {
        None => "",
        Some(f) => if is_star(f) {
            ""
        } else {
            f
        },
    }
}

impl OffClient {
    /// Returns the base URL with the given locale, or the default locale where
    /// none is given: `https://{locale}.openfoodfacts.org/`.
    pub fn base_url(&self, locale: Option<&str>) -> (r: Result<String, OffError>)
        ensures
            url_result_view(r) == self.spec_base_url(str_opt_view(locale)),
    {
        let chosen: &str = match locale {
            Some(l) => l,
            None => self.locale.as_str(),
        };
        let mut text = String::from_str("https://");
        text.append(chosen);
        text.append(".openfoodfacts.org/");
        match url_parse(text.as_str()) {
            Ok(u) => Ok(u),
            Err(e) => Err(OffError::Url(e)),
        }
    }

    /// Returns the API URL with the given locale: the base URL joined with
    /// `api/v0/`.
    pub fn api_url(&self, locale: Option<&str>) -> (r: Result<String, OffError>)
        ensures
            url_result_view(r) == self.spec_api_url(str_opt_view(locale)),
    {
        join_onto_base(self.base_url(locale), "api/v0/")
    }

    /// Returns the search URL with the given locale: the base URL joined with
    /// `cgi/search.pl`.
    pub fn search_url(&self, locale: Option<&str>) -> (r: Result<String, OffError>)
        ensures
            url_result_view(r) == self.spec_search_url(str_opt_view(locale)),
    {
        join_onto_base(self.base_url(locale), "cgi/search.pl")
    }

    /// Gets the given taxonomy:
    /// `GET https://world.openfoodfacts.org/data/taxonomies/{taxonomy}.json`.
    ///
    /// Taxonomies support only the locale "world": the default client locale
    /// is ignored.
    pub fn taxonomy(&self, taxonomy: &str) -> (r: Result<ApiRequest, OffError>)
        ensures
            request_result_view(r) == self.spec_taxonomy(taxonomy@),
    {
        let path = json_path_text("data/taxonomies/", taxonomy);
        let url = join_onto_base(self.base_url(Some("world")), path.as_str());
        ApiRequest::get(url, no_query())
    }

    /// Gets the given facet: `GET https://{locale}.openfoodfacts.org/{facet}.json`,
    /// with the default client locale where none is given.
    pub fn facet(&self, facet: &str, locale: Option<&str>) -> (r: Result<ApiRequest, OffError>)
        ensures
            request_result_view(r) == self.spec_facet(facet@, str_opt_view(locale)),
    {
        let path = json_path_text("", facet);
        proof {
            reveal_strlit("");
        }
        let url = join_onto_base(self.base_url(locale), path.as_str());
        ApiRequest::get(url, no_query())
    }

    /// Gets all the categories: `GET https://world.openfoodfacts.org/categories.json`.
    ///
    /// Categories support only the locale "world": the default client locale
    /// is ignored.
    pub fn categories(&self) -> (r: Result<ApiRequest, OffError>)
        ensures
            request_result_view(r) == self.spec_categories(),
    {
        let url = join_onto_base(self.base_url(Some("world")), "categories.json");
        ApiRequest::get(url, no_query())
    }

    /// Gets all products belonging to the given category:
    /// `GET https://{locale}.openfoodfacts.org/category/{category}.json`.
    pub fn products_by_category(&self, category: &str, locale: Option<&str>) -> (r: Result<
        ApiRequest,
        OffError,
    >)
        ensures
            request_result_view(r) == self.spec_products_by_category(
                category@,
                str_opt_view(locale),
            ),
    {
        let path = json_path_text("category/", category);
        let url = join_onto_base(self.base_url(locale), path.as_str());
        ApiRequest::get(url, no_query())
    }

    /// Gets all products containing the given additive:
    /// `GET https://{locale}.openfoodfacts.org/additive/{additive}.json`.
    pub fn products_with_additive(&self, additive: &str, locale: Option<&str>) -> (r: Result<
        ApiRequest,
        OffError,
    >)
        ensures
            request_result_view(r) == self.spec_products_with_additive(
                additive@,
                str_opt_view(locale),
            ),
    {
        let path = json_path_text("additive/", additive);
        let url = join_onto_base(self.base_url(locale), path.as_str());
        ApiRequest::get(url, no_query())
    }

    /// Gets all products in the given state:
    /// `GET https://{locale}.openfoodfacts.org/state/{state}.json`.
    pub fn products_in_state(&self, state: &str, locale: Option<&str>) -> (r: Result<
        ApiRequest,
        OffError,
    >)
        ensures
            request_result_view(r) == self.spec_products_in_state(state@, str_opt_view(locale)),
    {
        let path = json_path_text("state/", state);
        let url = join_onto_base(self.base_url(locale), path.as_str());
        ApiRequest::get(url, no_query())
    }

    /// Gets the nutrition facts of the given product:
    /// `GET https://{locale}.openfoodfacts.org/api/v0/product/{barcode}`.
    pub fn product_by_barcode(&self, barcode: &str, locale: Option<&str>) -> (r: Result<
        ApiRequest,
        OffError,
    >)
        ensures
            request_result_view(r) == self.spec_product_by_barcode(barcode@, str_opt_view(locale)),
    {
        let mut path = String::from_str("product/");
        path.append(barcode);
        let url = join_onto_base(self.api_url(locale), path.as_str());
        ApiRequest::get(url, no_query())
    }

    /// Gets the nutrients of the given product:
    /// `GET https://{locale}.openfoodfacts.org/cgi/nutients.pl`, with the
    /// query `code={barcode}`, `id=ingredients_fr`, `process_image=1` and
    /// `ocr_engine=google_cloud_vision`.
    pub fn product_nutrients(&self, barcode: &str, locale: Option<&str>) -> (r: Result<
        ApiRequest,
        OffError,
    >)
        ensures
            request_result_view(r) == self.spec_product_nutrients(barcode@, str_opt_view(locale)),
    {
        let url = join_onto_base(self.base_url(locale), "cgi/nutients.pl");
        let mut query: Vec<(String, String)> = Vec::new();
        query.push((String::from_str("code"), barcode.to_owned()));
        query.push((String::from_str("id"), String::from_str("ingredients_fr")));
        query.push((String::from_str("process_image"), String::from_str("1")));
        query.push((String::from_str("ocr_engine"), String::from_str("google_cloud_vision")));
        assert(query_view(query@) =~= nutrients_query(barcode@));
        ApiRequest::get(url, query)
    }

    /// Searches products by barcode:
    /// `GET https://{locale}.openfoodfacts.org/api/v0/search`, with the query
    /// `code={barcodes}` and `fields={fields}`.
    ///
    /// `barcodes` is a string of comma-separated barcodes; `fields` is a string
    /// of comma-separated fields, or `*`, or none: both `*` and none ask for all
    /// fields.
    pub fn search_by_barcode(
        &self,
        barcodes: &str,
        fields: Option<&str>,
        locale: Option<&str>,
    ) -> (r: Result<ApiRequest, OffError>)
        ensures
            request_result_view(r) == self.spec_search_by_barcode(
                barcodes@,
                str_opt_view(fields),
                str_opt_view(locale),
            ),
    {
        let url = join_onto_base(self.api_url(locale), "search");
        let mut query: Vec<(String, String)> = Vec::new();
        query.push((String::from_str("code"), barcodes.to_owned()));
        query.push((String::from_str("fields"), fields_param(fields).to_owned()));
        assert(query_view(query@) =~= barcode_search_query(barcodes@, str_opt_view(fields)));
        ApiRequest::get(url, query)
    }
}

} // verus!
