//! What holds of the library as a whole, across calls and clients.

use crate::builder::{default_header_texts, Off};
use crate::web::HeaderKind;
use crate::client::{base_url_text, OffClient, RequestView};
use crate::web::{ascii_lowercase, joined_url, parsed_url};
use vstd::prelude::*;

verus! {

/// Taxonomies and categories support only the locale "world": what a client
/// asks for them does not depend on its default locale.
pub proof fn world_only_calls_ignore_default_locale(a: OffClient, b: OffClient, taxonomy: Seq<char>)
    ensures
        a.spec_taxonomy(taxonomy) == b.spec_taxonomy(taxonomy),
        a.spec_categories() == b.spec_categories(),
{
}

/// A call that is given no locale asks what it asks when given the client's
/// default locale.
pub proof fn missing_locale_is_default_locale(
    c: OffClient,
    name: Seq<char>,
    fields: Option<Seq<char>>,
)
    ensures
        c.spec_base_url(None) == c.spec_base_url(Some(c.locale@)),
        c.spec_api_url(None) == c.spec_api_url(Some(c.locale@)),
        c.spec_search_url(None) == c.spec_search_url(Some(c.locale@)),
        c.spec_facet(name, None) == c.spec_facet(name, Some(c.locale@)),
        c.spec_products_by_category(name, None) == c.spec_products_by_category(
            name,
            Some(c.locale@),
        ),
        c.spec_products_with_additive(name, None) == c.spec_products_with_additive(
            name,
            Some(c.locale@),
        ),
        c.spec_products_in_state(name, None) == c.spec_products_in_state(name, Some(c.locale@)),
        c.spec_product_by_barcode(name, None) == c.spec_product_by_barcode(name, Some(c.locale@)),
        c.spec_product_nutrients(name, None) == c.spec_product_nutrients(name, Some(c.locale@)),
        c.spec_search_by_barcode(name, fields, None) == c.spec_search_by_barcode(
            name,
            fields,
            Some(c.locale@),
        ),
{
}

/// A search by barcodes asks the same with the fields `*` as with no fields:
/// both ask for all fields.
pub proof fn star_fields_are_all_fields(c: OffClient, barcodes: Seq<char>, locale: Option<Seq<char>>)
    ensures
        c.spec_search_by_barcode(barcodes, Some("*"@), locale) == c.spec_search_by_barcode(
            barcodes,
            None,
            locale,
        ),
{
}

/// A client made from a builder asks, where it is given no locale, for the
/// URLs under `https://{locale}.openfoodfacts.org/` with the builder's locale
/// in lower case.
pub proof fn client_uses_builder_locale(off: Off, client: OffClient)
    requires
        client.locale@ == ascii_lowercase(off.locale@),
    ensures
        client.spec_base_url(None) == parsed_url(base_url_text(ascii_lowercase(off.locale@))),
{
}

/// The locale of a client made from a builder holds no upper case ASCII letter.
pub proof fn client_locale_is_lower_case(off: Off, client: OffClient)
    requires
        client.locale@ == ascii_lowercase(off.locale@),
    ensures
        forall|i: int|
            0 <= i < client.locale@.len() ==> !('A' <= #[trigger] client.locale@[i] <= 'Z'),
{
    assert forall|i: int| 0 <= i < client.locale@.len() implies !('A' <= #[trigger] client.locale@[i] <= 'Z') by {
        let c = off.locale@[i];
        if 'A' <= c <= 'Z' {
            assert(((c as u32) + 32) as char == client.locale@[i]);
        }
    }
}

/// A builder with neither a user agent nor credentials makes a client that
/// sends no default headers; one with both sends the two, the user agent first.
pub proof fn default_headers_follow_options(off: Off)
    ensures
        off.user_agent is None && off.auth is None ==> default_header_texts(&off).len() == 0,
        off.user_agent is Some && off.auth is Some ==> default_header_texts(&off).len() == 2,
{
}

} // verus!

verus! {

/// The locale a call works under: the one it is given, else the client's
/// default locale.
pub open spec fn locale_in_use(c: OffClient, locale: Option<Seq<char>>) -> Seq<char> {
    match locale {
        Some(l) => l,
        None => c.locale@,
    }
}

/// The `fields` parameter a search by barcodes sends: empty, which asks for
/// all fields, where no fields or `*` are given, else the fields given.
pub open spec fn requested_fields(fields: Option<Seq<char>>) -> Seq<char> {
    match fields {
        Some(f) => if f == "*"@ {
            Seq::empty()
        } else {
            f
        },
        None => Seq::empty(),
    }
}

/// What a `GET` of `path` asks under the site of `locale`: the URL is `path`
/// joined (by the url crate) onto the parsed `https://{locale}.openfoodfacts.org/`.
pub open spec fn asked_under(
    locale: Seq<char>,
    path: Seq<char>,
    query: Seq<(Seq<char>, Seq<char>)>,
) -> Option<RequestView> {
    match parsed_url("https://"@ + locale + ".openfoodfacts.org/"@) {
        Some(base) => match joined_url(base, path) {
            Some(url) => Some(RequestView { url, query }),
            None => None,
        },
        None => None,
    }
}

/// What a `GET` of `path` asks under the API of the site of `locale`: `path`
/// joined onto `api/v0/` joined onto the parsed `https://{locale}.openfoodfacts.org/`.
pub open spec fn asked_under_api(
    locale: Seq<char>,
    path: Seq<char>,
    query: Seq<(Seq<char>, Seq<char>)>,
) -> Option<RequestView> {
    match parsed_url("https://"@ + locale + ".openfoodfacts.org/"@) {
        Some(base) => match joined_url(base, "api/v0/"@) {
            Some(api) => match joined_url(api, path) {
                Some(url) => Some(RequestView { url, query }),
                None => None,
            },
            None => None,
        },
        None => None,
    }
}

/// Each call asks for its document on the site of the locale in use (the one
/// given, else the client's default), and taxonomies and categories on the
/// `world` site; the paths and queries are those of the API's documentation.
pub proof fn requests_follow_locale(
    c: OffClient,
    name: Seq<char>,
    fields: Option<Seq<char>>,
    locale: Option<Seq<char>>,
)
    ensures
        c.spec_base_url(locale) == parsed_url(
            "https://"@ + locale_in_use(c, locale) + ".openfoodfacts.org/"@,
        ),
        c.spec_taxonomy(name) == asked_under("world"@, "data/taxonomies/"@ + name + ".json"@, seq![]),
        c.spec_categories() == asked_under("world"@, "categories.json"@, seq![]),
        c.spec_facet(name, locale) == asked_under(
            locale_in_use(c, locale),
            Seq::<char>::empty() + name + ".json"@,
            seq![],
        ),
        c.spec_products_by_category(name, locale) == asked_under(
            locale_in_use(c, locale),
            "category/"@ + name + ".json"@,
            seq![],
        ),
        c.spec_products_with_additive(name, locale) == asked_under(
            locale_in_use(c, locale),
            "additive/"@ + name + ".json"@,
            seq![],
        ),
        c.spec_products_in_state(name, locale) == asked_under(
            locale_in_use(c, locale),
            "state/"@ + name + ".json"@,
            seq![],
        ),
        c.spec_product_by_barcode(name, locale) == asked_under_api(
            locale_in_use(c, locale),
            "product/"@ + name,
            seq![],
        ),
        c.spec_product_nutrients(name, locale) == asked_under(
            locale_in_use(c, locale),
            "cgi/nutients.pl"@,
            seq![
                ("code"@, name),
                ("id"@, "ingredients_fr"@),
                ("process_image"@, "1"@),
                ("ocr_engine"@, "google_cloud_vision"@),
            ],
        ),
        c.spec_search_by_barcode(name, fields, locale) == asked_under_api(
            locale_in_use(c, locale),
            "search"@,
            seq![
                ("code"@, name),
                ("fields"@, requested_fields(fields)),
            ],
        ),
{
    assert(crate::client::barcode_search_query(name, fields) =~= seq![
        ("code"@, name),
        ("fields"@, requested_fields(fields)),
    ]);
}

/// A locale given to a call decides the site it asks: two clients, whatever
/// their default locales, ask the same when given the same locale, and that is
/// what a client whose default locale is that locale asks when given none.
pub proof fn given_locale_overrides_default(
    a: OffClient,
    b: OffClient,
    name: Seq<char>,
    fields: Option<Seq<char>>,
    l: Seq<char>,
)
    requires
        b.locale@ == l,
    ensures
        a.spec_facet(name, Some(l)) == b.spec_facet(name, None),
        a.spec_products_by_category(name, Some(l)) == b.spec_products_by_category(name, None),
        a.spec_products_with_additive(name, Some(l)) == b.spec_products_with_additive(name, None),
        a.spec_products_in_state(name, Some(l)) == b.spec_products_in_state(name, None),
        a.spec_product_by_barcode(name, Some(l)) == b.spec_product_by_barcode(name, None),
        a.spec_product_nutrients(name, Some(l)) == b.spec_product_nutrients(name, None),
        a.spec_search_by_barcode(name, fields, Some(l)) == b.spec_search_by_barcode(
            name,
            fields,
            None,
        ),
{
    requests_follow_locale(a, name, fields, Some(l));
    requests_follow_locale(b, name, fields, None);
}

/// The headers a builder's client sends: the user agent exactly when one is
/// set, first, with its text; the `Authorization` header exactly when
/// credentials are set, last, with the text `Basic {username}:{password}`; and
/// nothing else.
pub proof fn headers_follow_options(off: Off)
    ensures
        default_header_texts(&off).len() == (if off.user_agent is Some { 1int } else { 0 }) + (
        if off.auth is Some {
            1int
        } else {
            0
        }),
        off.user_agent matches Some(u) ==> default_header_texts(&off)[0] == (
            HeaderKind::UserAgent,
            u@,
        ),
        off.auth matches Some(a) ==> default_header_texts(&off).last() == (
            HeaderKind::Authorization,
            "Basic "@ + a.0@ + ":"@ + a.1@,
        ),
        forall|i: int|
            0 <= i < default_header_texts(&off).len() ==> (#[trigger] default_header_texts(
                &off,
            )[i].0 == HeaderKind::Authorization <==> off.auth is Some && i
                == default_header_texts(&off).len() - 1),
        forall|i: int|
            0 <= i < default_header_texts(&off).len() ==> (#[trigger] default_header_texts(
                &off,
            )[i].0 == HeaderKind::UserAgent <==> off.user_agent is Some && i == 0),
{
}

} // verus!
