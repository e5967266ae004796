use crate::error::CatalogError;
use crate::text::opt_text;
use vstd::prelude::*;

verus! {

/// The value that the `scraper` crate finds for the attribute `attribute`
/// of the first element of the page that matches `selector`; `None` where
/// `selector` is no CSS selector, where no element matches it, or where the
/// first that does has no such attribute.
pub uninterp spec fn attribute_in_page(
    page: Seq<char>,
    selector: Seq<char>,
    attribute: Seq<char>,
) -> Option<Seq<char>>;

/// `Html::parse_document`, `Selector::parse`, `Html::select` and
/// `Element::attr` of the `scraper` crate, in this order. The contract only
/// gives the result its name: the same page, selector and attribute always
/// give the same value, or always none.
#[verifier::external_body]
fn first_attribute(page: &str, selector: &str, attribute: &str) -> (value: Option<String>)
    ensures
        opt_text(value) == attribute_in_page(page@, selector@, attribute@),
{
    let document = scraper::Html::parse_document(page);
    let selector = scraper::Selector::parse(selector).ok()?;
    let element = document.select(&selector).next()?;
    element.value().attr(attribute).map(|value| value.to_owned())
}

/// The id of the list that a page of the provider's site shows: the value
/// of the input field with the id `list-id`. A page without that field, or
/// with an empty value in it, shows no list.
pub open spec fn list_id_of_page(page: Seq<char>) -> Result<Seq<char>, CatalogError> {
    match attribute_in_page(page, "input[id=\"list-id\"]"@, "value"@) {
        Some(id) => if id.len() > 0 {
            Ok(id)
        } else {
            Err(CatalogError::Parse)
        },
        None => Err(CatalogError::Parse),
    }
}

/// The id of a list, from what was found for it in its page.
pub fn list_id_from(found: Option<String>) -> (id: Result<String, CatalogError>)
    ensures
        match found {
            Some(value) => if value@.len() > 0 {
                id == Ok::<String, CatalogError>(value)
            } else {
                id == Err::<String, CatalogError>(CatalogError::Parse)
            },
            None => id == Err::<String, CatalogError>(CatalogError::Parse),
        },
{
    match found {
        Some(value) => if value.as_str().unicode_len() > 0 {
            Ok(value)
        } else {
            Err(CatalogError::Parse)
        },
        None => Err(CatalogError::Parse),
    }
}

/// Finds the id of a list in its page at the provider's site.
pub fn list_id_in_page(page: &str) -> (id: Result<String, CatalogError>)
    ensures
        match id {
            Ok(found) => list_id_of_page(page@) == Ok::<Seq<char>, CatalogError>(found@),
            Err(e) => list_id_of_page(page@) == Err::<Seq<char>, CatalogError>(e),
        },
{
    list_id_from(first_attribute(page, "input[id=\"list-id\"]", "value"))
}

} // verus!
