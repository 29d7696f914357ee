//! Translation of user-facing messages through a gettext catalog.

use vstd::prelude::*;
use vstd::string::StringExecFns;

verus! {

#[verifier::external_type_specification]
#[verifier::external_body]
pub struct ExCatalog(gettext::Catalog);

/// Relies on `gettext::Catalog::gettext`: the catalog's translation of
/// `msg_id`, or `msg_id` itself where it has none. What comes back depends on
/// the catalog that was loaded, so nothing is stated of it.
#[verifier::external_body]
fn catalog_text(catalog: &gettext::Catalog, msg_id: &str) -> String {
    catalog.gettext(msg_id).to_owned()
}

/// The message `msg_id` in the language of `catalog`; without a catalog the
/// message stays as written.
pub fn localize(catalog: Option<&gettext::Catalog>, msg_id: &str) -> (r: String)
    ensures
        catalog is None ==> r@ == msg_id@,
{
    match catalog {
        Some(c) => catalog_text(c, msg_id),
        None => String::from_str(msg_id),
    }
}

} // verus!
