use crate::addon::catalog::{catalogs_of_config, CatalogView};
use crate::addon::manifest::Manifest;
use crate::error::CatalogError;
use crate::text::texts;
use vstd::prelude::*;

pub mod catalog;
pub mod manifest;

verus! {

/// The addon as a client installs it: its manifest and how it is reached.
#[derive(Debug, Clone, PartialEq, Eq)]
pub struct Addon {
    pub transport_url: String,
    pub transport_name: String,
    pub manifest: Manifest,
    pub flags: Vec<String>,
}

impl Addon {
    /// The addon for the catalogs that a configuration holds. How it is
    /// reached is not known here, and the fields that say so hold `todo`.
    pub fn build(config: &str) -> (addon: Result<Addon, CatalogError>)
        ensures
            match addon {
                Ok(a) => {
                    &&& catalogs_of_config(config@) matches Ok(catalogs)
                    &&& a.manifest.describes(catalogs)
                    &&& a.transport_url@ == "todo"@
                    &&& a.transport_name@ == "todo"@
                    &&& texts(a.flags@) == seq!["todo"@, "todo"@]
                },
                Err(e) => catalogs_of_config(config@) == Err::<Seq<CatalogView>, CatalogError>(e),
            },
    {
        let manifest = match Manifest::build(config) {
            Ok(manifest) => manifest,
            Err(e) => {
                return Err(e);
            },
        };
        let mut flags: Vec<String> = Vec::new();
        flags.push("todo".to_owned());
        flags.push("todo".to_owned());
        assert(texts(flags@) =~= seq!["todo"@, "todo"@]);
        Ok(
            Addon {
                transport_url: "todo".to_owned(),
                transport_name: "todo".to_owned(),
                manifest,
                flags,
            },
        )
    }
}

} // verus!
