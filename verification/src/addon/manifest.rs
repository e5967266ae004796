use crate::addon::catalog::{
    catalog_views, catalogs_of_config, Catalog, CatalogType, CatalogView,
};
use crate::error::CatalogError;
use vstd::prelude::*;

verus! {

/// What the addon serves.
#[derive(Debug, PartialEq, Eq, Hash, Copy, Clone, Structural)]
pub enum Resource {
    Catalog,
}

/// What the addon tells a client of itself: who it is, and which catalogs
/// it has.
#[derive(Debug, Clone, PartialEq, Eq)]
pub struct Manifest {
    pub id: String,
    pub version: String,
    pub name: String,
    pub description: String,
    pub logo: String,
    pub resources: Vec<Resource>,
    pub types: Vec<CatalogType>,
    pub catalogs: Vec<Catalog>,
}

/// Whether one of the catalogs lists content of the kind `kind`.
pub open spec fn lists_kind(catalogs: Seq<CatalogView>, kind: CatalogType) -> bool {
    exists|i: int| 0 <= i < catalogs.len() && (#[trigger] catalogs[i]).catalog_type == kind
}

/// The kinds of content that the catalogs list, each once: movies before
/// series.
pub open spec fn kinds_of(catalogs: Seq<CatalogView>) -> Seq<CatalogType> {
    let movies = if lists_kind(catalogs, CatalogType::Movie) {
        seq![CatalogType::Movie]
    } else {
        Seq::empty()
    };
    if lists_kind(catalogs, CatalogType::Series) {
        movies.push(CatalogType::Series)
    } else {
        movies
    }
}

/// What the addon serves with these catalogs: catalogs, where there is one.
pub open spec fn resources_of(catalogs: Seq<CatalogView>) -> Seq<Resource> {
    if catalogs.len() > 0 {
        seq![Resource::Catalog]
    } else {
        Seq::empty()
    }
}

impl Manifest {
    /// Whether this is the addon's manifest for the catalogs `catalogs`.
    pub open spec fn describes(self, catalogs: Seq<CatalogView>) -> bool {
        &&& self.id@ == "com.dynamic.catalogs"@
        &&& self.version@ == "0.0.1"@
        &&& self.name@ == "Dynamic Catalogs"@
        &&& self.description@ == "Dynamic Catalogs"@
        &&& self.logo@ == "logo.png"@
        &&& self.resources@ == resources_of(catalogs)
        &&& self.types@ == kinds_of(catalogs)
        &&& catalog_views(self.catalogs@) == catalogs
    }

    /// The manifest for a list of catalogs.
    pub fn from_catalogs(catalogs: Vec<Catalog>) -> (manifest: Manifest)
        ensures
            manifest.describes(catalog_views(catalogs@)),
            manifest.catalogs == catalogs,
    {
        let ghost views = catalog_views(catalogs@);
        let mut has_movies = false;
        let mut has_series = false;
        let mut i: usize = 0;
        while i < catalogs.len()
            invariant
                i <= catalogs.len(),
                views == catalog_views(catalogs@),
                has_movies == lists_kind(views.take(i as int), CatalogType::Movie),
                has_series == lists_kind(views.take(i as int), CatalogType::Series),
            decreases catalogs.len() - i,
        {
            let ghost before = views.take(i as int);
            let ghost after = views.take(i + 1);
            assert(after[i as int] == catalogs[i as int]@);
            assert forall|kind: CatalogType|
                lists_kind(after, kind) == (lists_kind(before, kind)
                    || catalogs[i as int].catalog_type == kind) by {
                if lists_kind(before, kind) {
                    let k = choose|k: int|
                        0 <= k < before.len() && (#[trigger] before[k]).catalog_type == kind;
                    assert(after[k] == before[k]);
                }
                if lists_kind(after, kind) {
                    let k = choose|k: int|
                        0 <= k < after.len() && (#[trigger] after[k]).catalog_type == kind;
                    if k < i {
                        assert(before[k] == after[k]);
                    }
                }
            }
            match catalogs[i].catalog_type {
                CatalogType::Movie => {
                    has_movies = true;
                },
                CatalogType::Series => {
                    has_series = true;
                },
            }
            i = i + 1;
        }
        assert(views.take(catalogs.len() as int) =~= views);
        let mut types: Vec<CatalogType> = Vec::new();
        if has_movies {
            types.push(CatalogType::Movie);
        }
        if has_series {
            types.push(CatalogType::Series);
        }
        let mut resources: Vec<Resource> = Vec::new();
        if catalogs.len() > 0 {
            resources.push(Resource::Catalog);
        }
        assert(types@ =~= kinds_of(views));
        assert(resources@ =~= resources_of(views));
        Manifest {
            id: "com.dynamic.catalogs".to_owned(),
            version: "0.0.1".to_owned(),
            name: "Dynamic Catalogs".to_owned(),
            description: "Dynamic Catalogs".to_owned(),
            logo: "logo.png".to_owned(),
            resources,
            types,
            catalogs,
        }
    }

    /// The manifest for the catalogs that a configuration holds.
    pub fn build(config: &str) -> (manifest: Result<Manifest, CatalogError>)
        ensures
            match manifest {
                Ok(m) => catalogs_of_config(config@) matches Ok(catalogs) && m.describes(catalogs),
                Err(e) => catalogs_of_config(config@) == Err::<Seq<CatalogView>, CatalogError>(e),
            },
    {
        match Catalog::from_config(config) {
            Ok(catalogs) => Ok(Manifest::from_catalogs(catalogs)),
            Err(e) => Err(e),
        }
    }
}

} // verus!
