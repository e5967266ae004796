use dynamic_catalogs::addon::catalog::{Catalog, CatalogType, Extra};
use dynamic_catalogs::addon::manifest::{Manifest, Resource};
use dynamic_catalogs::addon::Addon;
use dynamic_catalogs::error::CatalogError;
use dynamic_catalogs::globals::{set_globals, ConfigError, Environment, GlobalClient, Globals};

const CONFIG: &str = "W3siaWQiOiJhYmMtdHJha3QiLCJ0eXBlIjoibW92aWUiLCJuYW1lIjoiTmV0ZmxpeCBNb3ZpZXMiLCJleHRyYSI6W3sibmFtZSI6InNraXAiLCJpc1JlcXVpcmVkIjpmYWxzZX1dfSx7ImlkIjoiZGVmLXRyYWt0IiwidHlwZSI6InNlcmllcyIsIm5hbWUiOiJTaG93cyIsImV4dHJhIjpbeyJuYW1lIjoiZ2VucmUiLCJvcHRpb25zIjpbIkFjdGlvbiIsIkRyYW1hIl0sImlzUmVxdWlyZWQiOnRydWV9XX1d";

fn configured() -> Vec<Catalog> {
    vec![
        Catalog {
            id: "abc-trakt".to_string(),
            catalog_type: CatalogType::Movie,
            name: "Netflix Movies".to_string(),
            extra: vec![Extra::new("skip", None, false)],
        },
        Catalog {
            id: "def-trakt".to_string(),
            catalog_type: CatalogType::Series,
            name: "Shows".to_string(),
            extra: vec![Extra::new(
                "genre",
                Some(vec!["Action".to_string(), "Drama".to_string()]),
                true,
            )],
        },
    ]
}

fn vars(items: &[(&str, &str)]) -> Vec<(String, String)> {
    items.iter().map(|(a, b)| (a.to_string(), b.to_string())).collect()
}

#[test]
fn configuration_holds_the_catalogs() {
    assert_eq!(Catalog::from_config(CONFIG), Ok(configured()));
    assert_eq!(Catalog::from_config("W10="), Ok(vec![]));
}

#[test]
fn configuration_fails_step_by_step() {
    assert_eq!(Catalog::from_config("not base64!"), Err(CatalogError::Decode));
    assert_eq!(Catalog::from_config("//4="), Err(CatalogError::Encoding));
    assert_eq!(Catalog::from_config("bm90IGpzb24="), Err(CatalogError::Decode));
    assert_eq!(Catalog::from_config("eyJlbmRwb2ludCI6Ikxpc3QifQ=="), Err(CatalogError::Parse));
}

#[test]
fn extra_keeps_what_it_is_given() {
    let extra = Extra::new("skip", None, false);
    assert_eq!(extra.name, "skip");
    assert_eq!(extra.options, None);
    assert!(!extra.is_required);
    let extra = Extra::new("genre", Some(vec!["A".to_string()]), true);
    assert_eq!(extra.options, Some(vec!["A".to_string()]));
    assert!(extra.is_required);
}

#[test]
fn manifest_lists_each_kind_once_and_movies_first() {
    let manifest = Manifest::build(CONFIG).unwrap();
    assert_eq!(manifest.id, "com.dynamic.catalogs");
    assert_eq!(manifest.version, "0.0.1");
    assert_eq!(manifest.name, "Dynamic Catalogs");
    assert_eq!(manifest.description, "Dynamic Catalogs");
    assert_eq!(manifest.logo, "logo.png");
    assert_eq!(manifest.resources, vec![Resource::Catalog]);
    assert_eq!(manifest.types, vec![CatalogType::Movie, CatalogType::Series]);
    assert_eq!(manifest.catalogs, configured());

    let mut many = configured();
    many.reverse();
    many.extend(configured());
    let manifest = Manifest::from_catalogs(many.clone());
    assert_eq!(manifest.types, vec![CatalogType::Movie, CatalogType::Series]);
    assert_eq!(manifest.catalogs, many);

    let only_shows = vec![configured().remove(1)];
    assert_eq!(Manifest::from_catalogs(only_shows).types, vec![CatalogType::Series]);
    let only_movies = vec![configured().remove(0)];
    assert_eq!(Manifest::from_catalogs(only_movies).types, vec![CatalogType::Movie]);
}

#[test]
fn manifest_without_catalogs_serves_nothing() {
    let manifest = Manifest::build("W10=").unwrap();
    assert_eq!(manifest.resources, vec![]);
    assert_eq!(manifest.types, vec![]);
    assert_eq!(manifest.catalogs, vec![]);
}

#[test]
fn manifest_fails_as_the_configuration_does() {
    assert_eq!(Manifest::build("%"), Err(CatalogError::Decode));
    assert_eq!(Addon::build("%").err(), Some(CatalogError::Decode));
    assert_eq!(Addon::build("e30=").err(), Some(CatalogError::Parse));
}

#[test]
fn addon_wraps_the_manifest() {
    let addon = Addon::build(CONFIG).unwrap();
    assert_eq!(addon.manifest, Manifest::build(CONFIG).unwrap());
    assert_eq!(addon.transport_url, "todo");
    assert_eq!(addon.transport_name, "todo");
    assert_eq!(addon.flags, vec!["todo".to_string(), "todo".to_string()]);
}

#[test]
fn credentials_are_read_from_the_variables() {
    let all = vars(&[
        ("PATH", "/bin"),
        ("TRAKT_CLIENT_ID", "id-1"),
        ("TRAKT_CLIENT_SECRET", "secret-1"),
        ("HOME", "/root"),
    ]);
    assert_eq!(
        Environment::from_vars(true, &all),
        Ok(Environment {
            trakt_client_id: "id-1".to_string(),
            trakt_client_secret: "secret-1".to_string()
        })
    );
    let twice = vars(&[
        ("TRAKT_CLIENT_ID", "old"),
        ("TRAKT_CLIENT_SECRET", "s"),
        ("TRAKT_CLIENT_ID", "new"),
    ]);
    assert_eq!(Environment::from_vars(true, &twice).unwrap().trakt_client_id, "new");
}

#[test]
fn missing_or_empty_credentials_are_refused() {
    assert_eq!(Environment::from_vars(true, &vars(&[])), Err(ConfigError::Empty));
    assert_eq!(
        Environment::from_vars(true, &vars(&[("TRAKT_CLIENT_ID", "id")])),
        Err(ConfigError::Empty)
    );
    assert_eq!(
        Environment::from_vars(true, &vars(&[("TRAKT_CLIENT_SECRET", "s")])),
        Err(ConfigError::Empty)
    );
    assert_eq!(
        Environment::from_vars(
            true,
            &vars(&[("TRAKT_CLIENT_ID", "id"), ("TRAKT_CLIENT_SECRET", "")])
        ),
        Err(ConfigError::Empty)
    );
    assert_eq!(
        Environment::from_vars(
            true,
            &vars(&[("trakt_client_id", "id"), ("TRAKT_CLIENT_SECRET", "s")])
        ),
        Err(ConfigError::Empty)
    );
}

#[test]
fn variables_that_were_not_found_are_refused_first() {
    let all = vars(&[("TRAKT_CLIENT_ID", "id"), ("TRAKT_CLIENT_SECRET", "s")]);
    assert_eq!(Environment::from_vars(false, &all), Err(ConfigError::NotFound));
    assert_eq!(Environment::from_vars(false, &vars(&[])), Err(ConfigError::NotFound));
}

#[test]
fn credentials_are_set_once() {
    let first = vars(&[("TRAKT_CLIENT_ID", "id-1"), ("TRAKT_CLIENT_SECRET", "s-1")]);
    let second = vars(&[("TRAKT_CLIENT_ID", "id-2"), ("TRAKT_CLIENT_SECRET", "s-2")]);
    let mut globals = Globals::new();
    assert_eq!(Environment::get(&globals), Err(ConfigError::NotSet));
    assert_eq!(Environment::set(&mut globals, true, &first), Ok(()));
    assert_eq!(Environment::get(&globals).unwrap().trakt_client_id, "id-1");
    assert_eq!(Environment::set(&mut globals, true, &second), Err(ConfigError::AlreadySet));
    assert_eq!(Environment::get(&globals).unwrap().trakt_client_id, "id-1");
    assert_eq!(Environment::get(&globals).unwrap().trakt_client_secret, "s-1");
}

#[test]
fn credentials_that_cannot_be_read_leave_nothing_set() {
    let mut globals = Globals::new();
    assert_eq!(Environment::set(&mut globals, true, &vars(&[])), Err(ConfigError::Empty));
    assert_eq!(Environment::get(&globals), Err(ConfigError::NotSet));
    assert_eq!(Environment::set(&mut globals, false, &vars(&[])), Err(ConfigError::NotFound));
    assert_eq!(Environment::get(&globals), Err(ConfigError::NotSet));
}

#[test]
fn connection_pool_is_set_once() {
    let mut globals = Globals::new();
    assert_eq!(GlobalClient::get(&globals), Err(ConfigError::NotSet));
    assert_eq!(GlobalClient::set(&mut globals), Ok(()));
    assert_eq!(GlobalClient::get(&globals), Ok(GlobalClient));
    assert_eq!(GlobalClient::set(&mut globals), Err(ConfigError::AlreadySet));
    assert_eq!(GlobalClient::get(&globals), Ok(GlobalClient));
}

#[test]
fn globals_are_set_together() {
    let all = vars(&[("TRAKT_CLIENT_ID", "id"), ("TRAKT_CLIENT_SECRET", "s")]);
    let mut globals = Globals::new();
    assert_eq!(set_globals(&mut globals, true, &all), Ok(()));
    assert_eq!(Environment::get(&globals).unwrap().trakt_client_id, "id");
    assert_eq!(GlobalClient::get(&globals), Ok(GlobalClient));
    assert_eq!(set_globals(&mut globals, true, &all), Err(ConfigError::AlreadySet));

    let mut globals = Globals::new();
    assert_eq!(set_globals(&mut globals, true, &vars(&[])), Err(ConfigError::Empty));
    assert_eq!(Environment::get(&globals), Err(ConfigError::NotSet));
    assert_eq!(GlobalClient::get(&globals), Err(ConfigError::NotSet));

    let mut globals = Globals::new();
    assert_eq!(GlobalClient::set(&mut globals), Ok(()));
    assert_eq!(set_globals(&mut globals, true, &all), Err(ConfigError::AlreadySet));
    assert_eq!(Environment::get(&globals).unwrap().trakt_client_id, "id");
}
