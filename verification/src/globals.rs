use crate::text::same_text;
use crate::trakt::request::pair_texts;
use vstd::prelude::*;

verus! {

/// The ways in which setting the configuration up can fail.
#[derive(Debug, Clone, Copy, PartialEq, Eq, Structural)]
pub enum ConfigError {
    /// The file with the variables was not found.
    NotFound,
    /// A variable that is required is missing or empty.
    Empty,
    /// What is being set has been set before.
    AlreadySet,
    /// What is being asked for has not been set.
    NotSet,
}

/// The credentials that the provider knows the addon by.
#[derive(Debug, Clone, PartialEq, Eq)]
pub struct Environment {
    pub trakt_client_id: String,
    pub trakt_client_secret: String,
}

/// The mathematical value of an [`Environment`].
pub struct EnvironmentView {
    pub trakt_client_id: Seq<char>,
    pub trakt_client_secret: Seq<char>,
}

impl View for Environment {
    type V = EnvironmentView;

    open spec fn view(&self) -> EnvironmentView {
        EnvironmentView {
            trakt_client_id: self.trakt_client_id@,
            trakt_client_secret: self.trakt_client_secret@,
        }
    }
}

/// The connection pool that all requests to the provider share. The pool
/// itself is held by the program; here it is known only whether it is set.
#[derive(Debug, Clone, Copy, PartialEq, Eq, Structural)]
pub struct GlobalClient;

/// What is set up once, before the first request, and only read after that.
#[derive(Debug)]
pub struct Globals {
    environment: Option<Environment>,
    client: Option<GlobalClient>,
}

/// The value of the last variable called `name`, or the empty text where
/// there is none.
pub open spec fn variable(vars: Seq<(Seq<char>, Seq<char>)>, name: Seq<char>) -> Seq<char>
    decreases vars.len(),
{
    if vars.len() == 0 {
        Seq::empty()
    } else if vars.last().0 == name {
        vars.last().1
    } else {
        variable(vars.drop_last(), name)
    }
}

/// The credentials that the variables hold. `found` says whether the file
/// with the variables was found; both credentials must be there and not be
/// empty.
pub open spec fn environment_of(found: bool, vars: Seq<(Seq<char>, Seq<char>)>) -> Result<
    EnvironmentView,
    ConfigError,
> {
    let id = variable(vars, "TRAKT_CLIENT_ID"@);
    let secret = variable(vars, "TRAKT_CLIENT_SECRET"@);
    if !found {
        Err(ConfigError::NotFound)
    } else if id.len() == 0 || secret.len() == 0 {
        Err(ConfigError::Empty)
    } else {
        Ok(EnvironmentView { trakt_client_id: id, trakt_client_secret: secret })
    }
}

impl Globals {
    /// The credentials, once they are set.
    pub closed spec fn environment(self) -> Option<Environment> {
        self.environment
    }

    /// Whether the connection pool is set.
    pub closed spec fn has_client(self) -> bool {
        self.client is Some
    }

    /// Whether the same things are set here as in `other`.
    pub open spec fn holds_what(self, other: Globals) -> bool {
        self.environment() == other.environment() && self.has_client() == other.has_client()
    }

    /// Nothing is set yet.
    pub fn new() -> (globals: Globals)
        ensures
            globals.environment() is None,
            !globals.has_client(),
    {
        Globals { environment: None, client: None }
    }
}

impl Environment {
    /// Reads the credentials from the variables of the process.
    pub fn from_vars(found: bool, vars: &Vec<(String, String)>) -> (environment: Result<
        Environment,
        ConfigError,
    >)
        ensures
            match environment {
                Ok(env) => environment_of(found, pair_texts(vars@)) == Ok::<
                    EnvironmentView,
                    ConfigError,
                >(env@),
                Err(e) => environment_of(found, pair_texts(vars@)) == Err::<
                    EnvironmentView,
                    ConfigError,
                >(e),
            },
    {
        if !found {
            return Err(ConfigError::NotFound);
        }
        let mut trakt_client_id = String::new();
        let mut trakt_client_secret = String::new();
        let ghost all = pair_texts(vars@);
        let mut i: usize = 0;
        assert(all.take(0) =~= Seq::<(Seq<char>, Seq<char>)>::empty());
        while i < vars.len()
            invariant
                i <= vars.len(),
                all == pair_texts(vars@),
                trakt_client_id@ == variable(all.take(i as int), "TRAKT_CLIENT_ID"@),
                trakt_client_secret@ == variable(all.take(i as int), "TRAKT_CLIENT_SECRET"@),
            decreases vars.len() - i,
        {
            assert(all.take(i + 1).drop_last() =~= all.take(i as int));
            assert(all.take(i + 1).last() == (vars[i as int].0@, vars[i as int].1@));
            if same_text(vars[i].0.as_str(), "TRAKT_CLIENT_ID") {
                trakt_client_id = vars[i].1.clone();
            }
            if same_text(vars[i].0.as_str(), "TRAKT_CLIENT_SECRET") {
                trakt_client_secret = vars[i].1.clone();
            }
            i = i + 1;
        }
        assert(all.take(vars.len() as int) =~= all);
        if trakt_client_id.as_str().unicode_len() == 0
            || trakt_client_secret.as_str().unicode_len() == 0 {
            return Err(ConfigError::Empty);
        }
        Ok(Environment { trakt_client_id, trakt_client_secret })
    }

    /// Sets the credentials from the variables of the process. They are set
    /// once: where they are set already, or cannot be read, nothing changes.
    pub fn set(globals: &mut Globals, found: bool, vars: &Vec<(String, String)>) -> (done: Result<
        (),
        ConfigError,
    >)
        ensures
            final(globals).has_client() == old(globals).has_client(),
            match done {
                Ok(_) => {
                    &&& old(globals).environment() is None
                    &&& final(globals).environment() matches Some(env)
                    &&& environment_of(found, pair_texts(vars@)) == Ok::<
                        EnvironmentView,
                        ConfigError,
                    >(env@)
                },
                Err(e) => {
                    &&& final(globals).environment() == old(globals).environment()
                    &&& match environment_of(found, pair_texts(vars@)) {
                        Err(reason) => e == reason,
                        Ok(_) => e == ConfigError::AlreadySet && old(globals).environment()
                            is Some,
                    }
                },
            },
    {
        let environment = match Environment::from_vars(found, vars) {
            Ok(environment) => environment,
            Err(e) => {
                return Err(e);
            },
        };
        if globals.environment.is_some() {
            return Err(ConfigError::AlreadySet);
        }
        globals.environment = Some(environment);
        Ok(())
    }

    /// The credentials, where they are set.
    pub fn get(globals: &Globals) -> (environment: Result<&Environment, ConfigError>)
        ensures
            match environment {
                Ok(env) => globals.environment() == Some(*env),
                Err(e) => e == ConfigError::NotSet && globals.environment() is None,
            },
    {
        match &globals.environment {
            Some(environment) => Ok(environment),
            None => Err(ConfigError::NotSet),
        }
    }
}

impl GlobalClient {
    /// Marks the connection pool as set. It is set once.
    pub fn set(globals: &mut Globals) -> (done: Result<(), ConfigError>)
        ensures
            final(globals).environment() == old(globals).environment(),
            final(globals).has_client(),
            match done {
                Ok(_) => !old(globals).has_client(),
                Err(e) => e == ConfigError::AlreadySet && old(globals).has_client(),
            },
    {
        if globals.client.is_some() {
            return Err(ConfigError::AlreadySet);
        }
        globals.client = Some(GlobalClient);
        Ok(())
    }

    /// The connection pool, where it is set.
    pub fn get(globals: &Globals) -> (client: Result<GlobalClient, ConfigError>)
        ensures
            match client {
                Ok(_) => globals.has_client(),
                Err(e) => e == ConfigError::NotSet && !globals.has_client(),
            },
    {
        match globals.client {
            Some(client) => Ok(client),
            None => Err(ConfigError::NotSet),
        }
    }
}

/// Sets the credentials and then the connection pool. Where the credentials
/// cannot be set, nothing changes. Where they are set and the connection
/// pool was set before, the credentials stay set and the call fails.
pub fn set_globals(globals: &mut Globals, found: bool, vars: &Vec<(String, String)>) -> (done:
    Result<(), ConfigError>)
    ensures
        environment_of(found, pair_texts(vars@)) matches Err(reason) ==> done == Err::<
            (),
            ConfigError,
        >(reason) && final(globals).holds_what(*old(globals)),
        environment_of(found, pair_texts(vars@)) is Ok && old(globals).environment() is Some
            ==> done == Err::<(), ConfigError>(ConfigError::AlreadySet)
            && final(globals).holds_what(*old(globals)),
        old(globals).environment() is None ==> match environment_of(found, pair_texts(vars@)) {
            Ok(credentials) => {
                &&& final(globals).environment() matches Some(set)
                &&& set@ == credentials
                &&& final(globals).has_client()
                &&& done is Ok <==> !old(globals).has_client()
                &&& done matches Err(e) ==> e == ConfigError::AlreadySet
            },
            Err(_) => true,
        },
{
    match Environment::set(globals, found, vars) {
        Ok(_) => {},
        Err(e) => {
            return Err(e);
        },
    }
    GlobalClient::set(globals)
}

} // verus!
