//! The source configuration: which engine, and how to reach the database.

use vstd::prelude::*;

verus! {

/// The database engines that a configuration can name.
#[derive(Debug, Clone, Copy, PartialEq, Eq, Structural)]
pub enum Engine {
    Postgres,
    MySql,
}

impl Engine {
    /// The engine's name as it is shown to a user.
    pub open spec fn spec_name(&self) -> Seq<char> {
        match *self {
            Engine::Postgres => "PostgreSQL"@,
            Engine::MySql => "MySQL"@,
        }
    }

    /// The engine's name as it is shown to a user.
    pub fn name(&self) -> (name: &'static str)
        ensures
            name@ == self.spec_name(),
    {
        match self {
            Engine::Postgres => "PostgreSQL",
            Engine::MySql => "MySQL",
        }
    }
}

/// How to reach a PostgreSQL database. Nothing here is checked against the
/// network: a configuration can name a host that does not answer.
#[derive(Debug, Clone, PartialEq, Eq)]
pub struct PostgresConfig {
    pub host: String,
    pub port: u16,
    pub database: String,
    pub username: String,
    /// `None` where no password was supplied.
    pub password: Option<String>,
}

/// How to reach a MySQL database.
#[derive(Debug, Clone, PartialEq, Eq)]
pub struct MySqlConfig {
    pub host: String,
    pub port: u16,
    pub database: String,
    pub username: String,
    /// `None` where no password was supplied.
    pub password: Option<String>,
}

/// A connection descriptor tagged with its engine. The tag alone selects the
/// adapter that does the work.
#[derive(Debug, Clone, PartialEq, Eq)]
pub enum SourceConfig {
    PG(PostgresConfig),
    MySql(MySqlConfig),
}

impl SourceConfig {
    /// The engine that the configuration names.
    pub open spec fn spec_engine(&self) -> Engine {
        match *self {
            SourceConfig::PG(_) => Engine::Postgres,
            SourceConfig::MySql(_) => Engine::MySql,
        }
    }

    /// The engine that the configuration names.
    #[verifier::when_used_as_spec(spec_engine)]
    pub fn engine(&self) -> (engine: Engine)
        ensures
            engine == self.spec_engine(),
    {
        match self {
            SourceConfig::PG(_) => Engine::Postgres,
            SourceConfig::MySql(_) => Engine::MySql,
        }
    }
}

/// The password that a configuration stands for: the one supplied, and the empty
/// text where none was. An absent password is thus sent as an empty one; it does
/// not select password-less authentication.
pub open spec fn effective_password(password: Option<String>) -> Seq<char> {
    match password {
        Some(text) => text@,
        None => Seq::empty(),
    }
}

/// The password to hand to an adapter for `password`.
pub fn password_or_empty(password: &Option<String>) -> (text: &str)
    ensures
        text@ == effective_password(*password),
{
    match password {
        Some(text) => text.as_str(),
        None => {
            proof {
                reveal_strlit("");
            }
            assert(""@ =~= Seq::<char>::empty());
            ""
        },
    }
}

/// The number of workers that a dump or restore tool may use at once: at least 1.
#[derive(Debug, Clone, Copy, PartialEq, Eq)]
pub struct Parallelism {
    workers: u32,
}

impl Parallelism {
    #[verifier::type_invariant]
    spec fn at_least_one(self) -> bool {
        self.workers >= 1
    }

    /// The number of workers.
    pub closed spec fn spec_workers(&self) -> u32 {
        self.workers
    }

    /// A setting of `workers` workers; `None` for 0, which is no setting.
    pub fn new(workers: u32) -> (setting: Option<Parallelism>)
        ensures
            setting is Some <==> workers >= 1,
            setting matches Some(p) ==> p.spec_workers() == workers,
    {
        if workers >= 1 {
            Some(Parallelism { workers })
        } else {
            None
        }
    }

    /// The number of workers, which is never 0.
    #[verifier::when_used_as_spec(spec_workers)]
    pub fn workers(&self) -> (workers: u32)
        ensures
            workers == self.spec_workers(),
            workers >= 1,
    {
        proof {
            use_type_invariant(self);
        }
        self.workers
    }
}

} // verus!
