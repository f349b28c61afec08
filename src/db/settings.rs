//! The database settings of a configuration: where the schema files are,
//! and how to reach the database.
use vstd::prelude::*;
use crate::config::ast::{Group, ValueV};
use crate::config::error::{EvaluationError, EvaluationErrorV, FromConfigError, FromConfigErrorV};
use crate::config::eval::{
    expected, spec_get_int, spec_get_path, spec_get_string, Builtin, Context, EnvVar, Environment,
};
use crate::parser::str_eq;

verus! {

/// How to reach a PostgreSQL database.
#[derive(Debug)]
pub struct PostgresSettings {
    pub host: String,
    pub username: String,
    pub password: String,
    pub port: u16,
    pub database: String,
}

/// The `database` section of a configuration.
#[derive(Debug)]
pub struct DatabaseSettings {
    /// The directory of the schema files, as written.
    pub path: String,
    pub postgres: PostgresSettings,
}

pub ghost struct DatabaseSettingsV {
    pub path: Seq<char>,
    pub host: Seq<char>,
    pub username: Seq<char>,
    pub password: Seq<char>,
    pub port: u16,
    pub database: Seq<char>,
}

impl View for DatabaseSettings {
    type V = DatabaseSettingsV;

    open spec fn view(&self) -> DatabaseSettingsV {
        DatabaseSettingsV {
            path: self.path@,
            host: self.postgres.host@,
            username: self.postgres.username@,
            password: self.postgres.password@,
            port: self.postgres.port,
            database: self.postgres.database@,
        }
    }
}

pub open spec fn port_message() -> Seq<char> {
    "unable to convert i64 into u16: out of range integral type conversion attempted"@
}

pub open spec fn lift<T>(r: Result<T, EvaluationErrorV>) -> Result<T, FromConfigErrorV> {
    match r {
        Ok(x) => Ok(x),
        Err(e) => Err(FromConfigErrorV::EvaluationError(e)),
    }
}

/// The port at `key`: an integer that fits in 16 bits.
pub open spec fn spec_get_port(
    g: Map<Seq<char>, ValueV>,
    key: Seq<char>,
    functions: Map<Seq<char>, Builtin>,
    vars: Seq<EnvVar>,
) -> Result<u16, FromConfigErrorV> {
    match spec_get_int(g, key, functions, vars) {
        Err(e) => Err(FromConfigErrorV::EvaluationError(e)),
        Ok(n) => if 0 <= n <= u16::MAX {
            Ok(n as u16)
        } else {
            Err(FromConfigErrorV::EvaluationError(EvaluationErrorV::EvaluationError {
                function: "<core>"@,
                message: port_message(),
            }))
        },
    }
}

/// The settings that the `database` group of `root` gives: read in the
/// order path, type, host, username, password, port, database; the first
/// failure is the result. Only the type `postgres` is known.
pub open spec fn spec_database_settings(
    root: Map<Seq<char>, ValueV>,
    f: Map<Seq<char>, Builtin>,
    v: Seq<EnvVar>,
) -> Result<DatabaseSettingsV, FromConfigErrorV> {
    if !(root.contains_key("database"@) && root["database"@] is Group) {
        Err(FromConfigErrorV::EvaluationError(expected("database"@, "group"@)))
    } else {
        let db = root["database"@]->Group_0;
        match lift(spec_get_path(db, "path"@, f, v)) {
            Err(e) => Err(e),
            Ok(path) => match lift(spec_get_string(db, "type"@, f, v)) {
                Err(e) => Err(e),
                Ok(ty) => if ty != "postgres"@ {
                    Err(FromConfigErrorV::Custom("invalid database type: \""@ + ty + "\""@))
                } else {
                    match lift(spec_get_string(db, "host"@, f, v)) {
                        Err(e) => Err(e),
                        Ok(host) => match lift(spec_get_string(db, "username"@, f, v)) {
                            Err(e) => Err(e),
                            Ok(username) => match lift(spec_get_string(db, "password"@, f, v)) {
                                Err(e) => Err(e),
                                Ok(password) => match spec_get_port(db, "port"@, f, v) {
                                    Err(e) => Err(e),
                                    Ok(port) => match lift(spec_get_string(db, "database"@, f, v)) {
                                        Err(e) => Err(e),
                                        Ok(database) => Ok(
                                            DatabaseSettingsV { path, host, username, password, port, database },
                                        ),
                                    },
                                },
                            },
                        },
                    }
                },
            },
        }
    }
}

fn lifted<T>(r: Result<T, EvaluationError>) -> (o: Result<T, FromConfigError>)
    ensures
        r is Ok ==> o is Ok && o->Ok_0 == r->Ok_0,
        r is Err ==> o is Err && o->Err_0@ == FromConfigErrorV::EvaluationError(r->Err_0@),
{
    match r {
        Ok(x) => Ok(x),
        Err(e) => Err(FromConfigError::EvaluationError(e)),
    }
}

fn get_port(g: &Group, key: &str, context: &Context, env: &Environment) -> (r: Result<u16, FromConfigError>)
    ensures
        match spec_get_port(g@, key@, context.functions(), env.vars@) {
            Ok(p) => r == Ok::<u16, FromConfigError>(p),
            Err(e) => r is Err && r->Err_0@ == e,
        },
{
    let n = lifted(g.get_int(key, context, env))?;
    if 0 <= n && n <= 65535 {
        Ok(n as u16)
    } else {
        Err(
            FromConfigError::EvaluationError(
                EvaluationError::EvaluationError {
                    function: String::from_str("<core>"),
                    message: String::from_str(
                        "unable to convert i64 into u16: out of range integral type conversion attempted",
                    ),
                },
            ),
        )
    }
}

impl DatabaseSettings {
    /// Reads the `database` group of `root`.
    pub fn from_config(root: &Group, context: &Context, env: &Environment) -> (r: Result<
        DatabaseSettings,
        FromConfigError,
    >)
        ensures
            match spec_database_settings(root@, context.functions(), env.vars@) {
                Ok(s) => r is Ok && r->Ok_0@ == s,
                Err(e) => r is Err && r->Err_0@ == e,
            },
    {
        let db = lifted(root.get_group("database"))?;
        let path = lifted(db.get_path("path", context, env))?;
        let ty = lifted(db.get_string("type", context, env))?;
        if !str_eq(ty.as_str(), "postgres") {
            let m = String::from_str("invalid database type: \"").concat(ty.as_str()).concat("\"");
            return Err(FromConfigError::Custom(m));
        }
        let host = lifted(db.get_string("host", context, env))?;
        let username = lifted(db.get_string("username", context, env))?;
        let password = lifted(db.get_string("password", context, env))?;
        let port = get_port(db, "port", context, env)?;
        let database = lifted(db.get_string("database", context, env))?;
        Ok(DatabaseSettings { path, postgres: PostgresSettings { host, username, password, port, database } })
    }
}

} // verus!
