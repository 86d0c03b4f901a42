//! The address to listen on, as the environment gives it: `HOST` and `PORT`,
//! with a default for each that is not set.

use crate::decimal::{decimal_text, parse_u32, parsed_u32, push_decimal};
use vstd::prelude::*;

verus! {

/// The host that is listened on where the environment names none.
pub const DEFAULT_HOST: &'static str = "0.0.0.0";

/// The port that is listened on where the environment names none.
pub const DEFAULT_PORT: u32 = 80;

/// The name of the variable that gives the host.
pub const HOST_VARIABLE: &'static str = "HOST";

/// The name of the variable that gives the port.
pub const PORT_VARIABLE: &'static str = "PORT";

/// Where the service listens.
#[derive(Debug, PartialEq, Eq)]
pub struct Config {
    pub host: String,
    pub port: u32,
}

/// The environment sets `PORT` to a text that is no unsigned integer.
#[derive(Debug, PartialEq, Eq)]
pub struct ConfigError {
    /// The text that `PORT` is set to.
    pub value: String,
}

/// The value of a variable in an environment, given as pairs of name and
/// value: that of the first pair with this name, letter for letter.
pub open spec fn env_value(env: Seq<(Seq<char>, Seq<char>)>, name: Seq<char>) -> Option<
    Seq<char>,
>
    decreases env.len(),
{
    if env.len() == 0 {
        None
    } else if env[0].0 == name {
        Some(env[0].1)
    } else {
        env_value(env.drop_first(), name)
    }
}

/// Whether an environment leaves a variable to its default: the variable is
/// not set, or set to nothing.
pub open spec fn leaves_default(env: Seq<(Seq<char>, Seq<char>)>, name: Seq<char>) -> bool {
    match env_value(env, name) {
        Some(value) => value.len() == 0,
        None => true,
    }
}

/// The host that an environment gives: the value of `HOST` as it stands, or
/// the default where the environment leaves it to that.
pub open spec fn resolved_host(env: Seq<(Seq<char>, Seq<char>)>) -> Seq<char> {
    if leaves_default(env, HOST_VARIABLE@) {
        DEFAULT_HOST@
    } else {
        env_value(env, HOST_VARIABLE@).unwrap()
    }
}

/// The port that an environment gives: the default where the environment
/// leaves it to that, else the number that `PORT` denotes or, as an error, the
/// text that denotes no number.
pub open spec fn resolved_port(env: Seq<(Seq<char>, Seq<char>)>) -> Result<u32, Seq<char>> {
    if leaves_default(env, PORT_VARIABLE@) {
        Ok(DEFAULT_PORT)
    } else {
        match parsed_u32(env_value(env, PORT_VARIABLE@).unwrap()) {
            Some(port) => Ok(port),
            None => Err(env_value(env, PORT_VARIABLE@).unwrap()),
        }
    }
}

/// The address of a host and a port, as a listener takes it.
pub open spec fn address_text(host: Seq<char>, port: u32) -> Seq<char> {
    host + seq![':'] + decimal_text(port as nat)
}

impl Config {
    /// Both fields hold a value: the host is not empty.
    pub open spec fn wf(&self) -> bool {
        self.host@.len() > 0
    }

    /// The address to bind: host, a colon, and the port in decimal notation.
    pub fn get_address(&self) -> (address: String)
        ensures
            address@ == address_text(self.host@, self.port),
    {
        let mut address = self.host.clone();
        proof {
            reveal_strlit(":");
        }
        address.append(":");
        push_decimal(&mut address, self.port);
        address
    }
}

/// The host to listen on where none is configured.
pub fn default_host() -> (host: String)
    ensures
        host@ == DEFAULT_HOST@,
{
    DEFAULT_HOST.to_owned()
}

/// The port to listen on where none is configured.
pub fn default_port() -> (port: u32)
    ensures
        port == DEFAULT_PORT,
{
    DEFAULT_PORT
}

/// Looks a variable up in an environment.
pub fn variable<'a>(env: &'a Vec<(String, String)>, name: &str) -> (value: Option<&'a String>)
    ensures
        match value {
            Some(v) => env_value(env.deep_view(), name@) == Some(v@),
            None => env_value(env.deep_view(), name@) is None,
        },
{
    let wanted = name.to_owned();
    let ghost model = env.deep_view();
    let mut i: usize = 0;
    assert(model.skip(0) =~= model);
    while i < env.len()
        invariant
            0 <= i <= env.len(),
            model == env.deep_view(),
            wanted@ == name@,
            env_value(model, name@) == env_value(model.skip(i as int), name@),
        decreases env.len() - i,
    {
        if env[i].0 == wanted {
            return Some(&env[i].1);
        }
        assert(model.skip(i as int).drop_first() =~= model.skip(i as int + 1));
        i += 1;
    }
    None
}

/// Tells whether an environment leaves a variable to its default.
pub fn takes_default(env: &Vec<(String, String)>, name: &str) -> (unset: bool)
    ensures
        unset == leaves_default(env.deep_view(), name@),
{
    match variable(env, name) {
        Some(value) => value.as_str().is_empty(),
        None => true,
    }
}

/// Derives the configuration from an environment, given as pairs of name and
/// value. A variable that is not set, or set to nothing, leaves its default in
/// place; a `PORT` that is set to anything but an unsigned integer is an
/// error.
pub fn resolve_config(env: &Vec<(String, String)>) -> (resolved: Result<Config, ConfigError>)
    ensures
        match resolved {
            Ok(config) => {
                &&& config.host@ == resolved_host(env.deep_view())
                &&& resolved_port(env.deep_view()) == Ok::<u32, Seq<char>>(config.port)
                &&& config.wf()
            },
            Err(error) => resolved_port(env.deep_view()) == Err::<u32, Seq<char>>(error.value@),
        },
{
    let port = match variable(env, PORT_VARIABLE) {
        Some(text) => {
            if text.as_str().is_empty() {
                default_port()
            } else {
                match parse_u32(text.as_str()) {
                    Some(port) => port,
                    None => {
                        return Err(ConfigError { value: text.clone() });
                    },
                }
            }
        },
        None => default_port(),
    };
    let host = match variable(env, HOST_VARIABLE) {
        Some(text) => {
            if text.as_str().is_empty() {
                default_host()
            } else {
                text.clone()
            }
        },
        None => default_host(),
    };
    proof {
        reveal_strlit("0.0.0.0");
    }
    Ok(Config { host, port })
}

} // verus!
