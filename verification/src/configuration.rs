use crate::text::{
    ascii_lowercase, decimal, is_ascii_seq, lemma_decimal_reads_back, lowercase, numeral_value,
    push_char, push_decimal, to_lowercase,
};
use std::convert::TryFrom;
use vstd::prelude::*;
use vstd::std_specs::convert::TryFromSpecImpl;

verus! {

/// The application's settings.
#[derive(Debug)]
pub struct Settings {
    pub application: ApplicationSetting,
    pub database: DatabaseSetting,
}

/// Where the web server listens, where uploads go, and the secrets it runs with.
#[derive(Debug)]
pub struct ApplicationSetting {
    pub host: String,
    pub port: u16,
    pub upload_path: String,
    pub hmac_secret: String,
    pub redis_uri: String,
}

/// How to reach the database.
#[derive(Debug)]
pub struct DatabaseSetting {
    pub username: String,
    pub host: String,
    pub port: u16,
    pub password: String,
    pub database_name: String,
    pub require_ssl: bool,
}

/// The `host:port` form of an address.
pub open spec fn address(host: Seq<char>, port: u16) -> Seq<char> {
    host.push(':') + decimal(port as nat)
}

/// An address is the host, then a colon, then decimal digits with no leading zero that
/// read back as the port.
pub proof fn lemma_address_parts(host: Seq<char>, port: u16)
    ensures
        ({
            let a = address(host, port);
            let digits = a.subrange(host.len() as int + 1, a.len() as int);
            &&& a.len() > host.len() + 1
            &&& a.subrange(0, host.len() as int) == host
            &&& a[host.len() as int] == ':'
            &&& numeral_value(digits) == port
            &&& forall|i: int| 0 <= i < digits.len() ==> '0' <= #[trigger] digits[i] <= '9'
            &&& (digits[0] == '0' ==> port == 0)
        }),
{
    lemma_decimal_reads_back(port as nat);
    let a = address(host, port);
    assert(a.subrange(0, host.len() as int) =~= host);
    assert(a.subrange(host.len() as int + 1, a.len() as int) =~= decimal(port as nat));
}

impl Settings {
    /// The address the server binds to: the host, a colon, and the port in decimal.
    pub fn application_address(&self) -> (res: String)
        ensures
            res@ == address(self.application.host@, self.application.port),
            res@.subrange(0, self.application.host@.len() as int) == self.application.host@,
            res@[self.application.host@.len() as int] == ':',
            numeral_value(res@.subrange(self.application.host@.len() as int + 1, res@.len() as int))
                == self.application.port,
    {
        let mut res = self.application.host.clone();
        push_char(&mut res, ':');
        push_decimal(&mut res, self.application.port);
        proof {
            lemma_address_parts(self.application.host@, self.application.port);
        }
        res
    }
}

/// Whether the database connection must use TLS or only prefers it.
#[derive(Debug, Clone, Copy, PartialEq, Eq, Structural)]
pub enum SslMode {
    Require,
    Prefer,
}

/// The connection parameters that the settings fix; `database` is `None` when the
/// settings leave the database to the connection library's defaults.
#[derive(Debug)]
pub struct ConnectOptions {
    pub host: String,
    pub username: String,
    pub password: String,
    pub port: u16,
    pub ssl_mode: SslMode,
    pub database: Option<String>,
}

impl DatabaseSetting {
    /// TLS is required exactly when the settings say so; otherwise it is preferred.
    pub fn ssl_mode(&self) -> (m: SslMode)
        ensures
            m == (if self.require_ssl { SslMode::Require } else { SslMode::Prefer }),
    {
        match self.require_ssl {
            true => SslMode::Require,
            false => SslMode::Prefer,
        }
    }

    /// The connection parameters for the database server, naming no database.
    pub fn connection_without_db(&self) -> (o: ConnectOptions)
        ensures
            o.host@ == self.host@,
            o.username@ == self.username@,
            o.password@ == self.password@,
            o.port == self.port,
            o.ssl_mode == (if self.require_ssl { SslMode::Require } else { SslMode::Prefer }),
            o.database is None,
    {
        ConnectOptions {
            host: self.host.clone(),
            username: self.username.clone(),
            password: self.password.clone(),
            port: self.port,
            ssl_mode: self.ssl_mode(),
            database: None,
        }
    }

    /// The connection parameters for the application's own database.
    pub fn connection_with_db(&self) -> (o: ConnectOptions)
        ensures
            o.host@ == self.host@,
            o.username@ == self.username@,
            o.password@ == self.password@,
            o.port == self.port,
            o.ssl_mode == (if self.require_ssl { SslMode::Require } else { SslMode::Prefer }),
            o.database matches Some(d) && d@ == self.database_name@,
    {
        let mut o = self.connection_without_db();
        o.database = Some(self.database_name.clone());
        o
    }
}

/// The deployment environment, which picks the settings file to load.
#[derive(Debug, Clone, Copy, PartialEq, Eq, Structural)]
pub enum Environment {
    Local,
    Production,
}

pub open spec fn environment_name(e: Environment) -> Seq<char> {
    match e {
        Environment::Local => "local"@,
        Environment::Production => "production"@,
    }
}

/// What `Environment::try_from` gives for `s`, with the text of the refusal left out:
/// the lower-cased name decides.
pub open spec fn environment_from(s: Seq<char>) -> Option<Environment> {
    if lowercase(s) == "production"@ {
        Some(Environment::Production)
    } else if lowercase(s) == "local"@ {
        Some(Environment::Local)
    } else {
        None
    }
}

/// How an ASCII name is read: the ASCII lower-cased name decides.
pub open spec fn environment_from_ascii(s: Seq<char>) -> Option<Environment> {
    if ascii_lowercase(s) == "production"@ {
        Some(Environment::Production)
    } else if ascii_lowercase(s) == "local"@ {
        Some(Environment::Local)
    } else {
        None
    }
}

/// An environment's name reads back as that environment, in any case that keeps it
/// ASCII: `try_from` undoes `as_string`.
pub proof fn lemma_environment_name_round_trip(e: Environment)
    ensures
        is_ascii_seq(environment_name(e)),
        environment_from_ascii(environment_name(e)) == Some(e),
{
    reveal_strlit("local");
    reveal_strlit("production");
    let n = environment_name(e);
    assert(ascii_lowercase(n) =~= n);
    if e == Environment::Local {
        assert("local"@ != "production"@) by {
            assert("local"@.len() != "production"@.len());
        }
    }
}

/// The message with which an unknown environment name is refused.
pub open spec fn invalid_environment_message(s: Seq<char>) -> Seq<char> {
    s + " is an invalid environment, please use 'production' or 'local'"@
}

impl Environment {
    /// The environment's name, which is also the name of its settings file.
    pub fn as_string(&self) -> (s: String)
        ensures
            s@ == environment_name(*self),
    {
        match self {
            Self::Local => "local".to_owned(),
            Self::Production => "production".to_owned(),
        }
    }
}

impl TryFrom<String> for Environment {
    type Error = String;

    /// Reads an environment name, whatever its case.
    fn try_from(s: String) -> (res: Result<Self, Self::Error>)
        ensures
            match environment_from(s@) {
                Some(e) => res == Ok::<Environment, String>(e),
                None => res matches Err(m) && m@ == invalid_environment_message(s@),
            },
            is_ascii_seq(s@) ==> environment_from(s@) == environment_from_ascii(s@),
    {
        let lower = to_lowercase(s.as_str());
        if lower == "production".to_owned() {
            Ok(Self::Production)
        } else if lower == "local".to_owned() {
            Ok(Self::Local)
        } else {
            let mut msg = s.clone();
            msg.append(" is an invalid environment, please use 'production' or 'local'");
            Err(msg)
        }
    }
}

/// The generic `TryFrom` contract is not claimed (`obeys_try_from_spec` is false): the
/// refusal carries a message that no spec value can spell out, so the exact result is
/// stated on `try_from` itself.
impl TryFromSpecImpl<String> for Environment {
    open spec fn obeys_try_from_spec() -> bool {
        false
    }

    open spec fn try_from_spec(v: String) -> Result<Self, Self::Error> {
        match environment_from(v@) {
            Some(e) => Ok(e),
            None => Err(arbitrary()),
        }
    }
}

} // verus!
