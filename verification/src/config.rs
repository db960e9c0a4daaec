//! The configuration of the bridge, and the database connection that it asks
//! for.
use std::str::FromStr;
use sqlx::postgres::PgSslMode;
use vstd::prelude::*;

verus! {

/// Configuration file
pub struct File {
    /// Homeserver configuration
    pub homeserver: Homeserver,
    /// Bridge configuration
    pub bridge: Bridge,
}

/// Homeserver configuration
#[derive(Debug, PartialEq, Eq)]
pub struct Homeserver {
    /// URL to homeserver, for example `https://matrix.chir.rs/`
    pub address: String,
    /// Domain name of homeserver, for example `chir.rs`
    pub domain: String,
    /// Supported MSCs
    pub mscs: Vec<u16>,
}

/// Database options for postgresql
pub struct DBOptions {
    /// Hostname of the database
    pub host: Option<String>,
    /// Port of the database
    pub port: Option<u16>,
    /// Socket path of the database
    pub socket: Option<String>,
    /// Username of the database
    pub user: Option<String>,
    /// Password of the database
    pub password: Option<String>,
    /// Database name
    pub database: Option<String>,
    /// The ssl mode to use
    pub sslmode: Option<String>,
    /// The path to the CA certificate the ssl is checked against
    pub sslrootcert: Option<String>,
    /// Capacity of the statement cache
    pub statement_cache_capacity: Option<usize>,
    /// Application name
    pub application_name: Option<String>,
    /// Extra float digits
    pub extra_float_digits: Option<i8>,
    /// Additional options, by name
    pub options: Vec<(String, String)>,
}

/// Bridge Configuration
pub struct Bridge {
    /// Addresses to listen on
    pub listen_address: Vec<String>,
    /// Port to listen on
    pub port: u16,
    /// Bridge URL
    pub bridge_url: String,
    /// Bridge username prefix
    pub prefix: String,
    /// Database options
    pub db: DBOptions,
}

impl Default for DBOptions {
    /// Options that leave every setting to the database driver.
    fn default() -> (options: DBOptions)
        ensures
            options.host is None,
            options.port is None,
            options.socket is None,
            options.user is None,
            options.password is None,
            options.database is None,
            options.sslmode is None,
            options.sslrootcert is None,
            options.statement_cache_capacity is None,
            options.application_name is None,
            options.extra_float_digits is None,
            options.options@.len() == 0,
    {
        DBOptions {
            host: None,
            port: None,
            socket: None,
            user: None,
            password: None,
            database: None,
            sslmode: None,
            sslrootcert: None,
            statement_cache_capacity: None,
            application_name: None,
            extra_float_digits: None,
            options: Vec::new(),
        }
    }
}

/// The level of protection of a database connection.
#[derive(Clone, Copy, Debug, PartialEq, Eq, Structural)]
pub enum SslMode {
    Disable,
    Allow,
    Prefer,
    Require,
    VerifyCa,
    VerifyFull,
}

/// The lower case of an ASCII capital; every other character is itself.
pub open spec fn ascii_lower(c: char) -> char {
    if 'A' <= c && c <= 'Z' {
        ((c as u32) + 32) as char
    } else {
        c
    }
}

/// The text with each ASCII capital in lower case.
pub open spec fn ascii_lowercase(text: Seq<char>) -> Seq<char> {
    text.map_values(|c: char| ascii_lower(c))
}

/// The mode that a text names, whatever the case of its letters.
pub open spec fn ssl_mode_of(text: Seq<char>) -> Option<SslMode> {
    let lower = ascii_lowercase(text);
    if lower == "disable"@ {
        Some(SslMode::Disable)
    } else if lower == "allow"@ {
        Some(SslMode::Allow)
    } else if lower == "prefer"@ {
        Some(SslMode::Prefer)
    } else if lower == "require"@ {
        Some(SslMode::Require)
    } else if lower == "verify-ca"@ {
        Some(SslMode::VerifyCa)
    } else if lower == "verify-full"@ {
        Some(SslMode::VerifyFull)
    } else {
        None
    }
}

/// Calls `PgSslMode::from_str` of sqlx and hands back the mode that it read:
/// one of the six names of a mode, in any case of its letters, gives that
/// mode, and every other text is refused.
#[verifier::external_body]
fn parse_ssl_mode(text: &str) -> (mode: Option<SslMode>)
    ensures
        mode == ssl_mode_of(text@),
{
    match PgSslMode::from_str(text) {
        Ok(PgSslMode::Disable) => Some(SslMode::Disable),
        Ok(PgSslMode::Allow) => Some(SslMode::Allow),
        Ok(PgSslMode::Prefer) => Some(SslMode::Prefer),
        Ok(PgSslMode::Require) => Some(SslMode::Require),
        Ok(PgSslMode::VerifyCa) => Some(SslMode::VerifyCa),
        Ok(PgSslMode::VerifyFull) => Some(SslMode::VerifyFull),
        Err(_) => None,
    }
}

/// One setting of a database connection.
#[derive(Debug, PartialEq, Eq)]
pub enum ConnectSetting<'a> {
    Host(&'a String),
    Port(u16),
    Socket(&'a String),
    Username(&'a String),
    Password(&'a String),
    Database(&'a String),
    SslMode(SslMode),
    SslRootCert(&'a String),
    StatementCacheCapacity(usize),
    ApplicationName(&'a String),
    ExtraFloatDigits(i8),
    Options(&'a Vec<(String, String)>),
    /// Statements are logged at the debug level.
    LogStatements,
}

/// The setting, where one is wanted.
pub open spec fn setting<'a>(wanted: Option<ConnectSetting<'a>>) -> Seq<ConnectSetting<'a>> {
    match wanted {
        Some(s) => seq![s],
        None => Seq::empty(),
    }
}

/// Appends the setting, where one is wanted.
fn push_setting<'a>(settings: &mut Vec<ConnectSetting<'a>>, wanted: Option<ConnectSetting<'a>>)
    ensures
        final(settings)@ == old(settings)@ + setting(wanted),
{
    match wanted {
        Some(s) => {
            settings.push(s);
            assert(settings@ =~= old(settings)@ + setting(wanted));
        },
        None => {
            assert(settings@ =~= old(settings)@ + setting(wanted));
        },
    }
}

impl DBOptions {
    /// The mode that the configuration names: none where it names none, and
    /// none where the name is not that of a mode.
    pub open spec fn ssl_mode(&self) -> Option<SslMode> {
        match self.sslmode {
            Some(text) => ssl_mode_of(text@),
            None => None,
        }
    }

    /// The setting of the host.
    pub open spec fn host_setting(&self) -> Seq<ConnectSetting<'_>> {
        setting(
            match self.host {
                Some(host) => Some(ConnectSetting::Host(&host)),
                None => None,
            },
        )
    }

    /// The setting of the port.
    pub open spec fn port_setting(&self) -> Seq<ConnectSetting<'_>> {
        setting(
            match self.port {
                Some(port) => Some(ConnectSetting::Port(port)),
                None => None,
            },
        )
    }

    /// The setting of the socket.
    pub open spec fn socket_setting(&self) -> Seq<ConnectSetting<'_>> {
        setting(
            match self.socket {
                Some(socket) => Some(ConnectSetting::Socket(&socket)),
                None => None,
            },
        )
    }

    /// The setting of the user name.
    pub open spec fn user_setting(&self) -> Seq<ConnectSetting<'_>> {
        setting(
            match self.user {
                Some(user) => Some(ConnectSetting::Username(&user)),
                None => None,
            },
        )
    }

    /// The setting of the password.
    pub open spec fn password_setting(&self) -> Seq<ConnectSetting<'_>> {
        setting(
            match self.password {
                Some(password) => Some(ConnectSetting::Password(&password)),
                None => None,
            },
        )
    }

    /// The setting of the database name.
    pub open spec fn database_setting(&self) -> Seq<ConnectSetting<'_>> {
        setting(
            match self.database {
                Some(database) => Some(ConnectSetting::Database(&database)),
                None => None,
            },
        )
    }

    /// The setting of the mode: none where the text names no mode.
    pub open spec fn ssl_mode_setting(&self) -> Seq<ConnectSetting<'_>> {
        setting(
            match self.ssl_mode() {
                Some(mode) => Some(ConnectSetting::SslMode(mode)),
                None => None,
            },
        )
    }

    /// The setting of the CA certificate.
    pub open spec fn ssl_root_cert_setting(&self) -> Seq<ConnectSetting<'_>> {
        setting(
            match self.sslrootcert {
                Some(path) => Some(ConnectSetting::SslRootCert(&path)),
                None => None,
            },
        )
    }

    /// The setting of the statement cache.
    pub open spec fn statement_cache_setting(&self) -> Seq<ConnectSetting<'_>> {
        setting(
            match self.statement_cache_capacity {
                Some(capacity) => Some(ConnectSetting::StatementCacheCapacity(capacity)),
                None => None,
            },
        )
    }

    /// The setting of the application name.
    pub open spec fn application_name_setting(&self) -> Seq<ConnectSetting<'_>> {
        setting(
            match self.application_name {
                Some(name) => Some(ConnectSetting::ApplicationName(&name)),
                None => None,
            },
        )
    }

    /// The setting of the extra float digits.
    pub open spec fn extra_float_digits_setting(&self) -> Seq<ConnectSetting<'_>> {
        setting(
            match self.extra_float_digits {
                Some(digits) => Some(ConnectSetting::ExtraFloatDigits(digits)),
                None => None,
            },
        )
    }

    /// The settings that the configuration asks for, in the order in which
    /// they are made: each value that is there gives its setting, the mode
    /// only where the text names one; the additional options and the logging
    /// of statements are set in any case.
    pub open spec fn settings(&self) -> Seq<ConnectSetting<'_>> {
        self.host_setting() + self.port_setting() + self.socket_setting() + self.user_setting()
            + self.password_setting() + self.database_setting() + self.ssl_mode_setting()
            + self.ssl_root_cert_setting() + self.statement_cache_setting()
            + self.application_name_setting() + self.extra_float_digits_setting()
            + seq![ConnectSetting::Options(&self.options), ConnectSetting::LogStatements]
    }

    /// The mode that the configuration names.
    pub fn get_ssl_mode(&self) -> (mode: Option<SslMode>)
        ensures
            mode == self.ssl_mode(),
    {
        match &self.sslmode {
            Some(text) => parse_ssl_mode(text.as_str()),
            None => None,
        }
    }

    /// The settings of the database connection that the configuration asks
    /// for, in the order in which they are made.
    pub fn get_connect_options(&self) -> (settings: Vec<ConnectSetting<'_>>)
        ensures
            settings@ == self.settings(),
    {
        let mut settings: Vec<ConnectSetting<'_>> = Vec::new();
        assert(settings@ + self.host_setting() =~= self.host_setting());
        push_setting(
            &mut settings,
            match &self.host {
                Some(host) => Some(ConnectSetting::Host(host)),
                None => None,
            },
        );
        push_setting(
            &mut settings,
            match self.port {
                Some(port) => Some(ConnectSetting::Port(port)),
                None => None,
            },
        );
        push_setting(
            &mut settings,
            match &self.socket {
                Some(socket) => Some(ConnectSetting::Socket(socket)),
                None => None,
            },
        );
        push_setting(
            &mut settings,
            match &self.user {
                Some(user) => Some(ConnectSetting::Username(user)),
                None => None,
            },
        );
        push_setting(
            &mut settings,
            match &self.password {
                Some(password) => Some(ConnectSetting::Password(password)),
                None => None,
            },
        );
        push_setting(
            &mut settings,
            match &self.database {
                Some(database) => Some(ConnectSetting::Database(database)),
                None => None,
            },
        );
        push_setting(
            &mut settings,
            match self.get_ssl_mode() {
                Some(mode) => Some(ConnectSetting::SslMode(mode)),
                None => None,
            },
        );
        push_setting(
            &mut settings,
            match &self.sslrootcert {
                Some(path) => Some(ConnectSetting::SslRootCert(path)),
                None => None,
            },
        );
        push_setting(
            &mut settings,
            match self.statement_cache_capacity {
                Some(capacity) => Some(ConnectSetting::StatementCacheCapacity(capacity)),
                None => None,
            },
        );
        push_setting(
            &mut settings,
            match &self.application_name {
                Some(name) => Some(ConnectSetting::ApplicationName(name)),
                None => None,
            },
        );
        push_setting(
            &mut settings,
            match self.extra_float_digits {
                Some(digits) => Some(ConnectSetting::ExtraFloatDigits(digits)),
                None => None,
            },
        );
        let ghost optional = settings@;
        settings.push(ConnectSetting::Options(&self.options));
        settings.push(ConnectSetting::LogStatements);
        assert(settings@ =~= optional + seq![
            ConnectSetting::Options(&self.options),
            ConnectSetting::LogStatements,
        ]);
        settings
    }
}

} // verus!
