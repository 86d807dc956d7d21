//! Settings of a connection pool, taken from a connection string.

use crate::error::RpelError;
use crate::option_str;
use tokio_postgres::config::Host;
use vstd::prelude::*;

verus! {

/// What a connection string says, as far as the settings of a pool take it
/// over.
#[derive(Clone, Debug, PartialEq)]
pub struct ConnInfo {
    pub user: Option<String>,
    pub password: Option<Vec<u8>>,
    pub dbname: Option<String>,
    pub options: Option<String>,
    pub application_name: Option<String>,
    /// The hosts in the order of the string, each by its name or by the path
    /// of its socket.
    pub hosts: Vec<String>,
    /// The ports in the order of the string.
    pub ports: Vec<u16>,
}

/// The mathematical content of a [`ConnInfo`].
pub struct ConnInfoView {
    pub user: Option<Seq<char>>,
    pub password: Option<Seq<u8>>,
    pub dbname: Option<Seq<char>>,
    pub options: Option<Seq<char>>,
    pub application_name: Option<Seq<char>>,
    pub hosts: Seq<Seq<char>>,
    pub ports: Seq<u16>,
}

/// The characters of a string, if there is one.
pub open spec fn text_view(text: Option<String>) -> Option<Seq<char>> {
    match text {
        Some(t) => Some(t@),
        None => None,
    }
}

impl View for ConnInfo {
    type V = ConnInfoView;

    open spec fn view(&self) -> ConnInfoView {
        ConnInfoView {
            user: text_view(self.user),
            password: match self.password {
                Some(p) => Some(p@),
                None => None,
            },
            dbname: text_view(self.dbname),
            options: text_view(self.options),
            application_name: text_view(self.application_name),
            hosts: Seq::new(self.hosts@.len(), |i: int| self.hosts@[i]@),
            ports: self.ports@,
        }
    }
}

/// The settings of a connection pool.
#[derive(Clone, Debug, PartialEq)]
pub struct Settings {
    pub user: Option<String>,
    pub password: Option<String>,
    pub dbname: Option<String>,
    pub options: Option<String>,
    pub application_name: Option<String>,
    pub host: Option<String>,
    pub port: Option<u16>,
}

/// What the connection string `text` says, or `None` if it is not a
/// connection string: the result of `tokio_postgres::Config::from_str`, read
/// through the getters of the configuration.
pub uninterp spec fn parsed(text: Seq<char>) -> Option<ConnInfoView>;

/// The text that `String::from_utf8_lossy` makes of `bytes`.
pub uninterp spec fn lossy_text(bytes: Seq<u8>) -> Seq<char>;

/// Parses a connection string with `tokio_postgres::Config::from_str`, which
/// takes the key-value form and the URL form, and reads the user, the
/// password, the database, the options, the application name, the hosts and
/// the ports from the configuration with its getters. The parser looks at
/// nothing but the string, so the outcome is a function of the string; a
/// host given by the path of its socket is told from a host name on Unix
/// only, and is handed on as text.
#[verifier::external_body]
fn parse_conninfo(text: &str) -> (r: Result<ConnInfo, tokio_postgres::Error>)
    ensures
        match r {
            Ok(info) => parsed(text@) == Some(info@),
            Err(_) => parsed(text@) is None,
        },
{
    let c = text.parse::<tokio_postgres::Config>()?;
    let host = |h: &Host| match h {
        Host::Tcp(name) => name.clone(),
        Host::Unix(path) => path.to_string_lossy().into_owned(),
    };
    Ok(ConnInfo {
        user: c.get_user().map(str::to_owned),
        password: c.get_password().map(<[u8]>::to_vec),
        dbname: c.get_dbname().map(str::to_owned),
        options: c.get_options().map(str::to_owned),
        application_name: c.get_application_name().map(str::to_owned),
        hosts: c.get_hosts().iter().map(host).collect(),
        ports: c.get_ports().to_vec(),
    })
}

/// Bytes as text, by `String::from_utf8_lossy`: valid UTF-8 is kept, and what
/// is not is replaced as std documents.
#[verifier::external_body]
fn utf8_lossy(bytes: &Vec<u8>) -> (text: String)
    ensures
        text@ == lossy_text(bytes@),
{
    String::from_utf8_lossy(bytes).into_owned()
}

fn as_opt_str(text: &Option<String>) -> (r: Option<&str>)
    ensures
        text_view(*text) == match r {
            Some(s) => Some(s@),
            None => None,
        },
{
    match text {
        Some(t) => Some(t.as_str()),
        None => None,
    }
}

impl Settings {
    /// Whether these are the settings that the connection string with the
    /// content `info` asks for: what it says of the user, the database, the
    /// options and the application name, its password as text, and the
    /// first of its hosts and of its ports.
    pub open spec fn follows(self, info: ConnInfoView) -> bool {
        &&& text_view(self.user) == info.user
        &&& text_view(self.password) == match info.password {
            Some(p) => Some(lossy_text(p)),
            None => None,
        }
        &&& text_view(self.dbname) == info.dbname
        &&& text_view(self.options) == info.options
        &&& text_view(self.application_name) == info.application_name
        &&& text_view(self.host) == if info.hosts.len() > 0 {
            Some(info.hosts[0])
        } else {
            None
        }
        &&& self.port == if info.ports.len() > 0 {
            Some(info.ports[0])
        } else {
            None
        }
    }

    /// The settings that a connection string with the content `info` asks
    /// for.
    pub fn from_conninfo(info: &ConnInfo) -> (settings: Settings)
        ensures
            settings.follows(info@),
    {
        let password = match &info.password {
            Some(p) => Some(utf8_lossy(p)),
            None => None,
        };
        let host = if info.hosts.len() > 0 {
            Some(info.hosts[0].clone())
        } else {
            None
        };
        let port = if info.ports.len() > 0 {
            Some(info.ports[0])
        } else {
            None
        };
        Settings {
            user: option_str(as_opt_str(&info.user)),
            password,
            dbname: option_str(as_opt_str(&info.dbname)),
            options: option_str(as_opt_str(&info.options)),
            application_name: option_str(as_opt_str(&info.application_name)),
            host,
            port,
        }
    }
}

/// The settings of a pool for the connection string `pg_cfg`. A string that
/// is not a connection string is refused with the driver's error.
pub fn get_config(pg_cfg: &str) -> (r: Result<Settings, RpelError>)
    ensures
        match parsed(pg_cfg@) {
            Some(info) => r matches Ok(settings) && settings.follows(info),
            None => r matches Err(RpelError::DBQuery(_)),
        },
{
    match parse_conninfo(pg_cfg) {
        Ok(info) => Ok(Settings::from_conninfo(&info)),
        Err(e) => Err(RpelError::from(e)),
    }
}

} // verus!
