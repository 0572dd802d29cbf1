//! The service's configuration, assembled once at start from the
//! environment and never changed afterwards.

use crate::decimal::append_decimal;
use crate::decimal::decimal_text;
use crate::decimal::port_of;
use crate::env::lookup;
use crate::env::read_port;
use crate::env::read_secret;
use crate::env::read_switch;
use crate::env::read_text;
use crate::env::set_value;
use crate::env::port_setting;
use crate::env::switch_setting;
use crate::env::text_setting;
use crate::env::EnvModel;
use crate::error::ConfigError;
use crate::secret::SecretText;
use vstd::prelude::*;

verus! {

/// How to reach the database.
#[derive(Debug)]
pub struct DatabaseConfig {
    pub host: String,
    pub username: String,
    pub password: SecretText,
    pub port: u16,
    pub name: String,
    pub use_ssl: bool,
}

/// Whether a connection to the database must be encrypted.
#[derive(Clone, Copy, Debug, PartialEq, Eq, Structural)]
pub enum SslMode {
    /// Encrypt where the server offers it.
    Prefer,
    /// Refuse to connect without encryption.
    Require,
}

/// What a database connection is opened with.
#[derive(Debug)]
pub struct ConnectOptions {
    pub host: String,
    pub username: String,
    pub password: SecretText,
    pub port: u16,
    pub ssl_mode: SslMode,
    /// The database to open; `None` connects to the server alone.
    pub database: Option<String>,
}

/// A `DatabaseConfig` as specifications see it.
pub struct DatabaseConfigView {
    pub host: Seq<char>,
    pub username: Seq<char>,
    pub password: Seq<char>,
    pub port: u16,
    pub name: Seq<char>,
    pub use_ssl: bool,
}

/// A `ConnectOptions` as specifications see it.
pub struct ConnectOptionsView {
    pub host: Seq<char>,
    pub username: Seq<char>,
    pub password: Seq<char>,
    pub port: u16,
    pub ssl_mode: SslMode,
    pub database: Option<Seq<char>>,
}

impl View for DatabaseConfig {
    type V = DatabaseConfigView;

    open spec fn view(&self) -> DatabaseConfigView {
        DatabaseConfigView {
            host: self.host@,
            username: self.username@,
            password: self.password@,
            port: self.port,
            name: self.name@,
            use_ssl: self.use_ssl,
        }
    }
}

impl View for ConnectOptions {
    type V = ConnectOptionsView;

    open spec fn view(&self) -> ConnectOptionsView {
        ConnectOptionsView {
            host: self.host@,
            username: self.username@,
            password: self.password@,
            port: self.port,
            ssl_mode: self.ssl_mode,
            database: match self.database {
                Some(name) => Some(name@),
                None => None,
            },
        }
    }
}

impl DatabaseConfigView {
    /// Whether `env` yields a database configuration: `POSTGRES_PORT` is
    /// unset or a port number.
    pub open spec fn accepts(env: EnvModel) -> bool {
        port_setting(env, "POSTGRES_PORT"@, 5432) is Some
    }

    /// The database configuration that `env` yields.
    pub open spec fn from_env(env: EnvModel) -> DatabaseConfigView {
        DatabaseConfigView {
            host: text_setting(env, "POSTGRES_HOST"@, "127.0.0.1"@),
            username: text_setting(env, "POSTGRES_USER"@, "postgres"@),
            password: text_setting(env, "POSTGRES_PASSWORD"@, "password"@),
            port: port_setting(env, "POSTGRES_PORT"@, 5432)->0,
            name: text_setting(env, "POSTGRES_DB"@, "ls"@),
            use_ssl: switch_setting(env, "POSTGRES_SSL"@),
        }
    }

    /// The options for a connection to the server alone.
    pub open spec fn without_db(self) -> ConnectOptionsView {
        ConnectOptionsView {
            host: self.host,
            username: self.username,
            password: self.password,
            port: self.port,
            ssl_mode: if self.use_ssl {
                SslMode::Require
            } else {
                SslMode::Prefer
            },
            database: None,
        }
    }

    /// The options for a connection to the configured database.
    pub open spec fn with_db(self) -> ConnectOptionsView {
        ConnectOptionsView { database: Some(self.name), ..self.without_db() }
    }
}

impl Clone for DatabaseConfig {
    fn clone(&self) -> (copy: DatabaseConfig)
        ensures
            copy@ == self@,
    {
        DatabaseConfig {
            host: self.host.clone(),
            username: self.username.clone(),
            password: self.password.clone(),
            port: self.port,
            name: self.name.clone(),
            use_ssl: self.use_ssl,
        }
    }
}

impl DatabaseConfig {
    /// Assembles the database configuration from the environment. Text in
    /// `POSTGRES_PORT` that is not a port number is never replaced by the
    /// default: such an environment is outside this function's domain, and
    /// `try_new` reports it.
    pub fn new(vars: &Vec<(String, String)>) -> (config: DatabaseConfig)
        requires
            DatabaseConfigView::accepts(vars.deep_view()),
        ensures
            config@ == DatabaseConfigView::from_env(vars.deep_view()),
    {
        let port = read_port(vars, "POSTGRES_PORT", 5432).unwrap();
        DatabaseConfig {
            host: read_text(vars, "POSTGRES_HOST", "127.0.0.1"),
            username: read_text(vars, "POSTGRES_USER", "postgres"),
            password: read_secret(vars, "POSTGRES_PASSWORD", "password"),
            port: port,
            name: read_text(vars, "POSTGRES_DB", "ls"),
            use_ssl: read_switch(vars, "POSTGRES_SSL"),
        }
    }

    /// Assembles the database configuration from any environment, or says
    /// that `POSTGRES_PORT` holds text that is not a port number.
    pub fn try_new(vars: &Vec<(String, String)>) -> (outcome: Result<DatabaseConfig, ConfigError>)
        ensures
            match outcome {
                Ok(config) => DatabaseConfigView::accepts(vars.deep_view()) && config@
                    == DatabaseConfigView::from_env(vars.deep_view()),
                Err(error) => {
                    &&& !DatabaseConfigView::accepts(vars.deep_view())
                    &&& error matches ConfigError::InvalidDatabasePort(text)
                    &&& set_value(vars.deep_view(), "POSTGRES_PORT"@) == Some(text@)
                },
            },
    {
        match read_port(vars, "POSTGRES_PORT", 5432) {
            Ok(_) => Ok(DatabaseConfig::new(vars)),
            Err(text) => Err(ConfigError::InvalidDatabasePort(text)),
        }
    }

    /// The options for a connection to the server alone: encryption is
    /// required where `use_ssl` is set and preferred where it is not.
    pub fn without_db(&self) -> (options: ConnectOptions)
        ensures
            options@ == self@.without_db(),
    {
        let ssl_mode = if self.use_ssl {
            SslMode::Require
        } else {
            SslMode::Prefer
        };
        ConnectOptions {
            host: self.host.clone(),
            username: self.username.clone(),
            password: self.password.clone(),
            port: self.port,
            ssl_mode: ssl_mode,
            database: None,
        }
    }

    /// The options of `without_db`, with the configured database named.
    pub fn with_db(&self) -> (options: ConnectOptions)
        ensures
            options@ == self@.with_db(),
    {
        let mut options = self.without_db();
        options.database = Some(self.name.clone());
        options
    }
}

/// Everything the service is configured with.
#[derive(Debug)]
pub struct Config {
    pub log_level: String,
    pub api_client_id: String,
    pub api_client_secret: SecretText,
    pub node_id: String,
    pub client_base_url: String,
    pub api_port: u16,
    pub plaid_base_url: String,
    pub plaid_client_id: SecretText,
    pub plaid_client_secret: SecretText,
    pub db_config: DatabaseConfig,
}

/// A `Config` as specifications see it.
pub struct ConfigView {
    pub log_level: Seq<char>,
    pub api_client_id: Seq<char>,
    pub api_client_secret: Seq<char>,
    pub node_id: Seq<char>,
    pub client_base_url: Seq<char>,
    pub api_port: u16,
    pub plaid_base_url: Seq<char>,
    pub plaid_client_id: Seq<char>,
    pub plaid_client_secret: Seq<char>,
    pub db_config: DatabaseConfigView,
}

impl View for Config {
    type V = ConfigView;

    open spec fn view(&self) -> ConfigView {
        ConfigView {
            log_level: self.log_level@,
            api_client_id: self.api_client_id@,
            api_client_secret: self.api_client_secret@,
            node_id: self.node_id@,
            client_base_url: self.client_base_url@,
            api_port: self.api_port,
            plaid_base_url: self.plaid_base_url@,
            plaid_client_id: self.plaid_client_id@,
            plaid_client_secret: self.plaid_client_secret@,
            db_config: self.db_config@,
        }
    }
}

impl ConfigView {
    /// Whether `env` yields a configuration: each of `POSTGRES_PORT` and
    /// `LIGHTSPARK_API_PORT` is unset or a port number.
    pub open spec fn accepts(env: EnvModel) -> bool {
        DatabaseConfigView::accepts(env) && port_setting(env, "LIGHTSPARK_API_PORT"@, 8080) is Some
    }

    /// The configuration that `env` yields.
    pub open spec fn from_env(env: EnvModel) -> ConfigView {
        ConfigView {
            log_level: text_setting(env, "LOG_LEVEL"@, Seq::empty()),
            api_client_id: text_setting(env, "LIGHTSPARK_API_CLIENT_ID"@, Seq::empty()),
            api_client_secret: text_setting(env, "LIGHTSPARK_API_CLIENT_SECRET"@, Seq::empty()),
            node_id: text_setting(env, "LIGHTSPARK_NODE_ID"@, Seq::empty()),
            client_base_url: text_setting(env, "LIGHTSPARK_API_ENDPOINT"@, Seq::empty()),
            api_port: port_setting(env, "LIGHTSPARK_API_PORT"@, 8080)->0,
            plaid_base_url: text_setting(env, "PLAID_BASE_URL"@, Seq::empty()),
            plaid_client_id: text_setting(env, "PLAID_CLIENT_ID"@, Seq::empty()),
            plaid_client_secret: text_setting(env, "PLAID_CLIENT_SECRET"@, Seq::empty()),
            db_config: DatabaseConfigView::from_env(env),
        }
    }
}

impl Clone for Config {
    fn clone(&self) -> (copy: Config)
        ensures
            copy@ == self@,
    {
        Config {
            log_level: self.log_level.clone(),
            api_client_id: self.api_client_id.clone(),
            api_client_secret: self.api_client_secret.clone(),
            node_id: self.node_id.clone(),
            client_base_url: self.client_base_url.clone(),
            api_port: self.api_port,
            plaid_base_url: self.plaid_base_url.clone(),
            plaid_client_id: self.plaid_client_id.clone(),
            plaid_client_secret: self.plaid_client_secret.clone(),
            db_config: self.db_config.clone(),
        }
    }
}

impl Config {
    /// Assembles the configuration from the environment: every field comes
    /// from its variable where that is set, and from its default where it is
    /// not. Text in a port variable that is not a port number is never
    /// replaced by the default: such an environment is outside this
    /// function's domain, and `try_new_from_env` reports it.
    pub fn new_from_env(vars: &Vec<(String, String)>) -> (config: Config)
        requires
            ConfigView::accepts(vars.deep_view()),
        ensures
            config@ == ConfigView::from_env(vars.deep_view()),
    {
        proof {
            reveal_strlit("");
            assert(""@ =~= Seq::<char>::empty());
        }
        let db_config = DatabaseConfig::new(vars);
        let api_port = read_port(vars, "LIGHTSPARK_API_PORT", 8080).unwrap();
        Config {
            log_level: read_text(vars, "LOG_LEVEL", ""),
            api_client_id: read_text(vars, "LIGHTSPARK_API_CLIENT_ID", ""),
            api_client_secret: read_secret(vars, "LIGHTSPARK_API_CLIENT_SECRET", ""),
            node_id: read_text(vars, "LIGHTSPARK_NODE_ID", ""),
            client_base_url: read_text(vars, "LIGHTSPARK_API_ENDPOINT", ""),
            api_port: api_port,
            plaid_base_url: read_text(vars, "PLAID_BASE_URL", ""),
            plaid_client_id: read_secret(vars, "PLAID_CLIENT_ID", ""),
            plaid_client_secret: read_secret(vars, "PLAID_CLIENT_SECRET", ""),
            db_config: db_config,
        }
    }

    /// Assembles the configuration from any environment, or names the port
    /// variable that holds text which is not a port number. Where both do,
    /// the database port is the one reported.
    pub fn try_new_from_env(vars: &Vec<(String, String)>) -> (outcome: Result<Config, ConfigError>)
        ensures
            match outcome {
                Ok(config) => ConfigView::accepts(vars.deep_view()) && config@
                    == ConfigView::from_env(vars.deep_view()),
                Err(ConfigError::InvalidDatabasePort(text)) => {
                    &&& !DatabaseConfigView::accepts(vars.deep_view())
                    &&& set_value(vars.deep_view(), "POSTGRES_PORT"@) == Some(text@)
                },
                Err(ConfigError::InvalidApiPort(text)) => {
                    &&& DatabaseConfigView::accepts(vars.deep_view())
                    &&& !ConfigView::accepts(vars.deep_view())
                    &&& set_value(vars.deep_view(), "LIGHTSPARK_API_PORT"@) == Some(text@)
                },
            },
    {
        match read_port(vars, "POSTGRES_PORT", 5432) {
            Ok(_) => match read_port(vars, "LIGHTSPARK_API_PORT", 8080) {
                Ok(_) => Ok(Config::new_from_env(vars)),
                Err(text) => Err(ConfigError::InvalidApiPort(text)),
            },
            Err(text) => Err(ConfigError::InvalidDatabasePort(text)),
        }
    }
}

/// What stands in a summary where a secret would be.
pub open spec fn redacted() -> Seq<char> {
    "[REDACTED]"@
}

impl DatabaseConfigView {
    /// The line that describes the database configuration in a log.
    pub open spec fn summary(self) -> Seq<char> {
        "host="@ + self.host + " port="@ + decimal_text(self.port as nat) + " username="@
            + self.username + " password="@ + redacted() + " name="@ + self.name + " use_ssl="@ + (
        if self.use_ssl {
            "true"@
        } else {
            "false"@
        })
    }
}

impl ConfigView {
    /// The line that describes the configuration in a log.
    pub open spec fn summary(self) -> Seq<char> {
        "log_level="@ + self.log_level + " api_client_id="@ + self.api_client_id
            + " api_client_secret="@ + redacted() + " node_id="@ + self.node_id
            + " client_base_url="@ + self.client_base_url + " api_port="@ + decimal_text(
            self.api_port as nat,
        ) + " plaid_base_url="@ + self.plaid_base_url + " plaid_client_id="@ + redacted()
            + " plaid_client_secret="@ + redacted() + " db_config: "@ + self.db_config.summary()
    }
}

impl DatabaseConfig {
    /// Describes the database configuration for the log. The password is not
    /// read: `[REDACTED]` stands in its place.
    pub fn summary(&self) -> (line: String)
        ensures
            line@ == self@.summary(),
    {
        let mut line = "host=".to_owned();
        line.append(self.host.as_str());
        line.append(" port=");
        append_decimal(&mut line, self.port);
        line.append(" username=");
        line.append(self.username.as_str());
        line.append(" password=");
        line.append("[REDACTED]");
        line.append(" name=");
        line.append(self.name.as_str());
        line.append(" use_ssl=");
        if self.use_ssl {
            line.append("true");
        } else {
            line.append("false");
        }
        line
    }
}

impl Config {
    /// Describes the configuration for the log. No secret is read:
    /// `[REDACTED]` stands in the place of each.
    pub fn summary(&self) -> (line: String)
        ensures
            line@ == self@.summary(),
    {
        let mut line = "log_level=".to_owned();
        line.append(self.log_level.as_str());
        line.append(" api_client_id=");
        line.append(self.api_client_id.as_str());
        line.append(" api_client_secret=");
        line.append("[REDACTED]");
        line.append(" node_id=");
        line.append(self.node_id.as_str());
        line.append(" client_base_url=");
        line.append(self.client_base_url.as_str());
        line.append(" api_port=");
        append_decimal(&mut line, self.api_port);
        line.append(" plaid_base_url=");
        line.append(self.plaid_base_url.as_str());
        line.append(" plaid_client_id=");
        line.append("[REDACTED]");
        line.append(" plaid_client_secret=");
        line.append("[REDACTED]");
        line.append(" db_config: ");
        let database = self.db_config.summary();
        line.append(database.as_str());
        line
    }
}

/// The summary of a configuration does not depend on its secrets: whatever
/// texts take the place of the node-operator secret, the aggregator client
/// id and secret and the database password, the line stays the same.
pub proof fn lemma_summary_hides_secrets(
    config: ConfigView,
    api_client_secret: Seq<char>,
    plaid_client_id: Seq<char>,
    plaid_client_secret: Seq<char>,
    password: Seq<char>,
)
    ensures
        (ConfigView {
            api_client_secret: api_client_secret,
            plaid_client_id: plaid_client_id,
            plaid_client_secret: plaid_client_secret,
            db_config: DatabaseConfigView { password: password, ..config.db_config },
            ..config
        }).summary() == config.summary(),
{
}

/// A variable that the environment does not name leaves its field at the
/// documented default, and an environment that names neither port variable
/// is accepted.
pub proof fn lemma_omitted_variables_give_defaults(env: EnvModel)
    ensures
        lookup(env, "LOG_LEVEL"@) is None ==> ConfigView::from_env(env).log_level == Seq::<
            char,
        >::empty(),
        lookup(env, "LIGHTSPARK_API_ENDPOINT"@) is None ==> ConfigView::from_env(
            env,
        ).client_base_url == Seq::<char>::empty(),
        lookup(env, "LIGHTSPARK_API_PORT"@) is None ==> ConfigView::from_env(env).api_port == 8080,
        lookup(env, "LIGHTSPARK_API_CLIENT_ID"@) is None ==> ConfigView::from_env(
            env,
        ).api_client_id == Seq::<char>::empty(),
        lookup(env, "LIGHTSPARK_API_CLIENT_SECRET"@) is None ==> ConfigView::from_env(
            env,
        ).api_client_secret == Seq::<char>::empty(),
        lookup(env, "LIGHTSPARK_NODE_ID"@) is None ==> ConfigView::from_env(env).node_id == Seq::<
            char,
        >::empty(),
        lookup(env, "PLAID_BASE_URL"@) is None ==> ConfigView::from_env(env).plaid_base_url
            == Seq::<char>::empty(),
        lookup(env, "PLAID_CLIENT_ID"@) is None ==> ConfigView::from_env(env).plaid_client_id
            == Seq::<char>::empty(),
        lookup(env, "PLAID_CLIENT_SECRET"@) is None ==> ConfigView::from_env(
            env,
        ).plaid_client_secret == Seq::<char>::empty(),
        lookup(env, "POSTGRES_HOST"@) is None ==> ConfigView::from_env(env).db_config.host
            == "127.0.0.1"@,
        lookup(env, "POSTGRES_USER"@) is None ==> ConfigView::from_env(env).db_config.username
            == "postgres"@,
        lookup(env, "POSTGRES_PASSWORD"@) is None ==> ConfigView::from_env(env).db_config.password
            == "password"@,
        lookup(env, "POSTGRES_PORT"@) is None ==> ConfigView::from_env(env).db_config.port == 5432,
        lookup(env, "POSTGRES_DB"@) is None ==> ConfigView::from_env(env).db_config.name == "ls"@,
        lookup(env, "POSTGRES_SSL"@) is None ==> ConfigView::from_env(env).db_config.use_ssl
            == false,
        lookup(env, "POSTGRES_PORT"@) is None && lookup(env, "LIGHTSPARK_API_PORT"@) is None
            ==> ConfigView::accepts(env),
{
}

/// A port variable that is set to text which is not a port number is never
/// papered over with the default: no configuration comes of such an
/// environment.
pub proof fn lemma_malformed_port_is_rejected(env: EnvModel, name: Seq<char>, text: Seq<char>)
    requires
        name == "POSTGRES_PORT"@ || name == "LIGHTSPARK_API_PORT"@,
        lookup(env, name) == Some(text),
        text.len() > 0,
        port_of(text) is None,
    ensures
        !ConfigView::accepts(env),
{
}

} // verus!
