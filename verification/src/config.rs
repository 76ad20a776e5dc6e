//! The configuration of the backend: one explicit value, built once at
//! start-up and handed to the components that need it.
//!
//! Each section knows its defaults and how to list itself. Secrets are never
//! listed: their lines show `***` whatever the value.

use crate::settings::{flag_or, flag_setting, number_or, number_setting, text_or, text_setting};
use crate::text::{
    decimal, decimal_text, entry, entry_text, flag, flag_text, lemma_texts_add, push_line, texts,
};
use vstd::prelude::*;

verus! {

/// What stands in a listing in place of a secret.
pub open spec fn masked() -> Seq<char> {
    "***"@
}

/// The line that opens the listing of a configuration.
pub open spec fn banner_begin() -> Seq<char> {
    "########## CONFIGURATION BEGIN ##########"@
}

/// The line that closes the listing of a configuration.
pub open spec fn banner_end() -> Seq<char> {
    "########## CONFIGURATION END ##########"@
}

/// Credentials and the public face of the application.
pub struct AppConfig {
    /// Name of the signing algorithm of credentials.
    pub jwt_algo: String,
    /// The signing key of credentials.
    pub jwt_key: String,
    /// How long a credential is valid, in seconds.
    pub jwt_expiry_secs: u64,
    /// The domain that outbound mail is sent from.
    pub domain: String,
    /// How many posts a recommendation holds.
    pub recommended_posts_len: usize,
}

/// Outbound mail and email verification.
pub struct EmailConfig {
    pub smtp_host: String,
    pub smtp_port: u16,
    pub smtp_user: String,
    pub smtp_password: String,
    /// How many characters a verification code has.
    pub verify_token_len: usize,
    /// How long a verification code can be redeemed, in seconds.
    pub verify_expiry_secs: u64,
}

/// The listening socket.
pub struct ServerConfig {
    pub early_exit: bool,
    pub host: String,
    pub port: u16,
    pub timeout_secs: u64,
}

/// What a log line shows.
pub struct LoggerConfig {
    pub level: String,
    pub thread_ids: bool,
    pub files: bool,
    pub ansi: bool,
    pub thread_names: bool,
    pub target: bool,
    pub line_number: bool,
    pub timestamp: bool,
}

/// The task runtime, and the period of the sweep of stale challenges.
pub struct RuntimeConfig {
    pub workers: usize,
    pub stack_size: usize,
    pub global_queue_interval: u32,
    pub event_interval: u32,
    pub max_io_events_per_tick: usize,
    pub max_blocking_threads: usize,
    /// Time between two sweeps, in milliseconds.
    pub cleanup_period_millis: u64,
}

/// The connection to the record store.
pub struct DatabaseConfig {
    pub url: String,
    pub database: String,
    pub namespace: String,
    pub user: String,
    pub pass: String,
    pub session_expiry_secs: u64,
}

/// The whole configuration.
pub struct Config {
    pub app: AppConfig,
    pub email: EmailConfig,
    pub server: ServerConfig,
    pub logger: LoggerConfig,
    pub runtime: RuntimeConfig,
    pub database: DatabaseConfig,
}

impl AppConfig {
    /// The settings that hold where nothing else is configured.
    pub open spec fn is_default(self) -> bool {
        &&& self.jwt_algo@ == "HS256"@
        &&& self.jwt_key@ == "a-string-secret-at-least-256-bits-long"@
        &&& self.jwt_expiry_secs == 1209600
        &&& self.domain@ == "localhost"@
        &&& self.recommended_posts_len == 10
    }

    /// Whether the section is what the variables of the environment say: each
    /// setting the value of its variable, or the default where the variable is
    /// not set.
    pub open spec fn loaded_from(self, vars: Seq<(String, String)>) -> bool {
        &&& self.jwt_algo@ == text_or(vars, "JWT_ALGO"@, "HS256"@)
        &&& self.jwt_key@ == text_or(vars, "JWT_KEY"@, "a-string-secret-at-least-256-bits-long"@)
        &&& Some(self.jwt_expiry_secs as nat) == number_or(vars, "JWT_EXPIRY_SECS"@, 1209600, u64::MAX as nat)
        &&& self.domain@ == text_or(vars, "DOMAIN"@, "localhost"@)
        &&& Some(self.recommended_posts_len as nat) == number_or(vars, "RECOMMENDED_POSTS_LEN"@, 10, usize::MAX as nat)
    }

    /// The first variable of the section, in the order of the listing, that is
    /// set to something that is not a value of its setting.
    pub open spec fn malformed(vars: Seq<(String, String)>) -> Option<Seq<char>> {
        if number_or(vars, "JWT_EXPIRY_SECS"@, 1209600, u64::MAX as nat) is None {
            Some("JWT_EXPIRY_SECS"@)
        } else if number_or(vars, "RECOMMENDED_POSTS_LEN"@, 10, usize::MAX as nat) is None {
            Some("RECOMMENDED_POSTS_LEN"@)
        } else {
            None
        }
    }

    /// Reads the section from the variables of the environment. Fails with the
    /// name of the first variable that is set to something that is not a value
    /// of its setting.
    pub fn load(vars: &Vec<(String, String)>) -> (result: Result<AppConfig, String>)
        ensures
            match result {
                Ok(config) => Self::malformed(vars@) is None && config.loaded_from(vars@),
                Err(name) => Self::malformed(vars@) == Some(name@),
            },
    {
        let jwt_expiry_secs = number_setting(vars, "JWT_EXPIRY_SECS", 1209600, u64::MAX as u64)?;
        let recommended_posts_len = number_setting(vars, "RECOMMENDED_POSTS_LEN", 10, usize::MAX as u64)?;
        Ok(
            AppConfig {
                jwt_algo: text_setting(vars, "JWT_ALGO", "HS256".to_owned()),
                jwt_key: text_setting(vars, "JWT_KEY", "a-string-secret-at-least-256-bits-long".to_owned()),
                jwt_expiry_secs,
                domain: text_setting(vars, "DOMAIN", "localhost".to_owned()),
                recommended_posts_len: recommended_posts_len as usize,
            },
        )
    }

    /// The lines that list this section.
    pub open spec fn info_text(self) -> Seq<Seq<char>> {
        seq![
            entry_text("JWT_ALGO"@, self.jwt_algo@),
            entry_text("JWT_KEY"@, masked()),
            entry_text("JWT_EXPIRY_SECS"@, decimal(self.jwt_expiry_secs as nat)),
            entry_text("DOMAIN"@, self.domain@),
            entry_text("RECOMMENDED_POSTS_LEN"@, decimal(self.recommended_posts_len as nat)),
        ]
    }

    /// Lists this section, one setting a line, the key masked.
    pub fn info(&self) -> (lines: Vec<String>)
        ensures
            texts(lines@) == self.info_text(),
    {
        let mut lines: Vec<String> = Vec::new();
        push_line(&mut lines, entry("JWT_ALGO", self.jwt_algo.as_str()));
        push_line(&mut lines, entry("JWT_KEY", "***"));
        push_line(&mut lines, entry("JWT_EXPIRY_SECS", decimal_text(self.jwt_expiry_secs).as_str()));
        push_line(&mut lines, entry("DOMAIN", self.domain.as_str()));
        push_line(
            &mut lines,
            entry("RECOMMENDED_POSTS_LEN", decimal_text(self.recommended_posts_len as u64).as_str()),
        );
        assert(texts(lines@) =~= self.info_text());
        lines
    }
}

impl Default for AppConfig {
    fn default() -> (config: AppConfig)
        ensures
            config.is_default(),
    {
        AppConfig {
            jwt_algo: "HS256".to_owned(),
            jwt_key: "a-string-secret-at-least-256-bits-long".to_owned(),
            jwt_expiry_secs: 1209600,
            domain: "localhost".to_owned(),
            recommended_posts_len: 10,
        }
    }
}

impl EmailConfig {
    /// The settings that hold where nothing else is configured.
    pub open spec fn is_default(self) -> bool {
        &&& self.smtp_host@ == ""@
        &&& self.smtp_port == 25
        &&& self.smtp_user@ == ""@
        &&& self.smtp_password@ == ""@
        &&& self.verify_token_len == 6
        &&& self.verify_expiry_secs == 300
    }

    /// Whether the section is what the variables of the environment say: each
    /// setting the value of its variable, or the default where the variable is
    /// not set.
    pub open spec fn loaded_from(self, vars: Seq<(String, String)>) -> bool {
        &&& self.smtp_host@ == text_or(vars, "EMAIL_SMTP_HOST"@, ""@)
        &&& Some(self.smtp_port as nat) == number_or(vars, "EMAIL_SMTP_PORT"@, 25, u16::MAX as nat)
        &&& self.smtp_user@ == text_or(vars, "EMAIL_SMTP_USER"@, ""@)
        &&& self.smtp_password@ == text_or(vars, "EMAIL_SMTP_PASSWORD"@, ""@)
        &&& Some(self.verify_token_len as nat) == number_or(vars, "EMAIL_VERIFY_TOKEN_LEN"@, 6, usize::MAX as nat)
        &&& Some(self.verify_expiry_secs as nat) == number_or(vars, "EMAIL_VERIFY_EXPIRY_SECS"@, 300, u64::MAX as nat)
    }

    /// The first variable of the section, in the order of the listing, that is
    /// set to something that is not a value of its setting.
    pub open spec fn malformed(vars: Seq<(String, String)>) -> Option<Seq<char>> {
        if number_or(vars, "EMAIL_SMTP_PORT"@, 25, u16::MAX as nat) is None {
            Some("EMAIL_SMTP_PORT"@)
        } else if number_or(vars, "EMAIL_VERIFY_TOKEN_LEN"@, 6, usize::MAX as nat) is None {
            Some("EMAIL_VERIFY_TOKEN_LEN"@)
        } else if number_or(vars, "EMAIL_VERIFY_EXPIRY_SECS"@, 300, u64::MAX as nat) is None {
            Some("EMAIL_VERIFY_EXPIRY_SECS"@)
        } else {
            None
        }
    }

    /// Reads the section from the variables of the environment. Fails with the
    /// name of the first variable that is set to something that is not a value
    /// of its setting.
    pub fn load(vars: &Vec<(String, String)>) -> (result: Result<EmailConfig, String>)
        ensures
            match result {
                Ok(config) => Self::malformed(vars@) is None && config.loaded_from(vars@),
                Err(name) => Self::malformed(vars@) == Some(name@),
            },
    {
        let smtp_port = number_setting(vars, "EMAIL_SMTP_PORT", 25, u16::MAX as u64)?;
        let verify_token_len = number_setting(vars, "EMAIL_VERIFY_TOKEN_LEN", 6, usize::MAX as u64)?;
        let verify_expiry_secs = number_setting(vars, "EMAIL_VERIFY_EXPIRY_SECS", 300, u64::MAX as u64)?;
        Ok(
            EmailConfig {
                smtp_host: text_setting(vars, "EMAIL_SMTP_HOST", "".to_owned()),
                smtp_port: smtp_port as u16,
                smtp_user: text_setting(vars, "EMAIL_SMTP_USER", "".to_owned()),
                smtp_password: text_setting(vars, "EMAIL_SMTP_PASSWORD", "".to_owned()),
                verify_token_len: verify_token_len as usize,
                verify_expiry_secs,
            },
        )
    }

    /// The lines that list this section.
    pub open spec fn info_text(self) -> Seq<Seq<char>> {
        seq![
            entry_text("EMAIL_SMTP_HOST"@, self.smtp_host@),
            entry_text("EMAIL_SMTP_PORT"@, decimal(self.smtp_port as nat)),
            entry_text("EMAIL_SMTP_USER"@, self.smtp_user@),
            entry_text("EMAIL_SMTP_PASSWORD"@, masked()),
            entry_text("EMAIL_VERIFY_TOKEN_LEN"@, decimal(self.verify_token_len as nat)),
            entry_text("EMAIL_VERIFY_EXPIRY_SECS"@, decimal(self.verify_expiry_secs as nat)),
        ]
    }

    /// Lists this section, one setting a line, the password masked.
    pub fn info(&self) -> (lines: Vec<String>)
        ensures
            texts(lines@) == self.info_text(),
    {
        let mut lines: Vec<String> = Vec::new();
        push_line(&mut lines, entry("EMAIL_SMTP_HOST", self.smtp_host.as_str()));
        push_line(&mut lines, entry("EMAIL_SMTP_PORT", decimal_text(self.smtp_port as u64).as_str()));
        push_line(&mut lines, entry("EMAIL_SMTP_USER", self.smtp_user.as_str()));
        push_line(&mut lines, entry("EMAIL_SMTP_PASSWORD", "***"));
        push_line(
            &mut lines,
            entry("EMAIL_VERIFY_TOKEN_LEN", decimal_text(self.verify_token_len as u64).as_str()),
        );
        push_line(
            &mut lines,
            entry("EMAIL_VERIFY_EXPIRY_SECS", decimal_text(self.verify_expiry_secs).as_str()),
        );
        assert(texts(lines@) =~= self.info_text());
        lines
    }
}

impl Default for EmailConfig {
    fn default() -> (config: EmailConfig)
        ensures
            config.is_default(),
    {
        EmailConfig {
            smtp_host: "".to_owned(),
            smtp_port: 25,
            smtp_user: "".to_owned(),
            smtp_password: "".to_owned(),
            verify_token_len: 6,
            verify_expiry_secs: 300,
        }
    }
}

impl ServerConfig {
    /// The settings that hold where nothing else is configured.
    pub open spec fn is_default(self) -> bool {
        &&& !self.early_exit
        &&& self.host@ == "127.0.0.1"@
        &&& self.port == 50051
        &&& self.timeout_secs == 10
    }

    /// Whether the section is what the variables of the environment say: each
    /// setting the value of its variable, or the default where the variable is
    /// not set.
    pub open spec fn loaded_from(self, vars: Seq<(String, String)>) -> bool {
        &&& Some(self.early_exit) == flag_or(vars, "EARLY_EXIT"@, false)
        &&& self.host@ == text_or(vars, "HOST"@, "127.0.0.1"@)
        &&& Some(self.port as nat) == number_or(vars, "PORT"@, 50051, u16::MAX as nat)
        &&& Some(self.timeout_secs as nat) == number_or(vars, "SERVER_TIMEOUT_SECS"@, 10, u64::MAX as nat)
    }

    /// The first variable of the section, in the order of the listing, that is
    /// set to something that is not a value of its setting.
    pub open spec fn malformed(vars: Seq<(String, String)>) -> Option<Seq<char>> {
        if flag_or(vars, "EARLY_EXIT"@, false) is None {
            Some("EARLY_EXIT"@)
        } else if number_or(vars, "PORT"@, 50051, u16::MAX as nat) is None {
            Some("PORT"@)
        } else if number_or(vars, "SERVER_TIMEOUT_SECS"@, 10, u64::MAX as nat) is None {
            Some("SERVER_TIMEOUT_SECS"@)
        } else {
            None
        }
    }

    /// Reads the section from the variables of the environment. Fails with the
    /// name of the first variable that is set to something that is not a value
    /// of its setting.
    pub fn load(vars: &Vec<(String, String)>) -> (result: Result<ServerConfig, String>)
        ensures
            match result {
                Ok(config) => Self::malformed(vars@) is None && config.loaded_from(vars@),
                Err(name) => Self::malformed(vars@) == Some(name@),
            },
    {
        let early_exit = flag_setting(vars, "EARLY_EXIT", false)?;
        let port = number_setting(vars, "PORT", 50051, u16::MAX as u64)?;
        let timeout_secs = number_setting(vars, "SERVER_TIMEOUT_SECS", 10, u64::MAX as u64)?;
        Ok(
            ServerConfig {
                early_exit,
                host: text_setting(vars, "HOST", "127.0.0.1".to_owned()),
                port: port as u16,
                timeout_secs,
            },
        )
    }

    /// The lines that list this section.
    pub open spec fn info_text(self) -> Seq<Seq<char>> {
        seq![
            entry_text("EARLY_EXIT"@, flag(self.early_exit)),
            entry_text("HOST"@, self.host@),
            entry_text("PORT"@, decimal(self.port as nat)),
            entry_text("SERVER_TIMEOUT_SECS"@, decimal(self.timeout_secs as nat)),
        ]
    }

    /// Lists this section, one setting a line.
    pub fn info(&self) -> (lines: Vec<String>)
        ensures
            texts(lines@) == self.info_text(),
    {
        let mut lines: Vec<String> = Vec::new();
        push_line(&mut lines, entry("EARLY_EXIT", flag_text(self.early_exit)));
        push_line(&mut lines, entry("HOST", self.host.as_str()));
        push_line(&mut lines, entry("PORT", decimal_text(self.port as u64).as_str()));
        push_line(&mut lines, entry("SERVER_TIMEOUT_SECS", decimal_text(self.timeout_secs).as_str()));
        assert(texts(lines@) =~= self.info_text());
        lines
    }
}

impl Default for ServerConfig {
    fn default() -> (config: ServerConfig)
        ensures
            config.is_default(),
    {
        ServerConfig { early_exit: false, host: "127.0.0.1".to_owned(), port: 50051, timeout_secs: 10 }
    }
}

impl LoggerConfig {
    /// The settings that hold where nothing else is configured.
    pub open spec fn is_default(self) -> bool {
        &&& self.level@ == "INFO"@
        &&& !self.thread_ids
        &&& self.files
        &&& self.ansi
        &&& !self.thread_names
        &&& !self.target
        &&& self.line_number
        &&& self.timestamp
    }

    /// Whether the section is what the variables of the environment say: each
    /// setting the value of its variable, or the default where the variable is
    /// not set.
    pub open spec fn loaded_from(self, vars: Seq<(String, String)>) -> bool {
        &&& self.level@ == text_or(vars, "LOG_LEVEL"@, "INFO"@)
        &&& Some(self.thread_ids) == flag_or(vars, "LOG_THREAD_IDS"@, false)
        &&& Some(self.files) == flag_or(vars, "LOG_FILES"@, true)
        &&& Some(self.ansi) == flag_or(vars, "LOG_ANSI"@, true)
        &&& Some(self.thread_names) == flag_or(vars, "LOG_THREAD_NAMES"@, false)
        &&& Some(self.target) == flag_or(vars, "LOG_TARGETS"@, false)
        &&& Some(self.line_number) == flag_or(vars, "LOG_LINE_NUMBER"@, true)
        &&& Some(self.timestamp) == flag_or(vars, "LOG_TIMESTAMP"@, true)
    }

    /// The first variable of the section, in the order of the listing, that is
    /// set to something that is not a value of its setting.
    pub open spec fn malformed(vars: Seq<(String, String)>) -> Option<Seq<char>> {
        if flag_or(vars, "LOG_THREAD_IDS"@, false) is None {
            Some("LOG_THREAD_IDS"@)
        } else if flag_or(vars, "LOG_FILES"@, true) is None {
            Some("LOG_FILES"@)
        } else if flag_or(vars, "LOG_ANSI"@, true) is None {
            Some("LOG_ANSI"@)
        } else if flag_or(vars, "LOG_THREAD_NAMES"@, false) is None {
            Some("LOG_THREAD_NAMES"@)
        } else if flag_or(vars, "LOG_TARGETS"@, false) is None {
            Some("LOG_TARGETS"@)
        } else if flag_or(vars, "LOG_LINE_NUMBER"@, true) is None {
            Some("LOG_LINE_NUMBER"@)
        } else if flag_or(vars, "LOG_TIMESTAMP"@, true) is None {
            Some("LOG_TIMESTAMP"@)
        } else {
            None
        }
    }

    /// Reads the section from the variables of the environment. Fails with the
    /// name of the first variable that is set to something that is not a value
    /// of its setting.
    pub fn load(vars: &Vec<(String, String)>) -> (result: Result<LoggerConfig, String>)
        ensures
            match result {
                Ok(config) => Self::malformed(vars@) is None && config.loaded_from(vars@),
                Err(name) => Self::malformed(vars@) == Some(name@),
            },
    {
        let thread_ids = flag_setting(vars, "LOG_THREAD_IDS", false)?;
        let files = flag_setting(vars, "LOG_FILES", true)?;
        let ansi = flag_setting(vars, "LOG_ANSI", true)?;
        let thread_names = flag_setting(vars, "LOG_THREAD_NAMES", false)?;
        let target = flag_setting(vars, "LOG_TARGETS", false)?;
        let line_number = flag_setting(vars, "LOG_LINE_NUMBER", true)?;
        let timestamp = flag_setting(vars, "LOG_TIMESTAMP", true)?;
        Ok(
            LoggerConfig {
                level: text_setting(vars, "LOG_LEVEL", "INFO".to_owned()),
                thread_ids,
                files,
                ansi,
                thread_names,
                target,
                line_number,
                timestamp,
            },
        )
    }

    /// The lines that list this section.
    pub open spec fn info_text(self) -> Seq<Seq<char>> {
        seq![
            entry_text("LOG_LEVEL"@, self.level@),
            entry_text("LOG_THREAD_IDS"@, flag(self.thread_ids)),
            entry_text("LOG_FILES"@, flag(self.files)),
            entry_text("LOG_ANSI"@, flag(self.ansi)),
            entry_text("LOG_THREAD_NAMES"@, flag(self.thread_names)),
            entry_text("LOG_TARGET"@, flag(self.target)),
            entry_text("LOG_LINE_NUMBER"@, flag(self.line_number)),
            entry_text("LOG_TIMESTAMP"@, flag(self.timestamp)),
        ]
    }

    /// Lists this section, one setting a line.
    pub fn info(&self) -> (lines: Vec<String>)
        ensures
            texts(lines@) == self.info_text(),
    {
        let mut lines: Vec<String> = Vec::new();
        push_line(&mut lines, entry("LOG_LEVEL", self.level.as_str()));
        push_line(&mut lines, entry("LOG_THREAD_IDS", flag_text(self.thread_ids)));
        push_line(&mut lines, entry("LOG_FILES", flag_text(self.files)));
        push_line(&mut lines, entry("LOG_ANSI", flag_text(self.ansi)));
        push_line(&mut lines, entry("LOG_THREAD_NAMES", flag_text(self.thread_names)));
        push_line(&mut lines, entry("LOG_TARGET", flag_text(self.target)));
        push_line(&mut lines, entry("LOG_LINE_NUMBER", flag_text(self.line_number)));
        push_line(&mut lines, entry("LOG_TIMESTAMP", flag_text(self.timestamp)));
        assert(texts(lines@) =~= self.info_text());
        lines
    }
}

impl Default for LoggerConfig {
    fn default() -> (config: LoggerConfig)
        ensures
            config.is_default(),
    {
        LoggerConfig {
            level: "INFO".to_owned(),
            thread_ids: false,
            files: true,
            ansi: true,
            thread_names: false,
            target: false,
            line_number: true,
            timestamp: true,
        }
    }
}

impl RuntimeConfig {
    /// The settings that hold where nothing else is configured.
    pub open spec fn is_default(self) -> bool {
        &&& self.workers == 4
        &&& self.stack_size == 2097152
        &&& self.global_queue_interval == 31
        &&& self.event_interval == 31
        &&& self.max_io_events_per_tick == 1024
        &&& self.max_blocking_threads == 512
        &&& self.cleanup_period_millis == 1000
    }

    /// Whether the section is what the variables of the environment say: each
    /// setting the value of its variable, or the default where the variable is
    /// not set.
    pub open spec fn loaded_from(self, vars: Seq<(String, String)>) -> bool {
        &&& Some(self.workers as nat) == number_or(vars, "RT_WORKERS"@, 4, usize::MAX as nat)
        &&& Some(self.stack_size as nat) == number_or(vars, "RT_STACK_SIZE"@, 2097152, usize::MAX as nat)
        &&& Some(self.global_queue_interval as nat) == number_or(vars, "RT_GLOBAL_QUEUE_INTERVAL"@, 31, u32::MAX as nat)
        &&& Some(self.event_interval as nat) == number_or(vars, "RT_EVENT_INTERVAL"@, 31, u32::MAX as nat)
        &&& Some(self.max_io_events_per_tick as nat) == number_or(vars, "RT_MAX_IO_EVENTS_PER_TICK"@, 1024, usize::MAX as nat)
        &&& Some(self.max_blocking_threads as nat) == number_or(vars, "RT_MAX_BLOCKING_THREADS"@, 512, usize::MAX as nat)
        &&& Some(self.cleanup_period_millis as nat) == number_or(vars, "CLEANUP_PERIOD_MILLIS"@, 1000, u64::MAX as nat)
    }

    /// The first variable of the section, in the order of the listing, that is
    /// set to something that is not a value of its setting.
    pub open spec fn malformed(vars: Seq<(String, String)>) -> Option<Seq<char>> {
        if number_or(vars, "RT_WORKERS"@, 4, usize::MAX as nat) is None {
            Some("RT_WORKERS"@)
        } else if number_or(vars, "RT_STACK_SIZE"@, 2097152, usize::MAX as nat) is None {
            Some("RT_STACK_SIZE"@)
        } else if number_or(vars, "RT_GLOBAL_QUEUE_INTERVAL"@, 31, u32::MAX as nat) is None {
            Some("RT_GLOBAL_QUEUE_INTERVAL"@)
        } else if number_or(vars, "RT_EVENT_INTERVAL"@, 31, u32::MAX as nat) is None {
            Some("RT_EVENT_INTERVAL"@)
        } else if number_or(vars, "RT_MAX_IO_EVENTS_PER_TICK"@, 1024, usize::MAX as nat) is None {
            Some("RT_MAX_IO_EVENTS_PER_TICK"@)
        } else if number_or(vars, "RT_MAX_BLOCKING_THREADS"@, 512, usize::MAX as nat) is None {
            Some("RT_MAX_BLOCKING_THREADS"@)
        } else if number_or(vars, "CLEANUP_PERIOD_MILLIS"@, 1000, u64::MAX as nat) is None {
            Some("CLEANUP_PERIOD_MILLIS"@)
        } else {
            None
        }
    }

    /// Reads the section from the variables of the environment. Fails with the
    /// name of the first variable that is set to something that is not a value
    /// of its setting.
    pub fn load(vars: &Vec<(String, String)>) -> (result: Result<RuntimeConfig, String>)
        ensures
            match result {
                Ok(config) => Self::malformed(vars@) is None && config.loaded_from(vars@),
                Err(name) => Self::malformed(vars@) == Some(name@),
            },
    {
        let workers = number_setting(vars, "RT_WORKERS", 4, usize::MAX as u64)?;
        let stack_size = number_setting(vars, "RT_STACK_SIZE", 2097152, usize::MAX as u64)?;
        let global_queue_interval = number_setting(vars, "RT_GLOBAL_QUEUE_INTERVAL", 31, u32::MAX as u64)?;
        let event_interval = number_setting(vars, "RT_EVENT_INTERVAL", 31, u32::MAX as u64)?;
        let max_io_events_per_tick = number_setting(vars, "RT_MAX_IO_EVENTS_PER_TICK", 1024, usize::MAX as u64)?;
        let max_blocking_threads = number_setting(vars, "RT_MAX_BLOCKING_THREADS", 512, usize::MAX as u64)?;
        let cleanup_period_millis = number_setting(vars, "CLEANUP_PERIOD_MILLIS", 1000, u64::MAX as u64)?;
        Ok(
            RuntimeConfig {
                workers: workers as usize,
                stack_size: stack_size as usize,
                global_queue_interval: global_queue_interval as u32,
                event_interval: event_interval as u32,
                max_io_events_per_tick: max_io_events_per_tick as usize,
                max_blocking_threads: max_blocking_threads as usize,
                cleanup_period_millis,
            },
        )
    }

    /// The lines that list this section.
    pub open spec fn info_text(self) -> Seq<Seq<char>> {
        seq![
            entry_text("RT_WORKERS"@, decimal(self.workers as nat)),
            entry_text("RT_STACK_SIZE"@, decimal(self.stack_size as nat)),
            entry_text("RT_GLOBAL_QUEUE_INTERVAL"@, decimal(self.global_queue_interval as nat)),
            entry_text("RT_EVENT_INTERVAL"@, decimal(self.event_interval as nat)),
            entry_text("RT_MAX_IO_EVENTS_PER_TICK"@, decimal(self.max_io_events_per_tick as nat)),
            entry_text("RT_MAX_BLOCKING_THREADS"@, decimal(self.max_blocking_threads as nat)),
            entry_text("CLEANUP_PERIOD_MILLIS"@, decimal(self.cleanup_period_millis as nat)),
        ]
    }

    /// Lists this section, one setting a line.
    pub fn info(&self) -> (lines: Vec<String>)
        ensures
            texts(lines@) == self.info_text(),
    {
        let mut lines: Vec<String> = Vec::new();
        push_line(&mut lines, entry("RT_WORKERS", decimal_text(self.workers as u64).as_str()));
        push_line(&mut lines, entry("RT_STACK_SIZE", decimal_text(self.stack_size as u64).as_str()));
        push_line(
            &mut lines,
            entry("RT_GLOBAL_QUEUE_INTERVAL", decimal_text(self.global_queue_interval as u64).as_str()),
        );
        push_line(
            &mut lines,
            entry("RT_EVENT_INTERVAL", decimal_text(self.event_interval as u64).as_str()),
        );
        push_line(
            &mut lines,
            entry("RT_MAX_IO_EVENTS_PER_TICK", decimal_text(self.max_io_events_per_tick as u64).as_str()),
        );
        push_line(
            &mut lines,
            entry("RT_MAX_BLOCKING_THREADS", decimal_text(self.max_blocking_threads as u64).as_str()),
        );
        push_line(
            &mut lines,
            entry("CLEANUP_PERIOD_MILLIS", decimal_text(self.cleanup_period_millis).as_str()),
        );
        assert(texts(lines@) =~= self.info_text());
        lines
    }
}

impl Default for RuntimeConfig {
    fn default() -> (config: RuntimeConfig)
        ensures
            config.is_default(),
    {
        RuntimeConfig {
            workers: 4,
            stack_size: 2097152,
            global_queue_interval: 31,
            event_interval: 31,
            max_io_events_per_tick: 1024,
            max_blocking_threads: 512,
            cleanup_period_millis: 1000,
        }
    }
}

impl DatabaseConfig {
    /// The settings that hold where nothing else is configured.
    pub open spec fn is_default(self) -> bool {
        &&& self.url@ == "127.0.0.1:8000"@
        &&& self.database@ == "elysium"@
        &&& self.namespace@ == "elysium"@
        &&& self.user@ == "root"@
        &&& self.pass@ == "root"@
        &&& self.session_expiry_secs == 1209600
    }

    /// Whether the section is what the variables of the environment say: each
    /// setting the value of its variable, or the default where the variable is
    /// not set.
    pub open spec fn loaded_from(self, vars: Seq<(String, String)>) -> bool {
        &&& self.url@ == text_or(vars, "DB_URL"@, "127.0.0.1:8000"@)
        &&& self.database@ == text_or(vars, "DB_DATABASE"@, "elysium"@)
        &&& self.namespace@ == text_or(vars, "DB_NAMESPACE"@, "elysium"@)
        &&& self.user@ == text_or(vars, "DB_USER"@, "root"@)
        &&& self.pass@ == text_or(vars, "DB_PASS"@, "root"@)
        &&& Some(self.session_expiry_secs as nat) == number_or(vars, "DB_SESSION_EXPIRY_SECS"@, 1209600, u64::MAX as nat)
    }

    /// The first variable of the section, in the order of the listing, that is
    /// set to something that is not a value of its setting.
    pub open spec fn malformed(vars: Seq<(String, String)>) -> Option<Seq<char>> {
        if number_or(vars, "DB_SESSION_EXPIRY_SECS"@, 1209600, u64::MAX as nat) is None {
            Some("DB_SESSION_EXPIRY_SECS"@)
        } else {
            None
        }
    }

    /// Reads the section from the variables of the environment. Fails with the
    /// name of the first variable that is set to something that is not a value
    /// of its setting.
    pub fn load(vars: &Vec<(String, String)>) -> (result: Result<DatabaseConfig, String>)
        ensures
            match result {
                Ok(config) => Self::malformed(vars@) is None && config.loaded_from(vars@),
                Err(name) => Self::malformed(vars@) == Some(name@),
            },
    {
        let session_expiry_secs = number_setting(vars, "DB_SESSION_EXPIRY_SECS", 1209600, u64::MAX as u64)?;
        Ok(
            DatabaseConfig {
                url: text_setting(vars, "DB_URL", "127.0.0.1:8000".to_owned()),
                database: text_setting(vars, "DB_DATABASE", "elysium".to_owned()),
                namespace: text_setting(vars, "DB_NAMESPACE", "elysium".to_owned()),
                user: text_setting(vars, "DB_USER", "root".to_owned()),
                pass: text_setting(vars, "DB_PASS", "root".to_owned()),
                session_expiry_secs,
            },
        )
    }

    /// The lines that list this section.
    pub open spec fn info_text(self) -> Seq<Seq<char>> {
        seq![
            entry_text("DB_URL"@, self.url@),
            entry_text("DB_DATABASE"@, self.database@),
            entry_text("DB_NAMESPACE"@, self.namespace@),
            entry_text("DB_USER"@, self.user@),
            entry_text("DB_PASS"@, masked()),
            entry_text("DB_SESSION_EXPIRY_SECS"@, decimal(self.session_expiry_secs as nat)),
        ]
    }

    /// Lists this section, one setting a line, the password masked.
    pub fn info(&self) -> (lines: Vec<String>)
        ensures
            texts(lines@) == self.info_text(),
    {
        let mut lines: Vec<String> = Vec::new();
        push_line(&mut lines, entry("DB_URL", self.url.as_str()));
        push_line(&mut lines, entry("DB_DATABASE", self.database.as_str()));
        push_line(&mut lines, entry("DB_NAMESPACE", self.namespace.as_str()));
        push_line(&mut lines, entry("DB_USER", self.user.as_str()));
        push_line(&mut lines, entry("DB_PASS", "***"));
        push_line(
            &mut lines,
            entry("DB_SESSION_EXPIRY_SECS", decimal_text(self.session_expiry_secs).as_str()),
        );
        assert(texts(lines@) =~= self.info_text());
        lines
    }
}

impl Default for DatabaseConfig {
    fn default() -> (config: DatabaseConfig)
        ensures
            config.is_default(),
    {
        DatabaseConfig {
            url: "127.0.0.1:8000".to_owned(),
            database: "elysium".to_owned(),
            namespace: "elysium".to_owned(),
            user: "root".to_owned(),
            pass: "root".to_owned(),
            session_expiry_secs: 1209600,
        }
    }
}

impl Config {
    /// The settings that hold where nothing else is configured.
    pub open spec fn is_default(self) -> bool {
        &&& self.app.is_default()
        &&& self.email.is_default()
        &&& self.server.is_default()
        &&& self.logger.is_default()
        &&& self.runtime.is_default()
        &&& self.database.is_default()
    }

    /// Whether the configuration is what the variables of the environment say.
    pub open spec fn loaded_from(self, vars: Seq<(String, String)>) -> bool {
        &&& self.app.loaded_from(vars)
        &&& self.email.loaded_from(vars)
        &&& self.server.loaded_from(vars)
        &&& self.logger.loaded_from(vars)
        &&& self.runtime.loaded_from(vars)
        &&& self.database.loaded_from(vars)
    }

    /// The first variable, in the order of the listing, that is set to
    /// something that is not a value of its setting.
    pub open spec fn malformed(vars: Seq<(String, String)>) -> Option<Seq<char>> {
        if AppConfig::malformed(vars) is Some {
            AppConfig::malformed(vars)
        } else if EmailConfig::malformed(vars) is Some {
            EmailConfig::malformed(vars)
        } else if ServerConfig::malformed(vars) is Some {
            ServerConfig::malformed(vars)
        } else if LoggerConfig::malformed(vars) is Some {
            LoggerConfig::malformed(vars)
        } else if RuntimeConfig::malformed(vars) is Some {
            RuntimeConfig::malformed(vars)
        } else {
            DatabaseConfig::malformed(vars)
        }
    }

    /// Reads the configuration from the variables of the environment, each
    /// given by name and value. A variable that is not set leaves its setting
    /// at the default. Fails with the name of the first variable that is set
    /// to something that is not a value of its setting.
    pub fn load(vars: &Vec<(String, String)>) -> (result: Result<Config, String>)
        ensures
            match result {
                Ok(config) => Self::malformed(vars@) is None && config.loaded_from(vars@),
                Err(name) => Self::malformed(vars@) == Some(name@),
            },
    {
        let app = AppConfig::load(vars)?;
        let email = EmailConfig::load(vars)?;
        let server = ServerConfig::load(vars)?;
        let logger = LoggerConfig::load(vars)?;
        let runtime = RuntimeConfig::load(vars)?;
        let database = DatabaseConfig::load(vars)?;
        Ok(Config { app, email, server, logger, runtime, database })
    }

    /// The listing of the whole configuration: the opening banner, the
    /// sections in their order, the closing banner.
    pub open spec fn info_text(self) -> Seq<Seq<char>> {
        seq![banner_begin()] + self.app.info_text() + self.email.info_text()
            + self.server.info_text() + self.logger.info_text() + self.runtime.info_text()
            + self.database.info_text() + seq![banner_end()]
    }
}

impl Default for Config {
    fn default() -> (config: Config)
        ensures
            config.is_default(),
    {
        Config {
            app: AppConfig::default(),
            email: EmailConfig::default(),
            server: ServerConfig::default(),
            logger: LoggerConfig::default(),
            runtime: RuntimeConfig::default(),
            database: DatabaseConfig::default(),
        }
    }
}

fn append_lines(lines: &mut Vec<String>, section: Vec<String>)
    ensures
        texts(final(lines)@) == texts(old(lines)@) + texts(section@),
{
    let mut section = section;
    let ghost added = section@;
    lines.append(&mut section);
    proof {
        lemma_texts_add(old(lines)@, added);
    }
}

/// Lists the configuration for the log: every setting with its value, the
/// three secrets (signing key, mail password, store password) masked.
pub fn config_info(config: &Config) -> (lines: Vec<String>)
    ensures
        texts(lines@) == config.info_text(),
{
    let mut lines: Vec<String> = Vec::new();
    push_line(&mut lines, "########## CONFIGURATION BEGIN ##########".to_owned());
    assert(texts(lines@) =~= seq![banner_begin()]);
    append_lines(&mut lines, config.app.info());
    append_lines(&mut lines, config.email.info());
    append_lines(&mut lines, config.server.info());
    append_lines(&mut lines, config.logger.info());
    append_lines(&mut lines, config.runtime.info());
    append_lines(&mut lines, config.database.info());
    push_line(&mut lines, "########## CONFIGURATION END ##########".to_owned());
    assert(texts(lines@) =~= config.info_text());
    lines
}

/// A configuration read from an environment that sets none of the variables
/// is the default configuration.
pub proof fn lemma_unset_is_default(config: Config)
    requires
        config.loaded_from(Seq::empty()),
    ensures
        config.is_default(),
{
}

} // verus!
