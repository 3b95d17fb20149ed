//! The run's configuration and the errors that end a run before or while it
//! builds its requests.

use crate::text::count_of;
use crate::text::parse_count;
use vstd::prelude::*;

verus! {

/// A fatal fault in what the run was given.
#[derive(Clone, Debug, PartialEq, Eq)]
pub enum ConfigError {
    /// No base URL was given.
    MissingUrl,
    /// No repeat count was given.
    MissingCount,
    /// The repeat count, held here as given, is not a number that fits.
    InvalidCount(String),
    /// The base URL joined with a target, held here, is not a well-formed URL.
    InvalidUrl(String),
}

/// A configuration error as contracts see it.
pub enum ConfigErrorView {
    MissingUrl,
    MissingCount,
    InvalidCount(Seq<char>),
    InvalidUrl(Seq<char>),
}

impl View for ConfigError {
    type V = ConfigErrorView;

    open spec fn view(&self) -> ConfigErrorView {
        match self {
            ConfigError::MissingUrl => ConfigErrorView::MissingUrl,
            ConfigError::MissingCount => ConfigErrorView::MissingCount,
            ConfigError::InvalidCount(text) => ConfigErrorView::InvalidCount(text@),
            ConfigError::InvalidUrl(url) => ConfigErrorView::InvalidUrl(url@),
        }
    }
}

/// The line that describes an error to the user.
pub open spec fn error_text(error: ConfigErrorView) -> Seq<char> {
    match error {
        ConfigErrorView::MissingUrl => "missing argument: url"@,
        ConfigErrorView::MissingCount => "missing argument: count"@,
        ConfigErrorView::InvalidCount(text) => "invalid count: "@ + text,
        ConfigErrorView::InvalidUrl(url) => "invalid URL: "@ + url,
    }
}

impl ConfigError {
    /// The line that describes this error to the user.
    pub fn message(&self) -> (line: String)
        ensures
            line@ == error_text(self@),
    {
        match self {
            ConfigError::MissingUrl => String::from_str("missing argument: url"),
            ConfigError::MissingCount => String::from_str("missing argument: count"),
            ConfigError::InvalidCount(text) => {
                let mut line = String::from_str("invalid count: ");
                line.append(text.as_str());
                line
            },
            ConfigError::InvalidUrl(url) => {
                let mut line = String::from_str("invalid URL: ");
                line.append(url.as_str());
                line
            },
        }
    }

    /// A copy of this error.
    pub fn duplicate(&self) -> (copy: ConfigError)
        ensures
            copy@ == self@,
    {
        match self {
            ConfigError::MissingUrl => ConfigError::MissingUrl,
            ConfigError::MissingCount => ConfigError::MissingCount,
            ConfigError::InvalidCount(text) => ConfigError::InvalidCount(text.clone()),
            ConfigError::InvalidUrl(url) => ConfigError::InvalidUrl(url.clone()),
        }
    }
}

/// What a run is given besides its targets: the URL that every target is
/// appended to, and how many attempts each target gets.
#[derive(Clone, Debug, PartialEq, Eq)]
pub struct RunConfiguration {
    base_url: String,
    count: u32,
}

/// A configuration as contracts see it.
pub struct RunConfigurationView {
    pub base_url: Seq<char>,
    pub count: u32,
}

impl View for RunConfiguration {
    type V = RunConfigurationView;

    closed spec fn view(&self) -> RunConfigurationView {
        RunConfigurationView { base_url: self.base_url@, count: self.count }
    }
}

/// The configuration that the two arguments give, or why they give none.
/// A missing URL is reported before anything is said of the count.
pub open spec fn configuration_of(url: Option<Seq<char>>, count: Option<Seq<char>>) -> Result<
    RunConfigurationView,
    ConfigErrorView,
> {
    match url {
        None => Err(ConfigErrorView::MissingUrl),
        Some(base_url) => match count {
            None => Err(ConfigErrorView::MissingCount),
            Some(text) => match count_of(text) {
                None => Err(ConfigErrorView::InvalidCount(text)),
                Some(n) => Ok(RunConfigurationView { base_url, count: n }),
            },
        },
    }
}

/// The views of an optional text.
pub open spec fn text_view(text: Option<String>) -> Option<Seq<char>> {
    match text {
        None => None,
        Some(s) => Some(s@),
    }
}

/// The views of a configuration or of the error in its place.
pub open spec fn configured_view(r: Result<RunConfiguration, ConfigError>) -> Result<
    RunConfigurationView,
    ConfigErrorView,
> {
    match r {
        Ok(config) => Ok(config@),
        Err(error) => Err(error@),
    }
}

impl RunConfiguration {
    /// A configuration with the given base URL and repeat count.
    pub fn new(base_url: String, count: u32) -> (config: Self)
        ensures
            config@ == (RunConfigurationView { base_url: base_url@, count }),
    {
        RunConfiguration { base_url, count }
    }

    /// Builds the configuration from the two positional arguments as they
    /// were given, each absent or a text.
    pub fn from_args(url: Option<String>, count: Option<String>) -> (config: Result<
        Self,
        ConfigError,
    >)
        ensures
            configured_view(config) == configuration_of(text_view(url), text_view(count)),
    {
        match url {
            None => Err(ConfigError::MissingUrl),
            Some(base_url) => match count {
                None => Err(ConfigError::MissingCount),
                Some(text) => match parse_count(text.as_str()) {
                    None => Err(ConfigError::InvalidCount(text)),
                    Some(n) => Ok(RunConfiguration { base_url, count: n }),
                },
            },
        }
    }

    /// The URL that every target is appended to.
    pub fn base_url(&self) -> (url: &str)
        ensures
            url@ == self@.base_url,
    {
        self.base_url.as_str()
    }

    /// How many attempts each target gets.
    pub fn count(&self) -> (n: u32)
        ensures
            n == self@.count,
    {
        self.count
    }
}

} // verus!
