//! Configuration: the directories, file paths, URLs and bind address the
//! core works against. Loading from the environment is the surrounding
//! process's job; it hands the values here as plain strings.

use vstd::prelude::*;
use vstd::string::StrSliceExecFns;
use vstd::string::StringExecFns;

use crate::types::{BaseUrl, DirectoryPath, ResourceType};

verus! {

/// The decimal digit character for `d` in `0..=9`.
pub open spec fn spec_digit_char(d: int) -> char {
    if d == 0 {
        '0'
    } else if d == 1 {
        '1'
    } else if d == 2 {
        '2'
    } else if d == 3 {
        '3'
    } else if d == 4 {
        '4'
    } else if d == 5 {
        '5'
    } else if d == 6 {
        '6'
    } else if d == 7 {
        '7'
    } else if d == 8 {
        '8'
    } else {
        '9'
    }
}

/// The decimal digit string of a non-negative number, most significant
/// digit first, without leading zeros (a lone zero for 0).
pub open spec fn spec_decimal(n: int) -> Seq<char>
    decreases n,
{
    if n <= 9 {
        seq![spec_digit_char(n)]
    } else {
        spec_decimal(n / 10).push(spec_digit_char(n % 10))
    }
}

fn digit_str(d: u16) -> (r: &'static str)
    requires
        d <= 9,
    ensures
        r@ == seq![spec_digit_char(d as int)],
{
    let s = match d {
        0 => "0",
        1 => "1",
        2 => "2",
        3 => "3",
        4 => "4",
        5 => "5",
        6 => "6",
        7 => "7",
        8 => "8",
        _ => "9",
    };
    proof {
        reveal_strlit("0");
        reveal_strlit("1");
        reveal_strlit("2");
        reveal_strlit("3");
        reveal_strlit("4");
        reveal_strlit("5");
        reveal_strlit("6");
        reveal_strlit("7");
        reveal_strlit("8");
        reveal_strlit("9");
        assert(s@ =~= seq![spec_digit_char(d as int)]);
    }
    s
}

/// Appends the decimal digits of `n` to `out`.
fn push_decimal(out: &mut String, n: u16)
    ensures
        final(out)@ == old(out)@ + spec_decimal(n as int),
    decreases n,
{
    if n <= 9 {
        out.append(digit_str(n));
    } else {
        push_decimal(out, n / 10);
        out.append(digit_str(n % 10));
        proof {
            assert(out@ =~= old(out)@ + spec_decimal(n as int));
        }
    }
}

/// Configuration loading and validation errors. Each variant carries a
/// description of what was wrong.
#[derive(Debug)]
pub enum ConfigError {
    /// The port value did not parse as a number.
    InvalidPort(String),
    /// A present but unusable setting.
    InvalidConfiguration(String),
    /// An environment variable could not be read.
    EnvVar(String),
}

/// Application configuration with strongly typed fields.
#[derive(Debug)]
pub struct Config {
    /// Directory of the first family's images.
    pub gary_dir: DirectoryPath,
    /// Directory of the second family's images.
    pub goober_dir: DirectoryPath,
    /// Path to the quotes JSON file.
    pub quotes_file: String,
    /// Path to the jokes JSON file.
    pub jokes_file: String,
    /// Base URL for the first family.
    pub gary_base_url: BaseUrl,
    /// Base URL for the second family.
    pub goober_base_url: BaseUrl,
    /// Server port.
    pub port: u16,
    /// Server bind address.
    pub bind_address: String,
}

impl Clone for Config {
    fn clone(&self) -> (r: Self)
        ensures
            r.gary_dir@ == self.gary_dir@,
            r.goober_dir@ == self.goober_dir@,
            r.quotes_file@ == self.quotes_file@,
            r.jokes_file@ == self.jokes_file@,
            r.gary_base_url@ == self.gary_base_url@,
            r.goober_base_url@ == self.goober_base_url@,
            r.port == self.port,
            r.bind_address@ == self.bind_address@,
    {
        Config {
            gary_dir: self.gary_dir.clone(),
            goober_dir: self.goober_dir.clone(),
            quotes_file: self.quotes_file.clone(),
            jokes_file: self.jokes_file.clone(),
            gary_base_url: self.gary_base_url.clone(),
            goober_base_url: self.goober_base_url.clone(),
            port: self.port,
            bind_address: self.bind_address.clone(),
        }
    }
}

/// The first validation failure message for `c`, or `None` when every
/// setting passes, in the order the checks run.
pub open spec fn spec_validation_failure(c: Config) -> Option<Seq<char>> {
    if c.port == 0 {
        Some("Port cannot be 0"@)
    } else if c.bind_address@.len() == 0 {
        Some("Bind address cannot be empty"@)
    } else if c.gary_dir@.len() == 0 {
        Some("Gary directory cannot be empty"@)
    } else if c.goober_dir@.len() == 0 {
        Some("Goober directory cannot be empty"@)
    } else if c.quotes_file@.len() == 0 {
        Some("Quotes file cannot be empty"@)
    } else if c.jokes_file@.len() == 0 {
        Some("Jokes file cannot be empty"@)
    } else {
        None
    }
}

impl Config {
    /// A configuration from explicit values.
    pub fn new(
        gary_dir: DirectoryPath,
        goober_dir: DirectoryPath,
        quotes_file: String,
        jokes_file: String,
        gary_base_url: BaseUrl,
        goober_base_url: BaseUrl,
        port: u16,
        bind_address: String,
    ) -> (r: Config)
        ensures
            r.gary_dir@ == gary_dir@,
            r.goober_dir@ == goober_dir@,
            r.quotes_file@ == quotes_file@,
            r.jokes_file@ == jokes_file@,
            r.gary_base_url@ == gary_base_url@,
            r.goober_base_url@ == goober_base_url@,
            r.port == port,
            r.bind_address@ == bind_address@,
    {
        Config {
            gary_dir,
            goober_dir,
            quotes_file,
            jokes_file,
            gary_base_url,
            goober_base_url,
            port,
            bind_address,
        }
    }

    /// `"{bind_address}:{port}"`.
    pub fn server_address(&self) -> (r: String)
        ensures
            r@ == self.bind_address@ + ":"@ + spec_decimal(self.port as int),
    {
        let mut out = self.bind_address.clone();
        out.append(":");
        push_decimal(&mut out, self.port);
        proof {
            assert(out@ =~= self.bind_address@ + ":"@ + spec_decimal(self.port as int));
        }
        out
    }

    /// Checks every setting, reporting the first violation in a fixed
    /// order; `Ok` exactly when nothing is empty and the port is non-zero.
    pub fn validate(&self) -> (r: Result<(), ConfigError>)
        ensures
            match r {
                Ok(_) => spec_validation_failure(*self) is None,
                Err(e) => e matches ConfigError::InvalidConfiguration(m) && Some(m@)
                    == spec_validation_failure(*self),
            },
    {
        if self.port == 0 {
            return Err(ConfigError::InvalidConfiguration("Port cannot be 0".to_owned()));
        }
        if self.bind_address.as_str().unicode_len() == 0 {
            return Err(
                ConfigError::InvalidConfiguration("Bind address cannot be empty".to_owned()),
            );
        }
        if self.gary_dir.as_str().unicode_len() == 0 {
            return Err(
                ConfigError::InvalidConfiguration("Gary directory cannot be empty".to_owned()),
            );
        }
        if self.goober_dir.as_str().unicode_len() == 0 {
            return Err(
                ConfigError::InvalidConfiguration("Goober directory cannot be empty".to_owned()),
            );
        }
        if self.quotes_file.as_str().unicode_len() == 0 {
            return Err(ConfigError::InvalidConfiguration("Quotes file cannot be empty".to_owned()));
        }
        if self.jokes_file.as_str().unicode_len() == 0 {
            return Err(ConfigError::InvalidConfiguration("Jokes file cannot be empty".to_owned()));
        }
        Ok(())
    }

    /// The directory configured for one resource family.
    pub fn dir_for(&self, resource: ResourceType) -> (r: &DirectoryPath)
        ensures
            r@ == match resource {
                ResourceType::Gary => self.gary_dir@,
                ResourceType::Goober => self.goober_dir@,
            },
    {
        match resource {
            ResourceType::Gary => &self.gary_dir,
            ResourceType::Goober => &self.goober_dir,
        }
    }

    /// The base URL configured for one resource family.
    pub fn base_url_for(&self, resource: ResourceType) -> (r: &BaseUrl)
        ensures
            r@ == match resource {
                ResourceType::Gary => self.gary_base_url@,
                ResourceType::Goober => self.goober_base_url@,
            },
    {
        match resource {
            ResourceType::Gary => &self.gary_base_url,
            ResourceType::Goober => &self.goober_base_url,
        }
    }
}

impl Default for Config {
    /// The development defaults the original environment loading falls
    /// back to.
    fn default() -> (r: Config)
        ensures
            r.gary_dir@ == "gary_images"@,
            r.goober_dir@ == "goober_images"@,
            r.quotes_file@ == "quotes.json"@,
            r.jokes_file@ == "jokes.json"@,
            r.gary_base_url@ == vstd::utf8::encode_utf8("http://localhost:8080/Gary"@),
            r.goober_base_url@ == vstd::utf8::encode_utf8("http://localhost:8080/Goober"@),
            r.port == 8080,
            r.bind_address@ == "0.0.0.0"@,
    {
        Config::new(
            DirectoryPath::new("gary_images"),
            DirectoryPath::new("goober_images"),
            "quotes.json".to_owned(),
            "jokes.json".to_owned(),
            BaseUrl::new("http://localhost:8080/Gary"),
            BaseUrl::new("http://localhost:8080/Goober"),
            8080,
            "0.0.0.0".to_owned(),
        )
    }
}

/// A builder that fills unset fields from the defaults.
pub struct ConfigBuilder {
    gary_dir: Option<DirectoryPath>,
    goober_dir: Option<DirectoryPath>,
    quotes_file: Option<String>,
    jokes_file: Option<String>,
    gary_base_url: Option<BaseUrl>,
    goober_base_url: Option<BaseUrl>,
    port: Option<u16>,
    bind_address: Option<String>,
}

impl ConfigBuilder {
    pub fn new() -> (r: ConfigBuilder)
        ensures
            r.spec_gary_dir() is None,
            r.spec_goober_dir() is None,
            r.spec_quotes_file() is None,
            r.spec_jokes_file() is None,
            r.spec_gary_base_url() is None,
            r.spec_goober_base_url() is None,
            r.spec_port() is None,
            r.spec_bind_address() is None,
    {
        ConfigBuilder {
            gary_dir: None,
            goober_dir: None,
            quotes_file: None,
            jokes_file: None,
            gary_base_url: None,
            goober_base_url: None,
            port: None,
            bind_address: None,
        }
    }

    /// The pending directory override for the first family, if set.
    pub closed spec fn spec_gary_dir(&self) -> Option<Seq<char>> {
        match self.gary_dir {
            Some(d) => Some(d@),
            None => None,
        }
    }

    /// The pending directory override for the second family, if set.
    pub closed spec fn spec_goober_dir(&self) -> Option<Seq<char>> {
        match self.goober_dir {
            Some(d) => Some(d@),
            None => None,
        }
    }

    /// The pending quotes-file override, if set.
    pub closed spec fn spec_quotes_file(&self) -> Option<Seq<char>> {
        match self.quotes_file {
            Some(f) => Some(f@),
            None => None,
        }
    }

    /// The pending jokes-file override, if set.
    pub closed spec fn spec_jokes_file(&self) -> Option<Seq<char>> {
        match self.jokes_file {
            Some(f) => Some(f@),
            None => None,
        }
    }

    /// The pending base-URL override for the first family, if set.
    pub closed spec fn spec_gary_base_url(&self) -> Option<Seq<u8>> {
        match self.gary_base_url {
            Some(u) => Some(u@),
            None => None,
        }
    }

    /// The pending base-URL override for the second family, if set.
    pub closed spec fn spec_goober_base_url(&self) -> Option<Seq<u8>> {
        match self.goober_base_url {
            Some(u) => Some(u@),
            None => None,
        }
    }

    /// The pending port override, if set.
    pub closed spec fn spec_port(&self) -> Option<u16> {
        self.port
    }

    /// The pending bind-address override, if set.
    pub closed spec fn spec_bind_address(&self) -> Option<Seq<char>> {
        match self.bind_address {
            Some(a) => Some(a@),
            None => None,
        }
    }

    /// True when every field of `r` other than the one named by the caller
    /// carries the same pending value as in `self`. Each setter frames the
    /// seven fields it does not touch with one of these.
    pub open spec fn same_but_gary_dir(&self, r: &ConfigBuilder) -> bool {
        &&& r.spec_goober_dir() == self.spec_goober_dir()
        &&& r.spec_quotes_file() == self.spec_quotes_file()
        &&& r.spec_jokes_file() == self.spec_jokes_file()
        &&& r.spec_gary_base_url() == self.spec_gary_base_url()
        &&& r.spec_goober_base_url() == self.spec_goober_base_url()
        &&& r.spec_port() == self.spec_port()
        &&& r.spec_bind_address() == self.spec_bind_address()
    }

    pub open spec fn same_but_goober_dir(&self, r: &ConfigBuilder) -> bool {
        &&& r.spec_gary_dir() == self.spec_gary_dir()
        &&& r.spec_quotes_file() == self.spec_quotes_file()
        &&& r.spec_jokes_file() == self.spec_jokes_file()
        &&& r.spec_gary_base_url() == self.spec_gary_base_url()
        &&& r.spec_goober_base_url() == self.spec_goober_base_url()
        &&& r.spec_port() == self.spec_port()
        &&& r.spec_bind_address() == self.spec_bind_address()
    }

    pub open spec fn same_but_quotes_file(&self, r: &ConfigBuilder) -> bool {
        &&& r.spec_gary_dir() == self.spec_gary_dir()
        &&& r.spec_goober_dir() == self.spec_goober_dir()
        &&& r.spec_jokes_file() == self.spec_jokes_file()
        &&& r.spec_gary_base_url() == self.spec_gary_base_url()
        &&& r.spec_goober_base_url() == self.spec_goober_base_url()
        &&& r.spec_port() == self.spec_port()
        &&& r.spec_bind_address() == self.spec_bind_address()
    }

    pub open spec fn same_but_jokes_file(&self, r: &ConfigBuilder) -> bool {
        &&& r.spec_gary_dir() == self.spec_gary_dir()
        &&& r.spec_goober_dir() == self.spec_goober_dir()
        &&& r.spec_quotes_file() == self.spec_quotes_file()
        &&& r.spec_gary_base_url() == self.spec_gary_base_url()
        &&& r.spec_goober_base_url() == self.spec_goober_base_url()
        &&& r.spec_port() == self.spec_port()
        &&& r.spec_bind_address() == self.spec_bind_address()
    }

    pub open spec fn same_but_gary_base_url(&self, r: &ConfigBuilder) -> bool {
        &&& r.spec_gary_dir() == self.spec_gary_dir()
        &&& r.spec_goober_dir() == self.spec_goober_dir()
        &&& r.spec_quotes_file() == self.spec_quotes_file()
        &&& r.spec_jokes_file() == self.spec_jokes_file()
        &&& r.spec_goober_base_url() == self.spec_goober_base_url()
        &&& r.spec_port() == self.spec_port()
        &&& r.spec_bind_address() == self.spec_bind_address()
    }

    pub open spec fn same_but_goober_base_url(&self, r: &ConfigBuilder) -> bool {
        &&& r.spec_gary_dir() == self.spec_gary_dir()
        &&& r.spec_goober_dir() == self.spec_goober_dir()
        &&& r.spec_quotes_file() == self.spec_quotes_file()
        &&& r.spec_jokes_file() == self.spec_jokes_file()
        &&& r.spec_gary_base_url() == self.spec_gary_base_url()
        &&& r.spec_port() == self.spec_port()
        &&& r.spec_bind_address() == self.spec_bind_address()
    }

    pub open spec fn same_but_port(&self, r: &ConfigBuilder) -> bool {
        &&& r.spec_gary_dir() == self.spec_gary_dir()
        &&& r.spec_goober_dir() == self.spec_goober_dir()
        &&& r.spec_quotes_file() == self.spec_quotes_file()
        &&& r.spec_jokes_file() == self.spec_jokes_file()
        &&& r.spec_gary_base_url() == self.spec_gary_base_url()
        &&& r.spec_goober_base_url() == self.spec_goober_base_url()
        &&& r.spec_bind_address() == self.spec_bind_address()
    }

    pub open spec fn same_but_bind_address(&self, r: &ConfigBuilder) -> bool {
        &&& r.spec_gary_dir() == self.spec_gary_dir()
        &&& r.spec_goober_dir() == self.spec_goober_dir()
        &&& r.spec_quotes_file() == self.spec_quotes_file()
        &&& r.spec_jokes_file() == self.spec_jokes_file()
        &&& r.spec_gary_base_url() == self.spec_gary_base_url()
        &&& r.spec_goober_base_url() == self.spec_goober_base_url()
        &&& r.spec_port() == self.spec_port()
    }

    pub fn gary_dir(self, dir: &str) -> (r: ConfigBuilder)
        ensures
            r.spec_gary_dir() == Some(dir@),
            self.same_but_gary_dir(&r),
    {
        ConfigBuilder { gary_dir: Some(DirectoryPath::new(dir)), ..self }
    }

    pub fn goober_dir(self, dir: &str) -> (r: ConfigBuilder)
        ensures
            r.spec_goober_dir() == Some(dir@),
            self.same_but_goober_dir(&r),
    {
        ConfigBuilder { goober_dir: Some(DirectoryPath::new(dir)), ..self }
    }

    pub fn quotes_file(self, file: &str) -> (r: ConfigBuilder)
        ensures
            r.spec_quotes_file() == Some(file@),
            self.same_but_quotes_file(&r),
    {
        ConfigBuilder { quotes_file: Some(file.to_owned()), ..self }
    }

    pub fn jokes_file(self, file: &str) -> (r: ConfigBuilder)
        ensures
            r.spec_jokes_file() == Some(file@),
            self.same_but_jokes_file(&r),
    {
        ConfigBuilder { jokes_file: Some(file.to_owned()), ..self }
    }

    pub fn gary_base_url(self, url: &str) -> (r: ConfigBuilder)
        ensures
            r.spec_gary_base_url() == Some(vstd::utf8::encode_utf8(url@)),
            self.same_but_gary_base_url(&r),
    {
        ConfigBuilder { gary_base_url: Some(BaseUrl::new(url)), ..self }
    }

    pub fn goober_base_url(self, url: &str) -> (r: ConfigBuilder)
        ensures
            r.spec_goober_base_url() == Some(vstd::utf8::encode_utf8(url@)),
            self.same_but_goober_base_url(&r),
    {
        ConfigBuilder { goober_base_url: Some(BaseUrl::new(url)), ..self }
    }

    pub fn port(self, port: u16) -> (r: ConfigBuilder)
        ensures
            r.spec_port() == Some(port),
            self.same_but_port(&r),
    {
        ConfigBuilder { port: Some(port), ..self }
    }

    pub fn bind_address(self, address: &str) -> (r: ConfigBuilder)
        ensures
            r.spec_bind_address() == Some(address@),
            self.same_but_bind_address(&r),
    {
        ConfigBuilder { bind_address: Some(address.to_owned()), ..self }
    }

    /// Builds the configuration, falling back to the defaults for unset
    /// fields.
    pub fn build(self) -> (r: Config)
        ensures
            r.gary_dir@ == match self.spec_gary_dir() {
                Some(d) => d,
                None => "gary_images"@,
            },
            r.goober_dir@ == match self.spec_goober_dir() {
                Some(d) => d,
                None => "goober_images"@,
            },
            r.quotes_file@ == match self.spec_quotes_file() {
                Some(f) => f,
                None => "quotes.json"@,
            },
            r.jokes_file@ == match self.spec_jokes_file() {
                Some(f) => f,
                None => "jokes.json"@,
            },
            r.gary_base_url@ == match self.spec_gary_base_url() {
                Some(u) => u,
                None => vstd::utf8::encode_utf8("http://localhost:8080/Gary"@),
            },
            r.goober_base_url@ == match self.spec_goober_base_url() {
                Some(u) => u,
                None => vstd::utf8::encode_utf8("http://localhost:8080/Goober"@),
            },
            r.port == match self.spec_port() {
                Some(p) => p,
                None => 8080u16,
            },
            r.bind_address@ == match self.spec_bind_address() {
                Some(a) => a,
                None => "0.0.0.0"@,
            },
    {
        let default = Config::default();
        Config {
            gary_dir: match self.gary_dir {
                Some(d) => d,
                None => default.gary_dir,
            },
            goober_dir: match self.goober_dir {
                Some(d) => d,
                None => default.goober_dir,
            },
            quotes_file: match self.quotes_file {
                Some(f) => f,
                None => default.quotes_file,
            },
            jokes_file: match self.jokes_file {
                Some(f) => f,
                None => default.jokes_file,
            },
            gary_base_url: match self.gary_base_url {
                Some(u) => u,
                None => default.gary_base_url,
            },
            goober_base_url: match self.goober_base_url {
                Some(u) => u,
                None => default.goober_base_url,
            },
            port: match self.port {
                Some(p) => p,
                None => default.port,
            },
            bind_address: match self.bind_address {
                Some(a) => a,
                None => default.bind_address,
            },
        }
    }
}

impl Default for ConfigBuilder {
    fn default() -> (r: ConfigBuilder)
        ensures
            r.spec_gary_dir() is None,
            r.spec_goober_dir() is None,
            r.spec_quotes_file() is None,
            r.spec_jokes_file() is None,
            r.spec_gary_base_url() is None,
            r.spec_goober_base_url() is None,
            r.spec_port() is None,
            r.spec_bind_address() is None,
    {
        ConfigBuilder::new()
    }
}

} // verus!
