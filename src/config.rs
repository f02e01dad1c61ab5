use vstd::prelude::*;

verus! {

#[verifier::external_type_specification]
#[verifier::external_body]
#[verifier::reject_recursive_types(K)]
#[verifier::reject_recursive_types(V)]
pub struct ExTomlMap<K, V>(toml::map::Map<K, V>);

#[verifier::external_type_specification]
#[verifier::external_body]
pub struct ExTomlValue(toml::Value);

#[verifier::external_type_specification]
#[verifier::external_body]
pub struct ExTomlError(toml::de::Error);

/// The table that a TOML document denotes, or `None` where the text is not a TOML document.
pub uninterp spec fn toml_table_of(text: Seq<char>) -> Option<toml::Table>;

/// The top-level entries of a TOML table, by key.
pub uninterp spec fn table_entries(t: toml::Table) -> Map<Seq<char>, toml::Value>;

/// The text of a TOML value that is a string, `None` for every other kind of value.
pub uninterp spec fn toml_text(v: toml::Value) -> Option<Seq<char>>;

/// Relies on `toml::from_str`, read into a `toml::Table`: parses a whole document.
#[verifier::external_body]
fn parse_table(text: &str) -> (r: Result<toml::Table, toml::de::Error>)
    ensures
        match r {
            Ok(t) => toml_table_of(text@) == Some(t),
            Err(_) => toml_table_of(text@) is None,
        },
{
    toml::from_str(text)
}

/// Relies on `toml::map::Map::get`: looks a key up among a table's entries.
#[verifier::external_body]
fn table_get<'a>(t: &'a toml::Table, key: &str) -> (r: Option<&'a toml::Value>)
    ensures
        r is Some <==> table_entries(*t).contains_key(key@),
        r is Some ==> *r->0 == table_entries(*t)[key@],
{
    t.get(key)
}

/// Relies on `toml::Value::as_str`: the text of a string value.
#[verifier::external_body]
fn value_text(v: &toml::Value) -> (r: Option<String>)
    ensures
        r is Some <==> toml_text(*v) is Some,
        r is Some ==> r->0@ == toml_text(*v)->0,
{
    v.as_str().map(|s| s.to_string())
}

/// The four settings of a run.
#[derive(Clone, Copy, Debug, PartialEq, Eq, Structural)]
pub enum Field {
    PublicIpService,
    ApiKey,
    ZoneId,
    DnsName,
}

/// The key under which a setting stands in the settings document.
pub open spec fn field_key(f: Field) -> Seq<char> {
    match f {
        Field::PublicIpService => "public_ip_service"@,
        Field::ApiKey => "cloudflare_api_key"@,
        Field::ZoneId => "zone_id"@,
        Field::DnsName => "dns_name"@,
    }
}

impl Field {
    pub fn key(&self) -> (r: &'static str)
        ensures
            r@ == field_key(*self),
    {
        match self {
            Field::PublicIpService => "public_ip_service",
            Field::ApiKey => "cloudflare_api_key",
            Field::ZoneId => "zone_id",
            Field::DnsName => "dns_name",
        }
    }
}

/// Why the settings could not be had.
#[derive(Clone, Copy, Debug, PartialEq, Eq, Structural)]
pub enum ConfigError {
    /// The settings file could not be read.
    Unreadable,
    /// The text is not a TOML document.
    Malformed,
    /// A setting is absent, or its value is not a string.
    Missing(Field),
}

/// The line that reports a settings error to the operator.
pub open spec fn config_error_text(e: ConfigError) -> Seq<char> {
    match e {
        ConfigError::Unreadable => "cannot read the settings file"@,
        ConfigError::Malformed => "the settings file is not valid TOML"@,
        ConfigError::Missing(f) => "missing or non-string setting: "@ + field_key(f),
    }
}

impl ConfigError {
    /// A line that tells the operator what went wrong.
    pub fn describe(&self) -> (r: String)
        ensures
            r@ == config_error_text(*self),
    {
        match self {
            ConfigError::Unreadable => String::from_str("cannot read the settings file"),
            ConfigError::Malformed => String::from_str("the settings file is not valid TOML"),
            ConfigError::Missing(f) => {
                let r = String::from_str("missing or non-string setting: ").concat(f.key());
                r
            },
        }
    }
}

/// The settings of a run, read once and never changed.
#[derive(Debug)]
pub struct Config {
    /// Address of the service that answers with the caller's public address.
    pub public_ip_service: String,
    /// Credential for the DNS provider's API.
    pub cloudflare_api_key: String,
    /// The provider's identifier of the zone.
    pub zone_id: String,
    /// The name whose record is kept in step.
    pub dns_name: String,
}

pub struct ConfigView {
    pub public_ip_service: Seq<char>,
    pub cloudflare_api_key: Seq<char>,
    pub zone_id: Seq<char>,
    pub dns_name: Seq<char>,
}

impl View for Config {
    type V = ConfigView;

    open spec fn view(&self) -> ConfigView {
        ConfigView {
            public_ip_service: self.public_ip_service@,
            cloudflare_api_key: self.cloudflare_api_key@,
            zone_id: self.zone_id@,
            dns_name: self.dns_name@,
        }
    }
}

/// The text of a setting in a table: `None` where its key is absent or holds no string.
pub open spec fn field_text(t: toml::Table, f: Field) -> Option<Seq<char>> {
    if table_entries(t).contains_key(field_key(f)) {
        toml_text(table_entries(t)[field_key(f)])
    } else {
        None
    }
}

/// What a table gives: the four settings, or the first of them that it lacks.
pub open spec fn config_of_table(t: toml::Table) -> Result<ConfigView, ConfigError> {
    if field_text(t, Field::PublicIpService) is None {
        Err(ConfigError::Missing(Field::PublicIpService))
    } else if field_text(t, Field::ApiKey) is None {
        Err(ConfigError::Missing(Field::ApiKey))
    } else if field_text(t, Field::ZoneId) is None {
        Err(ConfigError::Missing(Field::ZoneId))
    } else if field_text(t, Field::DnsName) is None {
        Err(ConfigError::Missing(Field::DnsName))
    } else {
        Ok(
            ConfigView {
                public_ip_service: field_text(t, Field::PublicIpService)->0,
                cloudflare_api_key: field_text(t, Field::ApiKey)->0,
                zone_id: field_text(t, Field::ZoneId)->0,
                dns_name: field_text(t, Field::DnsName)->0,
            },
        )
    }
}

/// What a settings document gives.
pub open spec fn config_of_text(text: Seq<char>) -> Result<ConfigView, ConfigError> {
    match toml_table_of(text) {
        Some(t) => config_of_table(t),
        None => Err(ConfigError::Malformed),
    }
}

/// A settings document whose four keys all hold strings gives a configuration made of
/// exactly those strings.
pub proof fn lemma_settings_taken_verbatim(text: Seq<char>, t: toml::Table)
    requires
        toml_table_of(text) == Some(t),
        field_text(t, Field::PublicIpService) is Some,
        field_text(t, Field::ApiKey) is Some,
        field_text(t, Field::ZoneId) is Some,
        field_text(t, Field::DnsName) is Some,
    ensures
        config_of_text(text) matches Ok(c) && c.public_ip_service == field_text(
            t,
            Field::PublicIpService,
        )->0 && c.cloudflare_api_key == field_text(t, Field::ApiKey)->0 && c.zone_id
            == field_text(t, Field::ZoneId)->0 && c.dns_name == field_text(t, Field::DnsName)->0,
{
}

/// A settings document that lacks any of the four keys gives an error.
pub proof fn lemma_missing_key_fails(text: Seq<char>, t: toml::Table, f: Field)
    requires
        toml_table_of(text) == Some(t),
        !table_entries(t).contains_key(field_key(f)),
    ensures
        config_of_text(text) is Err,
{
}

pub open spec fn config_result_view(r: Result<Config, ConfigError>) -> Result<ConfigView, ConfigError> {
    match r {
        Ok(c) => Ok(c@),
        Err(e) => Err(e),
    }
}

fn field_from_table(t: &toml::Table, f: Field) -> (r: Result<String, ConfigError>)
    ensures
        match r {
            Ok(s) => field_text(*t, f) == Some(s@),
            Err(e) => field_text(*t, f) is None && e == ConfigError::Missing(f),
        },
{
    match table_get(t, f.key()) {
        Some(v) => match value_text(v) {
            Some(s) => Ok(s),
            None => Err(ConfigError::Missing(f)),
        },
        None => Err(ConfigError::Missing(f)),
    }
}

/// Reads the four settings out of a parsed settings table; other entries are ignored.
pub fn config_from_table(t: &toml::Table) -> (r: Result<Config, ConfigError>)
    ensures
        config_result_view(r) == config_of_table(*t),
{
    let public_ip_service = field_from_table(t, Field::PublicIpService)?;
    let cloudflare_api_key = field_from_table(t, Field::ApiKey)?;
    let zone_id = field_from_table(t, Field::ZoneId)?;
    let dns_name = field_from_table(t, Field::DnsName)?;
    Ok(Config { public_ip_service, cloudflare_api_key, zone_id, dns_name })
}

/// Reads the settings out of the text of a settings document.
pub fn parse_config(text: &str) -> (r: Result<Config, ConfigError>)
    ensures
        config_result_view(r) == config_of_text(text@),
{
    match parse_table(text) {
        Ok(t) => config_from_table(&t),
        Err(_) => Err(ConfigError::Malformed),
    }
}

} // verus!
