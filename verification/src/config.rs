//! Configuration: a TOML document read from `~/.config/kimage.toml` holds
//! `port`, `api_key`, `storage_path` and `server_url`. The TOML parsing is
//! the `toml` crate's, behind trusted wrappers whose contracts speak of the
//! table's contents; extracting the fields and resolving a relative storage
//! path against the home directory are verified here.

use vstd::prelude::*;

verus! {

use vstd::string::*;

/// Server-side configuration; `storage_path` has been made absolute.
pub struct ServerConfig {
    pub port: u16,
    pub api_key: String,
    pub storage_path: String,
    pub server_url: String,
}

/// Client-side configuration: only the server address and the key.
pub struct ClientConfig {
    pub server_url: String,
    pub api_key: String,
}

/// How loading a configuration can fail: the file could not be read, or
/// its text does not hold the required fields with the required types.
#[derive(Clone, Copy, Debug, PartialEq, Eq, Structural)]
pub enum ConfigError {
    Read,
    Parse,
}

#[verifier::external_type_specification]
#[verifier::external_body]
#[verifier::reject_recursive_types(K)]
#[verifier::reject_recursive_types(V)]
pub struct ExTomlMap<K, V>(toml::map::Map<K, V>);

#[verifier::external_type_specification]
#[verifier::external_body]
pub struct ExTomlValue(toml::Value);

/// The string-valued entries of a parsed TOML table.
pub uninterp spec fn table_strings(t: toml::Table) -> Map<Seq<char>, Seq<char>>;

/// The integer-valued entries of a parsed TOML table.
pub uninterp spec fn table_ints(t: toml::Table) -> Map<Seq<char>, i64>;

/// Whether a text is a well-formed TOML document.
pub uninterp spec fn toml_wf(text: Seq<char>) -> bool;

/// The string-valued entries of a well-formed TOML text.
pub uninterp spec fn toml_strings_of(text: Seq<char>) -> Map<Seq<char>, Seq<char>>;

/// The integer-valued entries of a well-formed TOML text.
pub uninterp spec fn toml_ints_of(text: Seq<char>) -> Map<Seq<char>, i64>;

/// Relies on toml's `Table::from_str`: parses a TOML document into a
/// table of values, failing exactly on malformed text; the table, and
/// so its entries, are a function of the text alone.
#[verifier::external_body]
fn toml_parse(text: &str) -> (r: Option<toml::Table>)
    ensures
        r is Some <==> toml_wf(text@),
        r matches Some(t) ==> table_strings(t) == toml_strings_of(text@) && table_ints(t)
            == toml_ints_of(text@),
{
    text.parse::<toml::Table>().ok()
}

/// Relies on toml's `Map::get` and `Value::as_str`: the string value at
/// a key, where the table holds a string there.
#[verifier::external_body]
fn toml_get_str(t: &toml::Table, key: &str) -> (r: Option<String>)
    ensures
        r is Some <==> table_strings(*t).contains_key(key@),
        r is Some ==> r.unwrap()@ == table_strings(*t)[key@],
{
    match t.get(key) {
        Some(v) => v.as_str().map(|s| s.to_string()),
        None => None,
    }
}

/// Relies on toml's `Map::get` and `Value::as_integer`: the integer
/// value at a key, where the table holds an integer there.
#[verifier::external_body]
fn toml_get_int(t: &toml::Table, key: &str) -> (r: Option<i64>)
    ensures
        r is Some <==> table_ints(*t).contains_key(key@),
        r is Some ==> r.unwrap() == table_ints(*t)[key@],
{
    match t.get(key) {
        Some(v) => v.as_integer(),
        None => None,
    }
}

/// A path is absolute when it starts with the separator.
pub open spec fn path_is_absolute(p: Seq<char>) -> bool {
    p.len() > 0 && p[0] == '/'
}

/// An absolute path stays as it is; a relative one is joined under the
/// home directory.
pub open spec fn resolved_path(home: Seq<char>, p: Seq<char>) -> Seq<char> {
    if path_is_absolute(p) {
        p
    } else {
        home + "/"@ + p
    }
}

/// Make a storage path absolute, resolving a relative one against the
/// home directory.
pub fn resolve_storage_path(home: &str, path: String) -> (r: String)
    ensures
        r@ == resolved_path(home@, path@),
        path_is_absolute(home@) ==> path_is_absolute(r@),
{
    if !path.as_str().is_empty() && path.as_str().get_char(0) == '/' {
        path
    } else {
        let mut r = String::from_str(home);
        r.append("/");
        r.append(path.as_str());
        r
    }
}

/// The table holds everything a server configuration needs: a port in
/// `u16` range and the three strings.
pub open spec fn server_table_ok(t: toml::Table) -> bool {
    &&& table_ints(t).contains_key("port"@)
    &&& 0 <= table_ints(t)["port"@] <= 65535
    &&& table_strings(t).contains_key("api_key"@)
    &&& table_strings(t).contains_key("storage_path"@)
    &&& table_strings(t).contains_key("server_url"@)
}

/// The table holds everything a client configuration needs.
pub open spec fn client_table_ok(t: toml::Table) -> bool {
    &&& table_strings(t).contains_key("api_key"@)
    &&& table_strings(t).contains_key("server_url"@)
}

/// The text parses and holds everything a server configuration needs.
pub open spec fn server_text_ok(text: Seq<char>) -> bool {
    &&& toml_wf(text)
    &&& toml_ints_of(text).contains_key("port"@)
    &&& 0 <= toml_ints_of(text)["port"@] <= 65535
    &&& toml_strings_of(text).contains_key("api_key"@)
    &&& toml_strings_of(text).contains_key("storage_path"@)
    &&& toml_strings_of(text).contains_key("server_url"@)
}

/// The text parses and holds everything a client configuration needs.
pub open spec fn client_text_ok(text: Seq<char>) -> bool {
    &&& toml_wf(text)
    &&& toml_strings_of(text).contains_key("api_key"@)
    &&& toml_strings_of(text).contains_key("server_url"@)
}

/// Extract a server configuration from a parsed table, resolving the
/// storage path against the home directory; with the home directory
/// absolute, the storage path comes out absolute before any use.
pub fn server_config_from_table(t: &toml::Table, home: &str) -> (r: Result<
    ServerConfig,
    ConfigError,
>)
    requires
        path_is_absolute(home@),
    ensures
        r is Ok <==> server_table_ok(*t),
        r is Ok ==> path_is_absolute(r.unwrap().storage_path@),
        r is Ok ==> ({
            let c = r.unwrap();
            &&& c.port == table_ints(*t)["port"@]
            &&& c.api_key@ == table_strings(*t)["api_key"@]
            &&& c.server_url@ == table_strings(*t)["server_url"@]
            &&& c.storage_path@ == resolved_path(home@, table_strings(*t)["storage_path"@])
        }),
        r is Err ==> r == Err::<ServerConfig, ConfigError>(ConfigError::Parse),
{
    let port_raw = match toml_get_int(t, "port") {
        Some(p) => p,
        None => {
            return Err(ConfigError::Parse);
        },
    };
    if port_raw < 0 || port_raw > 65535 {
        return Err(ConfigError::Parse);
    }
    let api_key = match toml_get_str(t, "api_key") {
        Some(s) => s,
        None => {
            return Err(ConfigError::Parse);
        },
    };
    let storage_path = match toml_get_str(t, "storage_path") {
        Some(s) => s,
        None => {
            return Err(ConfigError::Parse);
        },
    };
    let server_url = match toml_get_str(t, "server_url") {
        Some(s) => s,
        None => {
            return Err(ConfigError::Parse);
        },
    };
    Ok(ServerConfig {
        port: port_raw as u16,
        api_key,
        storage_path: resolve_storage_path(home, storage_path),
        server_url,
    })
}

/// Extract a client configuration from a parsed table.
pub fn client_config_from_table(t: &toml::Table) -> (r: Result<ClientConfig, ConfigError>)
    ensures
        r is Ok <==> client_table_ok(*t),
        r is Ok ==> ({
            let c = r.unwrap();
            &&& c.api_key@ == table_strings(*t)["api_key"@]
            &&& c.server_url@ == table_strings(*t)["server_url"@]
        }),
        r is Err ==> r == Err::<ClientConfig, ConfigError>(ConfigError::Parse),
{
    let api_key = match toml_get_str(t, "api_key") {
        Some(s) => s,
        None => {
            return Err(ConfigError::Parse);
        },
    };
    let server_url = match toml_get_str(t, "server_url") {
        Some(s) => s,
        None => {
            return Err(ConfigError::Parse);
        },
    };
    Ok(ClientConfig { server_url, api_key })
}

/// Parse configuration text into a server configuration: a function of
/// the text and the home directory alone, succeeding exactly on texts
/// that parse and fit the schema. Every failure, of the TOML syntax or
/// of the schema, is a parse error.
pub fn load_server_config(text: &str, home: &str) -> (r: Result<ServerConfig, ConfigError>)
    requires
        path_is_absolute(home@),
    ensures
        r is Ok <==> server_text_ok(text@),
        r is Ok ==> ({
            let c = r.unwrap();
            &&& c.port == toml_ints_of(text@)["port"@]
            &&& c.api_key@ == toml_strings_of(text@)["api_key"@]
            &&& c.server_url@ == toml_strings_of(text@)["server_url"@]
            &&& c.storage_path@ == resolved_path(home@, toml_strings_of(text@)["storage_path"@])
            &&& path_is_absolute(c.storage_path@)
        }),
        r is Err ==> r == Err::<ServerConfig, ConfigError>(ConfigError::Parse),
{
    match toml_parse(text) {
        Some(t) => server_config_from_table(&t, home),
        None => Err(ConfigError::Parse),
    }
}

/// Parse configuration text into a client configuration: a function of
/// the text alone, succeeding exactly on texts that parse and hold the
/// two required strings.
pub fn load_client_config(text: &str) -> (r: Result<ClientConfig, ConfigError>)
    ensures
        r is Ok <==> client_text_ok(text@),
        r is Ok ==> ({
            let c = r.unwrap();
            &&& c.api_key@ == toml_strings_of(text@)["api_key"@]
            &&& c.server_url@ == toml_strings_of(text@)["server_url"@]
        }),
        r is Err ==> r == Err::<ClientConfig, ConfigError>(ConfigError::Parse),
{
    match toml_parse(text) {
        Some(t) => client_config_from_table(&t),
        None => Err(ConfigError::Parse),
    }
}

} // verus!
