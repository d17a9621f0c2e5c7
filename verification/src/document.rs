//! The configuration file: a TOML document whose top-level keys are the
//! options of the service.
//!
//! The `toml` crate reads the document. What it hands over is taken on trust;
//! which keys are looked at, what shape each must have and what range each
//! number must lie in is decided here.

use crate::config::{ServeArgs, ServeArgsView};
use crate::error::ControlError;
use vstd::prelude::*;
use vstd::string::*;

verus! {

/// `toml::map::Map`, the table of a document. Nothing of its inside is
/// known here.
#[verifier::external_type_specification]
#[verifier::external_body]
#[verifier::reject_recursive_types(K)]
#[verifier::reject_recursive_types(V)]
pub struct ExTable<K, V>(toml::map::Map<K, V>);

/// `toml::Value`, a value of a document. Nothing of its inside is known
/// here.
#[verifier::external_type_specification]
#[verifier::external_body]
pub struct ExValue(toml::Value);

/// `toml::de::Error`, why a text is no document. It is carried, not read.
#[verifier::external_type_specification]
#[verifier::external_body]
pub struct ExDecodeError(toml::de::Error);

/// What a value of a document holds, as far as the options need it.
pub enum Item {
    /// A string.
    Text(Seq<char>),
    /// An integer.
    Integer(i64),
    /// A boolean.
    Flag(bool),
    /// An array, with what each of its elements holds.
    List(Seq<Item>),
    /// A float, a date or time, or a table.
    Other,
}

/// What `value` holds.
pub uninterp spec fn item_of(value: toml::Value) -> Item;

/// The keys of `table`, each with what its value holds.
pub uninterp spec fn entries(table: toml::map::Map<String, toml::Value>) -> Map<Seq<char>, Item>;

/// The top-level table that `text` denotes as a TOML document, or `None`
/// where it is not one.
pub uninterp spec fn document(text: Seq<char>) -> Option<Map<Seq<char>, Item>>;

/// `toml::from_str` at the type `toml::Table`: whether `text` parses, and the
/// table that it parses to, depend on `text` alone.
#[verifier::external_body]
fn parse_table(text: &str) -> (parsed: Result<toml::map::Map<String, toml::Value>, toml::de::Error>)
    ensures
        match parsed {
            Ok(table) => document(text@) == Some(entries(table)),
            Err(_) => document(text@) is None,
        },
{
    toml::from_str::<toml::Table>(text)
}

/// `toml::map::Map::get`: the value under `key`, or `None` where the table
/// has no such key.
#[verifier::external_body]
fn table_get<'a>(table: &'a toml::map::Map<String, toml::Value>, key: &str) -> (found: Option<
    &'a toml::Value,
>)
    ensures
        match found {
            Some(value) => entries(*table).contains_key(key@) && entries(*table)[key@] == item_of(
                *value,
            ),
            None => !entries(*table).contains_key(key@),
        },
{
    table.get(key)
}

/// `toml::Value::as_str`: the string of a string value, `None` for any other.
#[verifier::external_body]
fn value_as_str<'a>(value: &'a toml::Value) -> (text: Option<&'a str>)
    ensures
        match text {
            Some(t) => item_of(*value) == Item::Text(t@),
            None => !(item_of(*value) is Text),
        },
{
    value.as_str()
}

/// `toml::Value::as_integer`: the number of an integer value, `None` for any
/// other.
#[verifier::external_body]
fn value_as_integer(value: &toml::Value) -> (number: Option<i64>)
    ensures
        match number {
            Some(n) => item_of(*value) == Item::Integer(n),
            None => !(item_of(*value) is Integer),
        },
{
    value.as_integer()
}

/// `toml::Value::as_bool`: the boolean of a boolean value, `None` for any
/// other.
#[verifier::external_body]
fn value_as_bool(value: &toml::Value) -> (flag: Option<bool>)
    ensures
        match flag {
            Some(b) => item_of(*value) == Item::Flag(b),
            None => !(item_of(*value) is Flag),
        },
{
    value.as_bool()
}

/// `toml::Value::as_array`: the elements of an array value in order, `None`
/// for any other.
#[verifier::external_body]
fn value_as_array<'a>(value: &'a toml::Value) -> (elements: Option<&'a Vec<toml::Value>>)
    ensures
        match elements {
            Some(list) => item_of(*value) == Item::List(
                list@.map_values(|v: toml::Value| item_of(v)),
            ),
            None => !(item_of(*value) is List),
        },
{
    value.as_array()
}

/// Whether `doc` has a string, or nothing, under `key`.
pub open spec fn text_ok(doc: Map<Seq<char>, Item>, key: Seq<char>) -> bool {
    doc.contains_key(key) ==> doc[key] is Text
}

/// The string under `key`.
pub open spec fn text_at(doc: Map<Seq<char>, Item>, key: Seq<char>) -> Option<Seq<char>> {
    if doc.contains_key(key) && doc[key] is Text {
        Some(doc[key]->Text_0)
    } else {
        None
    }
}

/// Whether `doc` has an integer from 0 to `max`, or nothing, under `key`.
pub open spec fn number_ok(doc: Map<Seq<char>, Item>, key: Seq<char>, max: int) -> bool {
    doc.contains_key(key) ==> doc[key] is Integer && 0 <= doc[key]->Integer_0 <= max
}

/// The integer under `key`.
pub open spec fn number_at(doc: Map<Seq<char>, Item>, key: Seq<char>) -> Option<int> {
    if doc.contains_key(key) && doc[key] is Integer {
        Some(doc[key]->Integer_0 as int)
    } else {
        None
    }
}

/// Whether `doc` has a boolean, or nothing, under `key`.
pub open spec fn flag_ok(doc: Map<Seq<char>, Item>, key: Seq<char>) -> bool {
    doc.contains_key(key) ==> doc[key] is Flag
}

/// The boolean under `key`.
pub open spec fn flag_at(doc: Map<Seq<char>, Item>, key: Seq<char>) -> Option<bool> {
    if doc.contains_key(key) && doc[key] is Flag {
        Some(doc[key]->Flag_0)
    } else {
        None
    }
}

/// Whether every element of `items` is a string.
pub open spec fn all_text(items: Seq<Item>) -> bool {
    forall|i: int| 0 <= i < items.len() ==> #[trigger] items[i] is Text
}

/// The strings of `items`, in order.
pub open spec fn texts_of(items: Seq<Item>) -> Seq<Seq<char>> {
    Seq::new(items.len(), |i: int| items[i]->Text_0)
}

/// Whether `doc` has an array of strings, or nothing, under `key`.
pub open spec fn list_ok(doc: Map<Seq<char>, Item>, key: Seq<char>) -> bool {
    doc.contains_key(key) ==> doc[key] is List && all_text(doc[key]->List_0)
}

/// The array of strings under `key`.
pub open spec fn list_at(doc: Map<Seq<char>, Item>, key: Seq<char>) -> Option<Seq<Seq<char>>> {
    if doc.contains_key(key) && doc[key] is List {
        Some(texts_of(doc[key]->List_0))
    } else {
        None
    }
}

fn text_field(table: &toml::map::Map<String, toml::Value>, key: &str) -> (field: Result<
    Option<String>,
    ControlError,
>)
    ensures
        field is Ok <==> text_ok(entries(*table), key@),
        field matches Ok(v) ==> v.deep_view() == text_at(entries(*table), key@),
        field matches Err(e) ==> e == ControlError::ConfigDecode,
{
    match table_get(table, key) {
        None => Ok(None),
        Some(value) => match value_as_str(value) {
            Some(t) => Ok(Some(String::from_str(t))),
            None => Err(ControlError::ConfigDecode),
        },
    }
}

fn number_field(table: &toml::map::Map<String, toml::Value>, key: &str, max: i64) -> (field:
    Result<Option<i64>, ControlError>)
    requires
        0 <= max,
    ensures
        field is Ok <==> number_ok(entries(*table), key@, max as int),
        field matches Ok(v) ==> number_at(entries(*table), key@) == match v {
            Some(n) => Some(n as int),
            None => None,
        },
        field matches Ok(Some(n)) ==> 0 <= n <= max,
        field matches Err(e) ==> e == ControlError::ConfigDecode,
{
    match table_get(table, key) {
        None => Ok(None),
        Some(value) => match value_as_integer(value) {
            Some(n) => if 0 <= n && n <= max {
                Ok(Some(n))
            } else {
                Err(ControlError::ConfigDecode)
            },
            None => Err(ControlError::ConfigDecode),
        },
    }
}

fn flag_field(table: &toml::map::Map<String, toml::Value>, key: &str) -> (field: Result<
    Option<bool>,
    ControlError,
>)
    ensures
        field is Ok <==> flag_ok(entries(*table), key@),
        field matches Ok(v) ==> v == flag_at(entries(*table), key@),
        field matches Err(e) ==> e == ControlError::ConfigDecode,
{
    match table_get(table, key) {
        None => Ok(None),
        Some(value) => match value_as_bool(value) {
            Some(b) => Ok(Some(b)),
            None => Err(ControlError::ConfigDecode),
        },
    }
}

fn list_field(table: &toml::map::Map<String, toml::Value>, key: &str) -> (field: Result<
    Option<Vec<String>>,
    ControlError,
>)
    ensures
        field is Ok <==> list_ok(entries(*table), key@),
        field matches Ok(v) ==> v.deep_view() == list_at(entries(*table), key@),
        field matches Err(e) ==> e == ControlError::ConfigDecode,
{
    match table_get(table, key) {
        None => Ok(None),
        Some(value) => match value_as_array(value) {
            None => Err(ControlError::ConfigDecode),
            Some(elements) => {
                let ghost items = elements@.map_values(|v: toml::Value| item_of(v));
                let mut texts: Vec<String> = Vec::new();
                let mut i: usize = 0;
                while i < elements.len()
                    invariant
                        i <= elements@.len(),
                        items == elements@.map_values(|v: toml::Value| item_of(v)),
                        entries(*table).contains_key(key@),
                        entries(*table)[key@] == Item::List(items),
                        texts@.len() == i,
                        forall|j: int| 0 <= j < i ==> #[trigger] items[j] is Text,
                        forall|j: int| 0 <= j < i ==> (#[trigger] texts@[j])@ == items[j]->Text_0,
                    decreases elements@.len() - i,
                {
                    match value_as_str(&elements[i]) {
                        None => {
                            assert(!(items[i as int] is Text));
                            return Err(ControlError::ConfigDecode);
                        },
                        Some(t) => {
                            assert(items[i as int] == Item::Text(t@));
                            texts.push(String::from_str(t));
                        },
                    }
                    i += 1;
                }
                assert(texts.deep_view() =~= texts_of(items));
                Ok(Some(texts))
            },
        },
    }
}

/// Whether every known key of `doc` holds a value of the shape and range that
/// its option has. Keys that are no option are not looked at.
pub open spec fn well_shaped(doc: Map<Seq<char>, Item>) -> bool {
    &&& text_ok(doc, "config"@)
    &&& text_ok(doc, "host"@)
    &&& number_ok(doc, "port"@, u16::MAX as int)
    &&& number_ok(doc, "workers"@, i64::MAX as int)
    &&& number_ok(doc, "concurrent_limit"@, i64::MAX as int)
    &&& list_ok(doc, "proxies"@)
    &&& number_ok(doc, "timeout"@, i64::MAX as int)
    &&& number_ok(doc, "connect_timeout"@, i64::MAX as int)
    &&& number_ok(doc, "tcp_keepalive"@, i64::MAX as int)
    &&& text_ok(doc, "tls_cert"@)
    &&& text_ok(doc, "tls_key"@)
    &&& text_ok(doc, "api_prefix"@)
    &&& text_ok(doc, "sign_secret_key"@)
    &&& flag_ok(doc, "tb_enable"@)
    &&& text_ok(doc, "tb_store_strategy"@)
    &&& list_ok(doc, "tb_redis_url"@)
    &&& number_ok(doc, "tb_capacity"@, u32::MAX as int)
    &&& number_ok(doc, "tb_fill_rate"@, u32::MAX as int)
    &&& number_ok(doc, "tb_expired"@, u32::MAX as int)
    &&& text_ok(doc, "cf_site_key"@)
    &&& text_ok(doc, "cf_secret_key"@)
    &&& flag_ok(doc, "disable_webui"@)
}

/// A number of a document as a port.
pub open spec fn as_port(n: Option<int>) -> Option<u16> {
    match n {
        Some(n) => Some(n as u16),
        None => None,
    }
}

/// A number of a document as a count.
pub open spec fn as_count(n: Option<int>) -> Option<u64> {
    match n {
        Some(n) => Some(n as u64),
        None => None,
    }
}

/// A number of a document as a token-bucket parameter.
pub open spec fn as_quota(n: Option<int>) -> Option<u32> {
    match n {
        Some(n) => Some(n as u32),
        None => None,
    }
}

/// The options that a well-shaped `doc` sets: each key that is there sets its
/// option, each key that is not leaves it unset.
pub open spec fn options_of(doc: Map<Seq<char>, Item>) -> ServeArgsView {
    ServeArgsView {
        config: text_at(doc, "config"@),
        host: text_at(doc, "host"@),
        port: as_port(number_at(doc, "port"@)),
        workers: as_count(number_at(doc, "workers"@)),
        concurrent_limit: as_count(number_at(doc, "concurrent_limit"@)),
        proxies: list_at(doc, "proxies"@),
        timeout: as_count(number_at(doc, "timeout"@)),
        connect_timeout: as_count(number_at(doc, "connect_timeout"@)),
        tcp_keepalive: as_count(number_at(doc, "tcp_keepalive"@)),
        tls_cert: text_at(doc, "tls_cert"@),
        tls_key: text_at(doc, "tls_key"@),
        api_prefix: text_at(doc, "api_prefix"@),
        sign_secret_key: text_at(doc, "sign_secret_key"@),
        tb_enable: flag_at(doc, "tb_enable"@),
        tb_store_strategy: text_at(doc, "tb_store_strategy"@),
        tb_redis_url: list_at(doc, "tb_redis_url"@),
        tb_capacity: as_quota(number_at(doc, "tb_capacity"@)),
        tb_fill_rate: as_quota(number_at(doc, "tb_fill_rate"@)),
        tb_expired: as_quota(number_at(doc, "tb_expired"@)),
        cf_site_key: text_at(doc, "cf_site_key"@),
        cf_secret_key: text_at(doc, "cf_secret_key"@),
        disable_webui: flag_at(doc, "disable_webui"@),
    }
}

/// What decoding a parsed document gives.
pub open spec fn decoded(doc: Option<Map<Seq<char>, Item>>) -> Result<
    ServeArgsView,
    ControlError,
> {
    match doc {
        Some(d) => if well_shaped(d) {
            Ok(options_of(d))
        } else {
            Err(ControlError::ConfigDecode)
        },
        None => Err(ControlError::ConfigDecode),
    }
}

/// The view of a decoding result.
pub open spec fn options_view(r: Result<ServeArgs, ControlError>) -> Result<
    ServeArgsView,
    ControlError,
> {
    match r {
        Ok(args) => Ok(args@),
        Err(e) => Err(e),
    }
}

fn port_of(n: Option<i64>) -> (port: Option<u16>)
    requires
        n matches Some(v) ==> 0 <= v <= u16::MAX,
    ensures
        port == as_port(
            match n {
                Some(v) => Some(v as int),
                None => None,
            },
        ),
{
    match n {
        Some(v) => Some(v as u16),
        None => None,
    }
}

fn count_of(n: Option<i64>) -> (count: Option<u64>)
    requires
        n matches Some(v) ==> 0 <= v,
    ensures
        count == as_count(
            match n {
                Some(v) => Some(v as int),
                None => None,
            },
        ),
{
    match n {
        Some(v) => Some(v as u64),
        None => None,
    }
}

fn quota_of(n: Option<i64>) -> (quota: Option<u32>)
    requires
        n matches Some(v) ==> 0 <= v <= u32::MAX,
    ensures
        quota == as_quota(
            match n {
                Some(v) => Some(v as int),
                None => None,
            },
        ),
{
    match n {
        Some(v) => Some(v as u32),
        None => None,
    }
}

/// Reads the options out of a parsed document.
///
/// Fails with `ConfigDecode` exactly when a known key holds a value of the
/// wrong shape or a number out of range.
pub fn options_from_table(table: &toml::map::Map<String, toml::Value>) -> (options: Result<
    ServeArgs,
    ControlError,
>)
    ensures
        options_view(options) == decoded(Some(entries(*table))),
{
    let config = text_field(table, "config")?;
    let host = text_field(table, "host")?;
    let port = number_field(table, "port", 65535)?;
    let workers = number_field(table, "workers", i64::MAX)?;
    let concurrent_limit = number_field(table, "concurrent_limit", i64::MAX)?;
    let proxies = list_field(table, "proxies")?;
    let timeout = number_field(table, "timeout", i64::MAX)?;
    let connect_timeout = number_field(table, "connect_timeout", i64::MAX)?;
    let tcp_keepalive = number_field(table, "tcp_keepalive", i64::MAX)?;
    let tls_cert = text_field(table, "tls_cert")?;
    let tls_key = text_field(table, "tls_key")?;
    let api_prefix = text_field(table, "api_prefix")?;
    let sign_secret_key = text_field(table, "sign_secret_key")?;
    let tb_enable = flag_field(table, "tb_enable")?;
    let tb_store_strategy = text_field(table, "tb_store_strategy")?;
    let tb_redis_url = list_field(table, "tb_redis_url")?;
    let tb_capacity = number_field(table, "tb_capacity", 4294967295)?;
    let tb_fill_rate = number_field(table, "tb_fill_rate", 4294967295)?;
    let tb_expired = number_field(table, "tb_expired", 4294967295)?;
    let cf_site_key = text_field(table, "cf_site_key")?;
    let cf_secret_key = text_field(table, "cf_secret_key")?;
    let disable_webui = flag_field(table, "disable_webui")?;
    Ok(
        ServeArgs {
            config,
            host,
            port: port_of(port),
            workers: count_of(workers),
            concurrent_limit: count_of(concurrent_limit),
            proxies,
            timeout: count_of(timeout),
            connect_timeout: count_of(connect_timeout),
            tcp_keepalive: count_of(tcp_keepalive),
            tls_cert,
            tls_key,
            api_prefix,
            sign_secret_key,
            tb_enable,
            tb_store_strategy,
            tb_redis_url,
            tb_capacity: quota_of(tb_capacity),
            tb_fill_rate: quota_of(tb_fill_rate),
            tb_expired: quota_of(tb_expired),
            cf_site_key,
            cf_secret_key,
            disable_webui,
        },
    )
}

/// Decodes the text of a configuration file.
///
/// Fails with `ConfigDecode` exactly when the text is no TOML document, or a
/// known key holds a value of the wrong shape or a number out of range.
pub fn decode_options(text: &str) -> (options: Result<ServeArgs, ControlError>)
    ensures
        options_view(options) == decoded(document(text@)),
{
    match parse_table(text) {
        Ok(table) => options_from_table(&table),
        Err(_) => Err(ControlError::ConfigDecode),
    }
}

} // verus!
