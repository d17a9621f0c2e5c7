use serve_control::config::{apply_defaults, RateLimit, ResolvedConfig, ServeArgs, TlsPair};
use serve_control::document::{decode_options, options_from_table};
use serve_control::error::ControlError;
use serve_control::resolve::{resolve, resolve_from_file};
use serve_control::template::{plan_template, Destination, FileStep};

fn documented_defaults() -> ResolvedConfig {
    ResolvedConfig {
        host: "0.0.0.0".to_string(),
        port: 7999,
        proxies: vec![],
        api_prefix: None,
        tls: None,
        timeout: 600,
        connect_timeout: 60,
        tcp_keepalive: 60,
        workers: 1,
        concurrent_limit: 65535,
        rate_limit: RateLimit {
            enabled: false,
            store_strategy: "mem".to_string(),
            store_endpoints: vec!["redis://127.0.0.1:6379".to_string()],
            capacity: 60,
            fill_rate: 1,
            expiry: 86400,
        },
        sign_secret_key: None,
        cf_site_key: None,
        cf_secret_key: None,
        disable_ui: false,
    }
}

fn every_option() -> ServeArgs {
    ServeArgs {
        config: Some("/etc/x.toml".to_string()),
        host: Some("127.0.0.1".to_string()),
        port: Some(8000),
        workers: Some(4),
        concurrent_limit: Some(100),
        proxies: Some(vec!["socks5://10.0.0.1:1080".to_string(), "http://10.0.0.2:80".to_string()]),
        timeout: Some(30),
        connect_timeout: Some(5),
        tcp_keepalive: Some(15),
        tls_cert: Some("/c.pem".to_string()),
        tls_key: Some("/k.pem".to_string()),
        api_prefix: Some("https://example.org".to_string()),
        sign_secret_key: Some("s3".to_string()),
        tb_enable: Some(true),
        tb_store_strategy: Some("redis".to_string()),
        tb_redis_url: Some(vec!["redis://10.0.0.3:6379".to_string()]),
        tb_capacity: Some(10),
        tb_fill_rate: Some(2),
        tb_expired: Some(3600),
        cf_site_key: Some("site".to_string()),
        cf_secret_key: Some("secret".to_string()),
        disable_webui: Some(true),
    }
}

const EVERY_OPTION: &str = "config = \"/etc/x.toml\"\nhost = \"127.0.0.1\"\nport = 8000\nworkers = 4\nconcurrent_limit = 100\nproxies = [\"socks5://10.0.0.1:1080\", \"http://10.0.0.2:80\"]\ntimeout = 30\nconnect_timeout = 5\ntcp_keepalive = 15\ntls_cert = \"/c.pem\"\ntls_key = \"/k.pem\"\napi_prefix = \"https://example.org\"\nsign_secret_key = \"s3\"\ntb_enable = true\ntb_store_strategy = \"redis\"\ntb_redis_url = [\"redis://10.0.0.3:6379\"]\ntb_capacity = 10\ntb_fill_rate = 2\ntb_expired = 3600\ncf_site_key = \"site\"\ncf_secret_key = \"secret\"\ndisable_webui = true\n";

fn with_config_path() -> ServeArgs {
    let mut args = ServeArgs::new();
    args.config = Some("/etc/service.toml".to_string());
    args
}

fn file(text: &str) -> Option<Vec<u8>> {
    Some(text.as_bytes().to_vec())
}

#[test]
fn new_options_are_all_unset() {
    let args = ServeArgs::new();
    assert_eq!(args.config, None);
    assert_eq!(args.host, None);
    assert_eq!(args.port, None);
    assert_eq!(args.proxies, None);
    assert_eq!(args.tb_enable, None);
    assert_eq!(args.disable_webui, None);
}

#[test]
fn unset_options_settle_to_the_defaults() {
    assert_eq!(apply_defaults(ServeArgs::new()), documented_defaults());
}

#[test]
fn given_options_survive_settling() {
    let config = apply_defaults(every_option());
    let expected = ResolvedConfig {
        host: "127.0.0.1".to_string(),
        port: 8000,
        proxies: vec!["socks5://10.0.0.1:1080".to_string(), "http://10.0.0.2:80".to_string()],
        api_prefix: Some("https://example.org".to_string()),
        tls: Some(TlsPair { cert: "/c.pem".to_string(), key: "/k.pem".to_string() }),
        timeout: 30,
        connect_timeout: 5,
        tcp_keepalive: 15,
        workers: 4,
        concurrent_limit: 100,
        rate_limit: RateLimit {
            enabled: true,
            store_strategy: "redis".to_string(),
            store_endpoints: vec!["redis://10.0.0.3:6379".to_string()],
            capacity: 10,
            fill_rate: 2,
            expiry: 3600,
        },
        sign_secret_key: Some("s3".to_string()),
        cf_site_key: Some("site".to_string()),
        cf_secret_key: Some("secret".to_string()),
        disable_ui: true,
    };
    assert_eq!(config, expected);
}

#[test]
fn certificate_without_key_switches_tls_off() {
    let mut args = ServeArgs::new();
    args.tls_cert = Some("/c.pem".to_string());
    assert_eq!(apply_defaults(args).tls, None);
}

#[test]
fn key_without_certificate_switches_tls_off() {
    let mut args = ServeArgs::new();
    args.tls_key = Some("/k.pem".to_string());
    assert_eq!(apply_defaults(args).tls, None);
}

#[test]
fn empty_proxy_list_stays_empty() {
    let mut args = ServeArgs::new();
    args.proxies = Some(vec![]);
    args.tb_redis_url = Some(vec![]);
    let config = apply_defaults(args);
    assert_eq!(config.proxies, Vec::<String>::new());
    assert_eq!(config.rate_limit.store_endpoints, Vec::<String>::new());
}

#[test]
fn empty_document_sets_nothing() {
    assert_eq!(decode_options(""), Ok(ServeArgs::new()));
    assert_eq!(decode_options("# only a comment\n"), Ok(ServeArgs::new()));
}

#[test]
fn document_sets_every_option() {
    assert_eq!(decode_options(EVERY_OPTION), Ok(every_option()));
}

#[test]
fn unknown_keys_are_not_looked_at() {
    let mut expected = ServeArgs::new();
    expected.port = Some(9000);
    assert_eq!(decode_options("port = 9000\ncolour = \"blue\"\n[extra]\nx = 1.5\n"), Ok(expected));
}

#[test]
fn text_that_is_no_document_is_refused() {
    assert_eq!(decode_options("port = "), Err(ControlError::ConfigDecode));
    assert_eq!(decode_options("port 9000"), Err(ControlError::ConfigDecode));
    assert_eq!(decode_options("port = 1\nport = 2\n"), Err(ControlError::ConfigDecode));
    assert_eq!(decode_options("[unclosed"), Err(ControlError::ConfigDecode));
}

#[test]
fn string_where_a_number_belongs_is_refused() {
    assert_eq!(decode_options("port = \"9000\""), Err(ControlError::ConfigDecode));
    assert_eq!(decode_options("workers = \"1\""), Err(ControlError::ConfigDecode));
    assert_eq!(decode_options("tb_capacity = true"), Err(ControlError::ConfigDecode));
}

#[test]
fn number_where_a_string_belongs_is_refused() {
    assert_eq!(decode_options("host = 1"), Err(ControlError::ConfigDecode));
    assert_eq!(decode_options("tls_cert = false"), Err(ControlError::ConfigDecode));
    assert_eq!(decode_options("tb_store_strategy = [\"mem\"]"), Err(ControlError::ConfigDecode));
}

#[test]
fn number_where_a_boolean_belongs_is_refused() {
    assert_eq!(decode_options("tb_enable = 1"), Err(ControlError::ConfigDecode));
    assert_eq!(decode_options("disable_webui = \"true\""), Err(ControlError::ConfigDecode));
}

#[test]
fn list_must_hold_strings_only() {
    assert_eq!(decode_options("proxies = [1, 2]"), Err(ControlError::ConfigDecode));
    assert_eq!(decode_options("proxies = \"http://a\""), Err(ControlError::ConfigDecode));
    assert_eq!(decode_options("tb_redis_url = [[\"a\"]]"), Err(ControlError::ConfigDecode));
    let mut expected = ServeArgs::new();
    expected.proxies = Some(vec![]);
    assert_eq!(decode_options("proxies = []"), Ok(expected));
}

#[test]
fn float_is_no_integer() {
    assert_eq!(decode_options("timeout = 1.0"), Err(ControlError::ConfigDecode));
}

#[test]
fn port_must_fit_sixteen_bits() {
    let mut lowest = ServeArgs::new();
    lowest.port = Some(0);
    assert_eq!(decode_options("port = 0"), Ok(lowest));
    let mut highest = ServeArgs::new();
    highest.port = Some(65535);
    assert_eq!(decode_options("port = 65535"), Ok(highest));
    assert_eq!(decode_options("port = 65536"), Err(ControlError::ConfigDecode));
    assert_eq!(decode_options("port = -1"), Err(ControlError::ConfigDecode));
}

#[test]
fn counts_must_not_be_negative() {
    assert_eq!(decode_options("workers = -1"), Err(ControlError::ConfigDecode));
    assert_eq!(decode_options("timeout = -600"), Err(ControlError::ConfigDecode));
    let mut expected = ServeArgs::new();
    expected.concurrent_limit = Some(9223372036854775807);
    assert_eq!(decode_options("concurrent_limit = 9223372036854775807"), Ok(expected));
}

#[test]
fn bucket_parameters_must_fit_thirty_two_bits() {
    let mut expected = ServeArgs::new();
    expected.tb_expired = Some(4294967295);
    assert_eq!(decode_options("tb_expired = 4294967295"), Ok(expected));
    assert_eq!(decode_options("tb_expired = 4294967296"), Err(ControlError::ConfigDecode));
    assert_eq!(decode_options("tb_fill_rate = -1"), Err(ControlError::ConfigDecode));
}

#[test]
fn parsed_table_is_read_key_by_key() {
    let mut table = toml::Table::new();
    table.insert("host".to_string(), toml::Value::String("::1".to_string()));
    table.insert("port".to_string(), toml::Value::Integer(443));
    table.insert("tb_enable".to_string(), toml::Value::Boolean(true));
    table.insert(
        "proxies".to_string(),
        toml::Value::Array(vec![toml::Value::String("http://p".to_string())]),
    );
    table.insert("unrelated".to_string(), toml::Value::Integer(7));
    let mut expected = ServeArgs::new();
    expected.host = Some("::1".to_string());
    expected.port = Some(443);
    expected.tb_enable = Some(true);
    expected.proxies = Some(vec!["http://p".to_string()]);
    assert_eq!(options_from_table(&table), Ok(expected));
}

#[test]
fn parsed_table_with_a_wrong_shape_is_refused() {
    let mut table = toml::Table::new();
    table.insert("port".to_string(), toml::Value::Boolean(true));
    assert_eq!(options_from_table(&table), Err(ControlError::ConfigDecode));
    let mut nested = toml::Table::new();
    nested.insert("host".to_string(), toml::Value::Table(toml::Table::new()));
    assert_eq!(options_from_table(&nested), Err(ControlError::ConfigDecode));
    let mut mixed = toml::Table::new();
    mixed.insert(
        "proxies".to_string(),
        toml::Value::Array(vec![toml::Value::String("a".to_string()), toml::Value::Integer(1)]),
    );
    assert_eq!(options_from_table(&mixed), Err(ControlError::ConfigDecode));
}

#[test]
fn options_without_a_file_settle_by_themselves() {
    let mut args = ServeArgs::new();
    args.port = Some(8000);
    let mut expected = documented_defaults();
    expected.port = 8000;
    assert_eq!(resolve(args, None), Ok(expected));
}

#[test]
fn file_is_not_looked_at_unless_named() {
    let mut args = ServeArgs::new();
    args.port = Some(8000);
    let mut expected = documented_defaults();
    expected.port = 8000;
    assert_eq!(resolve(args, file("port = 9000")), Ok(expected));
}

#[test]
fn file_port_replaces_command_line_port() {
    let mut args = with_config_path();
    args.port = Some(8000);
    let config = resolve(args, file("port = 9000\n")).unwrap();
    assert_eq!(config.port, 9000);
}

#[test]
fn file_replaces_the_options_wholly() {
    let mut args = every_option();
    args.port = Some(8000);
    let mut expected = documented_defaults();
    expected.port = 9000;
    assert_eq!(resolve(args, file("port = 9000\n")), Ok(expected));
}

#[test]
fn unreadable_file_fails_with_config_io() {
    assert_eq!(resolve(with_config_path(), None), Err(ControlError::ConfigIO));
    assert_eq!(resolve_from_file(None), Err(ControlError::ConfigIO));
}

#[test]
fn file_that_is_no_text_fails_with_config_decode() {
    assert_eq!(
        resolve(with_config_path(), Some(vec![b'p', b'=', 0xff])),
        Err(ControlError::ConfigDecode)
    );
}

#[test]
fn file_that_is_no_document_fails_with_config_decode() {
    assert_eq!(resolve(with_config_path(), file("port = = 1")), Err(ControlError::ConfigDecode));
    assert_eq!(resolve_from_file(file("port = \"x\"")), Err(ControlError::ConfigDecode));
}

#[test]
fn empty_file_resolves_to_the_defaults() {
    assert_eq!(resolve(with_config_path(), file("")), Ok(documented_defaults()));
}

#[test]
fn generated_scaffold_resolves_to_the_defaults() {
    let plan = plan_template(true, Destination::Default("/srv/app".to_string())).unwrap();
    assert_eq!(plan.len(), 1);
    let (path, content) = match &plan[0] {
        FileStep::WriteFile { path, content, .. } => (path.clone(), content.clone()),
        FileStep::CreateDirectories(_) => unreachable!(),
    };
    let mut args = ServeArgs::new();
    args.config = Some(path);
    args.port = Some(8000);
    let config = resolve(args, Some(content.into_bytes())).unwrap();
    assert_eq!(config.host, "0.0.0.0");
    assert_eq!(config.port, 7999);
    assert_eq!(config.workers, 1);
    assert_eq!(config.rate_limit.capacity, 60);
    assert_eq!(config.rate_limit.fill_rate, 1);
    assert_eq!(config.rate_limit.expiry, 86400);
    assert_eq!(config.rate_limit.store_strategy, "mem");
    assert_eq!(config, documented_defaults());
}
