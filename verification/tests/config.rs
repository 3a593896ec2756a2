use rconcli::args::{split_address, Args};
use rconcli::cfg::{default_sources, parse_config, resolve, FileProbe};
use rconcli::effective::EffectiveConfig;
use rconcli::entry::{ConfigEntry, ConfigKey};
use rconcli::error::ConfigError;
use rconcli::file::{Document, FileSettings};
use rconcli::source::ConfigSource;

fn args(address: Option<&str>, password: Option<&str>, properties: Option<&str>) -> Args {
    Args {
        command: Vec::new(),
        properties: properties.map(String::from),
        address: address.map(String::from),
        password: password.map(String::from),
        no_color: false,
    }
}

fn value(config: &EffectiveConfig, key: ConfigKey) -> Option<String> {
    config.get_string(key)
}

fn triples(entries: &[ConfigEntry]) -> Vec<(ConfigKey, String, String)> {
    entries.iter().map(|e| (e.key, e.value.clone(), e.provenance.clone())).collect()
}

#[test]
fn command_line_address_wins_over_file() {
    let a = args(Some("5.6.7.8:9999"), None, None);
    let config = parse_config(&a, Some("server-ip=1.2.3.4\n"), None, None).unwrap();
    assert_eq!(value(&config, ConfigKey::ServerIp), Some("5.6.7.8".to_string()));
    assert_eq!(value(&config, ConfigKey::RconPort), Some("9999".to_string()));
    assert_eq!(config.address(), "5.6.7.8:9999");
    let entry = config.get(ConfigKey::ServerIp).unwrap();
    assert_eq!(entry.provenance, "command line arguments");
}

#[test]
fn password_alone_leaves_file_address() {
    let a = args(None, Some("x"), None);
    let config = parse_config(&a, Some("server-ip=1.2.3.4\n"), None, None).unwrap();
    assert_eq!(value(&config, ConfigKey::ServerIp), Some("1.2.3.4".to_string()));
    assert_eq!(value(&config, ConfigKey::RconPassword), Some("x".to_string()));
    assert_eq!(value(&config, ConfigKey::RconPort), None);
    assert_eq!(config.server_ip(), "1.2.3.4");
    assert_eq!(config.port(), "25575");
    assert_eq!(config.get(ConfigKey::ServerIp).unwrap().provenance, "config.ini");
}

#[test]
fn missing_required_properties_file_is_an_error() {
    let a = args(None, None, Some("server.properties"));
    let outcome = parse_config(&a, Some("server-ip=1.2.3.4\n"), None, None);
    match outcome {
        Err(ConfigError::Missing { origin }) => assert_eq!(origin, "server.properties"),
        other => panic!("unexpected outcome: {:?}", other),
    }
}

#[test]
fn missing_optional_files_are_passed_over() {
    let user = FileProbe { origin: "/home/u/.config/rconcli/config.ini".to_string(), text: None };
    let a = args(Some("mc.example.org"), Some("pw"), None);
    let config = parse_config(&a, None, Some(&user), None).unwrap();
    assert_eq!(config.server_ip(), "mc.example.org");
    assert_eq!(config.port(), "25575");
    assert_eq!(config.password(), Some("pw".to_string()));
}

#[test]
fn nothing_defined_gives_the_defaults() {
    let a = args(None, None, None);
    let config = parse_config(&a, None, None, None).unwrap();
    assert_eq!(value(&config, ConfigKey::ServerIp), None);
    assert_eq!(value(&config, ConfigKey::RconPort), None);
    assert_eq!(value(&config, ConfigKey::RconPassword), None);
    assert_eq!(config.server_ip(), "localhost");
    assert_eq!(config.port(), "25575");
    assert_eq!(config.password(), None);
    assert_eq!(config.address(), "localhost:25575");
}

#[test]
fn properties_text_is_ignored_unless_named() {
    let a = args(None, None, None);
    let config = parse_config(&a, None, None, Some("server-ip=9.9.9.9\n")).unwrap();
    assert_eq!(value(&config, ConfigKey::ServerIp), None);
}

#[test]
fn later_file_overrides_earlier_file_per_key() {
    let user = FileProbe {
        origin: "user.ini".to_string(),
        text: Some("[rcon]\npassword=from-user\n".to_string()),
    };
    let a = args(None, None, Some("server.properties"));
    let local = "server-ip=1.1.1.1\n[rcon]\nport=1000\npassword=from-local\n";
    let properties = "rcon.port=3000\n";
    let config = parse_config(&a, Some(local), Some(&user), Some(properties)).unwrap();
    assert_eq!(config.server_ip(), "1.1.1.1");
    assert_eq!(config.port(), "3000");
    assert_eq!(config.password(), Some("from-user".to_string()));
    assert_eq!(config.get(ConfigKey::RconPort).unwrap().provenance, "server.properties");
    assert_eq!(config.get(ConfigKey::RconPassword).unwrap().provenance, "user.ini");
    assert_eq!(config.get(ConfigKey::ServerIp).unwrap().provenance, "config.ini");
}

#[test]
fn document_reads_sections_and_top_level_keys() {
    let doc = Document::read(Some("server-ip = 10.0.0.1\n[rcon]\nport = 1234\npassword = secret\n"));
    match doc {
        Document::Parsed(settings) => {
            assert_eq!(settings.server_ip, Some("10.0.0.1".to_string()));
            assert_eq!(settings.port, Some("1234".to_string()));
            assert_eq!(settings.password, Some("secret".to_string()));
        }
        other => panic!("unexpected document: {:?}", other),
    }
}

#[test]
fn document_reads_flat_properties() {
    let text = "#Minecraft server properties\nenable-rcon=true\nrcon.password=abc\nrcon.port=25580\nserver-ip=10.0.0.2\n";
    match Document::read(Some(text)) {
        Document::Parsed(settings) => {
            assert_eq!(settings.server_ip, Some("10.0.0.2".to_string()));
            assert_eq!(settings.port, Some("25580".to_string()));
            assert_eq!(settings.password, Some("abc".to_string()));
        }
        other => panic!("unexpected document: {:?}", other),
    }
}

#[test]
fn section_key_wins_over_flat_key() {
    let text = "rcon.port=1\n[rcon]\nport=2\n";
    match Document::read(Some(text)) {
        Document::Parsed(settings) => assert_eq!(settings.port, Some("2".to_string())),
        other => panic!("unexpected document: {:?}", other),
    }
}

#[test]
fn unrecognised_keys_are_ignored() {
    let text = "motd=hello\n[rcon]\ntimeout=5\n[other]\nport=7\nserver-ip=8.8.8.8\n";
    match Document::read(Some(text)) {
        Document::Parsed(settings) => {
            assert_eq!(settings.server_ip, None);
            assert_eq!(settings.port, None);
            assert_eq!(settings.password, None);
        }
        other => panic!("unexpected document: {:?}", other),
    }
}

#[test]
fn empty_text_is_an_empty_document() {
    match Document::read(Some("")) {
        Document::Parsed(settings) => {
            assert_eq!(settings.server_ip, None);
            assert_eq!(settings.port, None);
            assert_eq!(settings.password, None);
            assert!(settings.entries("x").is_empty());
        }
        other => panic!("unexpected document: {:?}", other),
    }
}

#[test]
fn no_text_is_a_missing_document() {
    assert!(matches!(Document::read(None), Document::Missing));
}

#[test]
fn malformed_text_is_a_malformed_document() {
    match Document::read(Some("[rcon\nport=1\n")) {
        Document::Malformed { detail } => assert!(!detail.is_empty()),
        other => panic!("unexpected document: {:?}", other),
    }
    assert!(matches!(Document::read(Some("=value\n")), Document::Malformed { .. }));
}

#[test]
fn malformed_required_file_is_an_error() {
    let a = args(None, None, Some("server.properties"));
    match parse_config(&a, None, None, Some("=value\n")) {
        Err(ConfigError::Malformed { origin, detail }) => {
            assert_eq!(origin, "server.properties");
            assert!(!detail.is_empty());
        }
        other => panic!("unexpected outcome: {:?}", other),
    }
}

#[test]
fn malformed_optional_file_is_passed_over() {
    let a = args(Some("h:1"), None, None);
    let config = parse_config(&a, Some("=value\n"), None, None).unwrap();
    assert_eq!(config.address(), "h:1");
    assert_eq!(config.password(), None);
}

#[test]
fn document_collect_by_kind_and_requirement() {
    let missing = Document::Missing;
    assert!(missing.collect("f", false).unwrap().is_empty());
    assert!(matches!(missing.collect("f", true), Err(ConfigError::Missing { .. })));
    let malformed = Document::Malformed { detail: "1:1 missing key".to_string() };
    assert!(malformed.collect("f", false).unwrap().is_empty());
    match malformed.collect("f", true) {
        Err(ConfigError::Malformed { origin, detail }) => {
            assert_eq!(origin, "f");
            assert_eq!(detail, "1:1 missing key");
        }
        other => panic!("unexpected outcome: {:?}", other),
    }
    let parsed = Document::Parsed(FileSettings {
        server_ip: Some("a".to_string()),
        port: None,
        password: Some("p".to_string()),
    });
    let entries = parsed.collect("f", true).unwrap();
    assert_eq!(
        triples(&entries),
        vec![
            (ConfigKey::ServerIp, "a".to_string(), "f".to_string()),
            (ConfigKey::RconPassword, "p".to_string(), "f".to_string()),
        ]
    );
}

#[test]
fn file_settings_entries_in_order() {
    let settings = FileSettings {
        server_ip: Some("a".to_string()),
        port: Some("1".to_string()),
        password: Some("p".to_string()),
    };
    let entries = settings.entries("some.ini");
    assert_eq!(
        triples(&entries),
        vec![
            (ConfigKey::ServerIp, "a".to_string(), "some.ini".to_string()),
            (ConfigKey::RconPort, "1".to_string(), "some.ini".to_string()),
            (ConfigKey::RconPassword, "p".to_string(), "some.ini".to_string()),
        ]
    );
}

#[test]
fn error_messages() {
    let missing = ConfigError::Missing { origin: "server.properties".to_string() };
    assert_eq!(missing.message(), "configuration file server.properties not found");
    let malformed =
        ConfigError::Malformed { origin: "a.ini".to_string(), detail: "1:1 missing key".to_string() };
    assert_eq!(malformed.message(), "configuration file a.ini is malformed: 1:1 missing key");
}

#[test]
fn split_address_cases() {
    assert_eq!(split_address("host"), ("host".to_string(), None));
    assert_eq!(split_address("host:25575"), ("host".to_string(), Some("25575".to_string())));
    assert_eq!(split_address("host:"), ("host".to_string(), Some(String::new())));
    assert_eq!(split_address(":25"), (String::new(), Some("25".to_string())));
    assert_eq!(split_address(""), (String::new(), None));
    assert_eq!(split_address("a:b:c"), ("a".to_string(), Some("b:c".to_string())));
    assert_eq!(split_address(":"), (String::new(), Some(String::new())));
}

#[test]
fn args_collect_cases() {
    let origin = "command line arguments".to_string();
    assert!(args(None, None, None).collect().is_empty());
    assert!(args(Some(""), None, None).collect().is_empty());
    assert_eq!(
        triples(&args(Some("h"), None, None).collect()),
        vec![(ConfigKey::ServerIp, "h".to_string(), origin.clone())]
    );
    assert_eq!(
        triples(&args(Some("h:1"), Some("pw"), None).collect()),
        vec![
            (ConfigKey::RconPassword, "pw".to_string(), origin.clone()),
            (ConfigKey::ServerIp, "h".to_string(), origin.clone()),
            (ConfigKey::RconPort, "1".to_string(), origin.clone()),
        ]
    );
    assert_eq!(
        triples(&args(Some(":77"), None, None).collect()),
        vec![(ConfigKey::RconPort, "77".to_string(), origin.clone())]
    );
    assert_eq!(
        triples(&args(None, Some(""), None).collect()),
        vec![(ConfigKey::RconPassword, String::new(), origin.clone())]
    );
}

#[test]
fn resolve_stops_at_the_first_unusable_source() {
    let sources = vec![
        ConfigSource::File {
            origin: "first".to_string(),
            required: true,
            document: Document::Malformed { detail: "bad".to_string() },
        },
        ConfigSource::File { origin: "second".to_string(), required: true, document: Document::Missing },
        ConfigSource::Args { address: Some("h".to_string()), password: None },
    ];
    match resolve(&sources) {
        Err(ConfigError::Malformed { origin, .. }) => assert_eq!(origin, "first"),
        other => panic!("unexpected outcome: {:?}", other),
    }
}

#[test]
fn resolve_of_no_source_defines_nothing() {
    let config = resolve(&Vec::new()).unwrap();
    assert!(config.get(ConfigKey::ServerIp).is_none());
    assert!(config.get(ConfigKey::RconPort).is_none());
    assert!(config.get(ConfigKey::RconPassword).is_none());
}

#[test]
fn resolve_is_last_write_wins() {
    let file = |origin: &str, ip: &str| ConfigSource::File {
        origin: origin.to_string(),
        required: false,
        document: Document::Parsed(FileSettings {
            server_ip: Some(ip.to_string()),
            port: None,
            password: None,
        }),
    };
    let config = resolve(&vec![file("a", "1.1.1.1"), file("b", "2.2.2.2")]).unwrap();
    assert_eq!(config.server_ip(), "2.2.2.2");
    let config = resolve(&vec![file("b", "2.2.2.2"), file("a", "1.1.1.1")]).unwrap();
    assert_eq!(config.server_ip(), "1.1.1.1");
}

#[test]
fn default_sources_in_builtin_order() {
    let a = args(Some("h"), Some("p"), Some("server.properties"));
    let sources = default_sources(
        &a,
        Document::Missing,
        Some(("user.ini".to_string(), Document::Missing)),
        Document::Missing,
    );
    assert_eq!(sources.len(), 4);
    assert!(matches!(&sources[0], ConfigSource::File { origin, required: false, .. } if origin == "config.ini"));
    assert!(matches!(&sources[1], ConfigSource::File { origin, required: false, .. } if origin == "user.ini"));
    assert!(matches!(&sources[2], ConfigSource::File { origin, required: true, .. } if origin == "server.properties"));
    assert!(matches!(&sources[3], ConfigSource::Args { address: Some(h), password: Some(p) } if h == "h" && p == "p"));
    let sources = default_sources(&args(None, None, None), Document::Missing, None, Document::Missing);
    assert_eq!(sources.len(), 2);
    assert!(matches!(&sources[1], ConfigSource::Args { address: None, password: None }));
}

#[test]
fn set_and_merge_replace_per_key() {
    let mut config = EffectiveConfig::new();
    config.set(ConfigEntry::new(ConfigKey::ServerIp, "a", "one"));
    config.set(ConfigEntry::new(ConfigKey::RconPort, "1", "one"));
    config.merge(&vec![
        ConfigEntry::new(ConfigKey::ServerIp, "b", "two"),
        ConfigEntry::new(ConfigKey::ServerIp, "c", "two"),
    ]);
    assert_eq!(config.server_ip(), "c");
    assert_eq!(config.port(), "1");
    assert_eq!(config.password(), None);
}

#[test]
fn key_names() {
    assert_eq!(ConfigKey::ServerIp.name(), "server-ip");
    assert_eq!(ConfigKey::RconPort.name(), "rcon.port");
    assert_eq!(ConfigKey::RconPassword.name(), "rcon.password");
}

#[test]
fn a_copy_holds_the_same_entries() {
    let a = args(Some("h:1"), Some("p"), None);
    let config = parse_config(&a, None, None, None).unwrap();
    let copy = config.clone();
    assert_eq!(copy.address(), "h:1");
    assert_eq!(copy.password(), Some("p".to_string()));
    assert_eq!(copy.get(ConfigKey::RconPort).unwrap().provenance, "command line arguments");
}
