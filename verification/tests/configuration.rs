use occp_ws::config::{allowed_serial_numbers, is_whitespace_char, ConfigError, ServerConfig};
use occp_ws::state::{
    get_allowed_serial_numbers, load_allowed_serial_numbers, serial_is_allowed, AllowListStore,
};

fn strings(items: &[&str]) -> Vec<String> {
    items.iter().map(|s| s.to_string()).collect()
}

#[test]
fn socket_addr_joins_host_and_port() {
    let cfg = ServerConfig { addr: "127.0.0.1".to_string(), port: "8080".to_string() };
    assert_eq!(cfg.socket_addr(), "127.0.0.1:8080");
    let cfg = ServerConfig { addr: String::new(), port: String::new() };
    assert_eq!(cfg.socket_addr(), ":");
}

#[test]
fn from_env_needs_both_variables() {
    let cfg = ServerConfig::from_env(Some("0.0.0.0".to_string()), Some("9000".to_string()))
        .expect("both are set");
    assert_eq!(cfg.addr, "0.0.0.0");
    assert_eq!(cfg.port, "9000");
    assert_eq!(
        ServerConfig::from_env(None, Some("9000".to_string())).unwrap_err(),
        ConfigError::MissingAddr
    );
    assert_eq!(
        ServerConfig::from_env(Some("0.0.0.0".to_string()), None).unwrap_err(),
        ConfigError::MissingPort
    );
    assert_eq!(ServerConfig::from_env(None, None).unwrap_err(), ConfigError::MissingAddr);
}

#[test]
fn serial_numbers_are_split_trimmed_and_filtered() {
    assert_eq!(allowed_serial_numbers("SN-1,SN-2"), strings(&["SN-1", "SN-2"]));
    assert_eq!(allowed_serial_numbers(" SN-1 ,\tSN-2\n"), strings(&["SN-1", "SN-2"]));
    assert_eq!(allowed_serial_numbers("SN-1,,SN-2,"), strings(&["SN-1", "SN-2"]));
    assert_eq!(allowed_serial_numbers(",SN-1"), strings(&["SN-1"]));
    assert_eq!(allowed_serial_numbers("SN 1 , SN  2"), strings(&["SN 1", "SN  2"]));
    assert_eq!(allowed_serial_numbers("SN-1"), strings(&["SN-1"]));
    assert_eq!(allowed_serial_numbers("SN-1,SN-1"), strings(&["SN-1", "SN-1"]));
}

#[test]
fn empty_configuration_gives_no_serial_numbers() {
    assert!(allowed_serial_numbers("").is_empty());
    assert!(allowed_serial_numbers("   ").is_empty());
    assert!(allowed_serial_numbers(",").is_empty());
    assert!(allowed_serial_numbers(" , ,\t, ").is_empty());
}

#[test]
fn serial_numbers_agree_with_split_and_trim() {
    for raw in [
        "",
        " ",
        "a",
        "a,b",
        " a , b ",
        ",,",
        "a,,b",
        "\u{a0}SN\u{2003},\u{3000}x\u{3000}",
        "é, ü ,\u{85}",
        "a b,c\td",
        ",a,",
        "SN-allow",
    ] {
        let expected: Vec<String> = raw
            .split(',')
            .filter_map(|s| {
                let trimmed = s.trim();
                if trimmed.is_empty() {
                    None
                } else {
                    Some(trimmed.to_string())
                }
            })
            .collect();
        assert_eq!(allowed_serial_numbers(raw), expected, "for {raw:?}");
    }
}

#[test]
fn whitespace_is_unicode_white_space() {
    for code in 0..0x11000u32 {
        if let Some(c) = char::from_u32(code) {
            assert_eq!(is_whitespace_char(c), c.is_whitespace(), "for U+{code:04X}");
        }
    }
}

#[test]
fn store_is_empty_before_the_first_load() {
    let store = AllowListStore::new();
    assert!(get_allowed_serial_numbers(&store).is_none());
}

#[test]
fn store_is_loaded_once() {
    let mut store = AllowListStore::new();
    assert_eq!(
        *load_allowed_serial_numbers(&mut store, Some("SN-1, SN-2")),
        strings(&["SN-1", "SN-2"])
    );
    assert_eq!(get_allowed_serial_numbers(&store), Some(&strings(&["SN-1", "SN-2"])));
    assert_eq!(
        *load_allowed_serial_numbers(&mut store, Some("SN-3")),
        strings(&["SN-1", "SN-2"])
    );
    assert_eq!(*load_allowed_serial_numbers(&mut store, None), strings(&["SN-1", "SN-2"]));
    store.get_or_init(Some("SN-4"));
    assert_eq!(get_allowed_serial_numbers(&store), Some(&strings(&["SN-1", "SN-2"])));
}

#[test]
fn unreadable_configuration_disables_the_list() {
    let mut store = AllowListStore::new();
    assert!(load_allowed_serial_numbers(&mut store, None).is_empty());
    assert_eq!(get_allowed_serial_numbers(&store), Some(&Vec::new()));
    assert!(load_allowed_serial_numbers(&mut store, Some("SN-1")).is_empty());
}

#[test]
fn empty_list_admits_every_charger() {
    let allowed: Vec<String> = Vec::new();
    assert!(serial_is_allowed(&allowed, &None));
    assert!(serial_is_allowed(&allowed, &Some("SN-any".to_string())));
    assert!(serial_is_allowed(&allowed, &Some(String::new())));
}

#[test]
fn list_admits_its_members_only() {
    let allowed = strings(&["SN-allow", "SN-2"]);
    assert!(serial_is_allowed(&allowed, &Some("SN-allow".to_string())));
    assert!(serial_is_allowed(&allowed, &Some("SN-2".to_string())));
    assert!(!serial_is_allowed(&allowed, &Some("SN-deny".to_string())));
    assert!(!serial_is_allowed(&allowed, &Some("SN-allo".to_string())));
    assert!(!serial_is_allowed(&allowed, &Some("SN-allow ".to_string())));
    assert!(!serial_is_allowed(&allowed, &Some("sn-allow".to_string())));
    assert!(!serial_is_allowed(&allowed, &Some(String::new())));
    assert!(!serial_is_allowed(&allowed, &None));
}

#[test]
fn admission_goes_by_the_entries_as_a_set() {
    let first = strings(&["SN-1", "SN-2", "SN-1"]);
    let second = strings(&["SN-2", "SN-1"]);
    for serial in [None, Some("SN-1"), Some("SN-2"), Some("SN-3"), Some("")] {
        let serial = serial.map(|s| s.to_string());
        assert_eq!(serial_is_allowed(&first, &serial), serial_is_allowed(&second, &serial));
    }
}

#[test]
fn parsed_serial_numbers_are_trimmed_entries() {
    for raw in [" a ,, b,c ,", "\t\u{a0}x y\u{3000},", "one", " , "] {
        for entry in allowed_serial_numbers(raw) {
            assert!(!entry.is_empty());
            assert!(!entry.contains(','));
            assert_eq!(entry.trim(), entry);
        }
    }
}
