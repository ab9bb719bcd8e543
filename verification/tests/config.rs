//! The rig config: its rules, its lookups and where it is found.

use banc::config::{
    AssistantConfig, ConfigError, InstrumentConfig, LeaseConfig, RigConfig, RigMeta, TargetConfig,
};
use banc::locate::{dangling_message, Place, Search};

fn text_at(table: &toml::Table, key: &str) -> Option<String> {
    table.get(key).map(|v| v.as_str().unwrap().to_string())
}

fn tables<'a>(table: &'a toml::Table, key: &str) -> Vec<&'a toml::Table> {
    match table.get(key) {
        Some(list) => list.as_array().unwrap().iter().map(|v| v.as_table().unwrap()).collect(),
        None => Vec::new(),
    }
}

fn parse(s: &str) -> RigConfig {
    let doc: toml::Table = toml::from_str(s).unwrap();
    let mut config = RigConfig::default();
    if let Some(rig) = doc.get("rig") {
        let rig = rig.as_table().unwrap();
        let lease = rig.get("lease").map(|l| LeaseConfig {
            addr: text_at(l.as_table().unwrap(), "addr").unwrap(),
            token_file: text_at(l.as_table().unwrap(), "token_file").unwrap(),
        });
        config.rig =
            RigMeta { name: text_at(rig, "name"), lock_file: text_at(rig, "lock_file"), lease };
    }
    if let Some(target) = doc.get("target") {
        let target = target.as_table().unwrap();
        config.target = Some(TargetConfig {
            chip: text_at(target, "chip").unwrap(),
            probe: text_at(target, "probe"),
            probe_host: text_at(target, "probe_host"),
            token_file: text_at(target, "token_file"),
        });
    }
    for a in tables(&doc, "assistant") {
        config.assistants.push(AssistantConfig {
            name: text_at(a, "name").unwrap(),
            serial: text_at(a, "serial"),
            product: text_at(a, "product"),
            addr: text_at(a, "addr"),
            token_file: text_at(a, "token_file"),
            unique_id: text_at(a, "unique_id"),
        });
    }
    for i in tables(&doc, "instrument") {
        config.instruments.push(InstrumentConfig {
            name: text_at(i, "name").unwrap(),
            kind: text_at(i, "kind").unwrap(),
            address: text_at(i, "address"),
            params: match i.get("params") {
                Some(p) => p.as_table().unwrap().clone(),
                None => toml::Table::new(),
            },
        });
    }
    config
}

#[test]
fn parses_full_config() {
    let cfg = parse(
        r#"
            [rig]
            name = "bench-1"

            [target]
            chip = "RP2350"
            probe = "2e8a:000c"

            [[assistant]]
            name = "a0"
            serial = "0123456789ABCDEF"

            [[instrument]]
            name = "att0"
            kind = "rcdat"
            address = "192.168.1.50:23"
            params = { max_db = 90.0 }
            "#,
    );
    assert_eq!(cfg.rig.name.as_deref(), Some("bench-1"));
    assert_eq!(cfg.target.as_ref().unwrap().chip, "RP2350");
    assert_eq!(cfg.assistant("a0").unwrap().serial.as_deref(), Some("0123456789ABCDEF"));
    assert_eq!(cfg.instrument("att0").unwrap().kind, "rcdat");
    assert!(cfg.assistant("nope").is_none());
    // Parameters are handed on as they are.
    let copy = cfg.clone();
    let params = &copy.instrument("att0").unwrap().params;
    assert_eq!(params.get("max_db").and_then(|v| v.as_float()), Some(90.0));
}

#[test]
fn empty_config_is_valid() {
    let cfg = parse("");
    assert!(cfg.target.is_none());
    assert!(cfg.assistants.is_empty());
    cfg.validate().unwrap();
}

#[test]
fn usb_assistant_without_serial_or_product_is_rejected() {
    let err = parse("[[assistant]]\nname = \"a0\"\n").validate().unwrap_err();
    assert!(err.to_string().contains("any attached device"), "{}", err.to_string());
}

#[test]
fn network_and_usb_fields_conflict() {
    let err = parse(
        "[[assistant]]\nname = \"a0\"\naddr = \"rig:9000\"\n\
             token_file = \"t\"\nserial = \"ABC\"\n",
    )
    .validate()
    .unwrap_err();
    assert!(err.to_string().contains("pick one transport"), "{}", err.to_string());
}

#[test]
fn network_assistant_needs_a_token() {
    let err = parse("[[assistant]]\nname = \"a0\"\naddr = \"rig:9000\"\n")
        .validate()
        .unwrap_err();
    assert!(err.to_string().contains("no token_file"), "{}", err.to_string());
}

#[test]
fn duplicate_names_are_rejected() {
    let err = parse(
        "[[assistant]]\nname = \"a0\"\nserial = \"A\"\n\
             [[assistant]]\nname = \"a0\"\nserial = \"B\"\n",
    )
    .validate()
    .unwrap_err();
    assert!(err.to_string().contains("duplicate assistant name"), "{}", err.to_string());
}

#[test]
fn bad_unique_id_is_rejected() {
    let err = parse("[[assistant]]\nname = \"a0\"\naddr = \"rig:9000\"\ntoken_file = \"t\"\nunique_id = \"xyz\"\n")
        .validate()
        .unwrap_err();
    assert!(err.to_string().contains("16 hex digits"), "{}", err.to_string());
}

#[test]
fn well_formed_network_assistant_validates() {
    parse(
        "[[assistant]]\nname = \"a0\"\naddr = \"rig:9000\"\n\
             token_file = \"t\"\nunique_id = \"0123456789ABCDEF\"\n",
    )
    .validate()
    .unwrap();
}

fn problem(s: &str) -> String {
    parse(s).validate().unwrap_err().to_string()
}

#[test]
fn every_problem_has_its_text() {
    assert_eq!(
        problem("[[assistant]]\nname = \" \"\nserial = \"A\"\n"),
        "assistant with an empty name"
    );
    assert_eq!(
        problem("[[instrument]]\nname = \"\"\nkind = \"k\"\n"),
        "instrument with an empty name"
    );
    assert_eq!(
        problem("[[instrument]]\nname = \"i\"\nkind = \"k\"\n[[instrument]]\nname = \"i\"\nkind = \"l\"\n"),
        "duplicate instrument name 'i'"
    );
    assert_eq!(
        problem("[[assistant]]\nname = \"a\"\naddr = \"\\t\"\ntoken_file = \"t\"\n"),
        "assistant 'a' has an empty addr"
    );
    assert_eq!(
        problem("[[assistant]]\nname = \"a\"\nserial = \"S\"\ntoken_file = \"t\"\n"),
        "USB assistant 'a' has a token_file but no addr to use it with"
    );
    assert_eq!(
        problem("[[assistant]]\nname = \"a\"\nserial = \"S\"\nunique_id = \"0123456789abcdeg\"\n"),
        "assistant 'a' unique_id '0123456789abcdeg' must be 16 hex digits"
    );
    assert_eq!(
        problem("[rig.lease]\naddr = \"\"\ntoken_file = \"t\"\n"),
        "rig lease has an empty addr"
    );
    assert_eq!(
        problem("[[assistant]]\nname = \"a\"\naddr = \"h:1\"\nproduct = \"P\"\n"),
        "assistant 'a' sets addr and USB serial/product; pick one transport"
    );
}

#[test]
fn one_constraint_is_enough_for_usb() {
    parse("[[assistant]]\nname = \"a\"\nproduct = \"banc-assistant\"\n").validate().unwrap();
    let cfg = parse("[[assistant]]\nname = \"a\"\nserial = \"S\"\n");
    cfg.validate().unwrap();
    assert!(!cfg.assistants[0].is_network());
    assert!(parse("[[assistant]]\nname = \"a\"\naddr = \"h:1\"\n").assistants[0].is_network());
}

#[test]
fn an_entry_is_checked_on_its_own() {
    let cfg = parse("[[assistant]]\nname = \"a\"\n");
    assert!(matches!(cfg.assistants[0].check(), Err(ConfigError::UnconstrainedUsb(_))));
}

#[test]
fn the_environment_names_the_config() {
    let search = RigConfig::locate(Some("/etc/rig.toml".to_string()));
    match search.next(true, true) {
        Search::Found(Place::Env(path)) => assert_eq!(path, "/etc/rig.toml"),
        other => panic!("unexpected: {other:?}"),
    }
    match RigConfig::locate(Some("/gone".to_string())).next(false, true) {
        Search::Dangling(path) => assert_eq!(
            dangling_message(&path),
            "BANC_RIG points at /gone which does not exist"
        ),
        other => panic!("unexpected: {other:?}"),
    }
}

#[test]
fn the_nearest_ancestor_has_the_config() {
    let search = RigConfig::locate(None);
    let search = search.next(false, true);
    let search = search.next(false, true);
    assert!(matches!(search.next(true, true), Search::Found(Place::Ancestor(2))));
    let search = RigConfig::locate(None).next(false, true);
    assert!(matches!(search.next(false, false), Search::NoRig));
}

#[test]
fn loading_checks_the_config() {
    let ok = RigConfig::load("p".to_string(), Ok(parse("[rig]\nname = \"n\"\n"))).unwrap();
    assert_eq!(ok.rig.name.as_deref(), Some("n"));
    let e = RigConfig::load("p".to_string(), Err("bad line".to_string())).unwrap_err();
    assert_eq!(e.to_string(), "parsing p: bad line");
    let bad = parse("[[assistant]]\nname = \"a0\"\n");
    let e = RigConfig::load("p".to_string(), Ok(bad)).unwrap_err();
    assert_eq!(
        e.to_string(),
        "invalid rig config p: USB assistant 'a0' has neither serial nor product; \
         that matches any attached device"
    );
}
