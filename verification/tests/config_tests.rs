use mlua_bridge::config::{parse_config, AttrArg, AttrValue, Config, ConfigError, RenameRule};

fn word(key: &str) -> AttrArg {
    AttrArg { key: String::from(key), value: AttrValue::Word }
}

fn kv(key: &str, value: &str) -> AttrArg {
    AttrArg { key: String::from(key), value: AttrValue::Str(String::from(value)) }
}

#[test]
fn empty_attribute_gives_defaults() {
    let cfg = parse_config(&vec![]).unwrap();
    assert_eq!(cfg.rename_funcs, RenameRule::Identity);
    assert_eq!(cfg.rename_fields, RenameRule::Identity);
    assert!(!cfg.pub_only);
    assert!(!cfg.no_auto_fields);
    assert_eq!(cfg, Config::default());
}

#[test]
fn all_keys_parse() {
    let cfg = parse_config(&vec![
        kv("rename_funcs", "PascalCase"),
        kv("rename_fields", "camelCase"),
        word("pub_only"),
        word("no_auto_fields"),
    ])
    .unwrap();
    assert_eq!(cfg.rename_funcs, RenameRule::Pascal);
    assert_eq!(cfg.rename_fields, RenameRule::Camel);
    assert!(cfg.pub_only);
    assert!(cfg.no_auto_fields);
}

#[test]
fn every_rule_name_is_recognized() {
    let cases = [
        ("lowercase", RenameRule::Lower),
        ("PascalCase", RenameRule::Pascal),
        ("camelCase", RenameRule::Camel),
        ("snake_case", RenameRule::Snake),
        ("SCREAMING_SNAKE_CASE", RenameRule::ScreamingSnake),
        ("kebab-case", RenameRule::Kebab),
    ];
    for (name, rule) in cases {
        let cfg = parse_config(&vec![kv("rename_funcs", name)]).unwrap();
        assert_eq!(cfg.rename_funcs, rule);
    }
}

#[test]
fn unknown_key_is_rejected() {
    let r = parse_config(&vec![word("rename_functions")]);
    match r {
        Err(ConfigError::UnknownKey(k)) => assert_eq!(k, "rename_functions"),
        other => panic!("expected an unknown-key error, got {:?}", other),
    }
}

#[test]
fn duplicate_key_is_rejected() {
    let r = parse_config(&vec![word("pub_only"), word("pub_only")]);
    match r {
        Err(ConfigError::DuplicateKey(k)) => assert_eq!(k, "pub_only"),
        other => panic!("expected a duplicate-key error, got {:?}", other),
    }
}

#[test]
fn flag_with_value_is_rejected() {
    let r = parse_config(&vec![kv("pub_only", "true")]);
    match r {
        Err(ConfigError::BadValue(k)) => assert_eq!(k, "pub_only"),
        other => panic!("expected a bad-value error, got {:?}", other),
    }
}

#[test]
fn rule_key_as_bare_word_is_rejected() {
    let r = parse_config(&vec![word("rename_funcs")]);
    match r {
        Err(ConfigError::BadValue(k)) => assert_eq!(k, "rename_funcs"),
        other => panic!("expected a bad-value error, got {:?}", other),
    }
}

#[test]
fn unknown_rule_name_is_rejected() {
    let r = parse_config(&vec![kv("rename_fields", "PASCAL")]);
    match r {
        Err(ConfigError::UnknownRule(v)) => assert_eq!(v, "PASCAL"),
        other => panic!("expected an unknown-rule error, got {:?}", other),
    }
}

#[test]
fn first_error_wins() {
    let r = parse_config(&vec![word("bogus"), kv("rename_funcs", "PASCAL")]);
    match r {
        Err(ConfigError::UnknownKey(k)) => assert_eq!(k, "bogus"),
        other => panic!("expected the first argument's error, got {:?}", other),
    }
}
