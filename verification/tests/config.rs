use zenoh_link_tls::config::{parse_bool, Config};

fn config(entries: &[(&str, &str)]) -> Config {
    Config { entries: entries.iter().map(|(k, v)| (k.to_string(), v.to_string())).collect() }
}

#[test]
fn booleans_are_read_strictly() {
    assert_eq!(parse_bool("true"), Some(true));
    assert_eq!(parse_bool("false"), Some(false));
    assert_eq!(parse_bool("True"), None);
    assert_eq!(parse_bool("true "), None);
    assert_eq!(parse_bool("1"), None);
    assert_eq!(parse_bool(""), None);
}

#[test]
fn values_are_found_by_name() {
    let c = config(&[("a", "1"), ("b", "2")]);
    assert_eq!(c.get("a"), Some("1"));
    assert_eq!(c.get("b"), Some("2"));
    assert_eq!(c.get("c"), None);
    assert_eq!(config(&[]).get("a"), None);
}

#[test]
fn the_first_value_of_a_name_counts() {
    let c = config(&[("b", "0"), ("a", "1"), ("a", "2")]);
    assert_eq!(c.get("a"), Some("1"));
}

#[test]
fn switches_are_off_unless_named() {
    let c = config(&[("on", "true"), ("off", "false"), ("odd", "yes")]);
    assert_eq!(c.switch("on"), Ok(true));
    assert_eq!(c.switch("off"), Ok(false));
    assert_eq!(c.switch("none"), Ok(false));
    assert_eq!(c.switch("odd"), Err("yes".to_string()));
}
