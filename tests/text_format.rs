use lt_config::config_attribute::ConfigAttribute;
use lt_config::config_file::ConfigFile;
use lt_config::error::ConfigError;
use lt_config::parse::{parse_config_line, parse_config_lines};
use lt_config::serialize::{config_file_lines, config_file_text};

fn lines(text: &[&str]) -> Vec<String> {
    text.iter().map(|l| l.to_string()).collect()
}

fn attribute(name: &str, value: &str) -> ConfigAttribute {
    ConfigAttribute::new(name.to_string(), value.to_string()).unwrap()
}

fn sample() -> ConfigFile {
    let mut f = ConfigFile::new(format!("sample.txt"));
    f.add_config_group(format!("group1")).unwrap();
    f.add_config_group(format!("group2")).unwrap();
    f.config_groups[0].add_config_attribute(attribute("name1", "value1")).unwrap();
    f.config_groups[1].add_config_attribute(attribute("name2", "value2")).unwrap();
    f
}

#[test]
fn parses_group_with_two_attributes() {
    let f = parse_config_lines(format!("x"), &lines(&["[group1]", "name1=value1", "name2 = value2"])).unwrap();
    assert_eq!(f.config_groups.len(), 1);
    assert_eq!(f.config_groups[0].group_name(), "group1");
    assert_eq!(
        f.config_groups[0].config_attributes(),
        vec![attribute("name1", "value1"), attribute("name2", "value2")]
    );
    assert_eq!(f.file_path, "x");
}

#[test]
fn attribute_before_group_fails() {
    let e = parse_config_lines(format!("x"), &lines(&["name = value"])).unwrap_err();
    assert_eq!(e, ConfigError::UngroupedAttribute { line: format!("name = value") });
    assert_eq!(
        e.message(),
        "1lt_config error: get_config_from_file: a config attribute must be assigned to a group: name = value"
    );
}

#[test]
fn empty_group_header_fails() {
    let e = parse_config_lines(format!("x"), &lines(&["[]"])).unwrap_err();
    assert_eq!(e, ConfigError::EmptyGroupHeader);
    assert_eq!(e.message(), "1lt_config error: get_config_from_file: a group name can't be empty");
}

#[test]
fn other_lines_are_skipped() {
    let with = parse_config_lines(
        format!("x"),
        &lines(&["# foo", "", "[g]", "# comment", "a = 1", "", "[", "]", "[x", "b = 2"]),
    )
    .unwrap();
    let without = parse_config_lines(format!("x"), &lines(&["[g]", "a = 1", "b = 2"])).unwrap();
    assert_eq!(with, without);
}

#[test]
fn empty_input_gives_empty_file() {
    let f = parse_config_lines(format!("p"), &Vec::new()).unwrap();
    assert_eq!(f, ConfigFile::new(format!("p")));
}

#[test]
fn attribute_line_edge_cases() {
    let f = parse_config_lines(format!("x"), &lines(&["[g]", "a==b", "c  =  d", "e=f=g"])).unwrap();
    assert_eq!(
        f.config_groups[0].config_attributes(),
        vec![attribute("a", "=b"), attribute("c ", " d"), attribute("e", "f=g")]
    );
}

#[test]
fn attribute_line_errors() {
    let e = parse_config_lines(format!("x"), &lines(&["[g]", "= v"])).unwrap_err();
    assert_eq!(e, ConfigError::EmptyAttributeName { line: format!("= v") });
    assert_eq!(
        e.message(),
        "1lt_config error: get_config_from_file: config attribute name can't be empty: = v"
    );
    let e = parse_config_lines(format!("x"), &lines(&["[g]", "n ="])).unwrap_err();
    assert_eq!(e, ConfigError::EmptyAttributeValue { line: format!("n =") });
    assert_eq!(
        e.message(),
        "1lt_config error: get_config_from_file: config attribute value can't be empty: n ="
    );
    let e = parse_config_lines(format!("x"), &lines(&["[g]", " = "])).unwrap_err();
    assert_eq!(e, ConfigError::EmptyAttributeNameAndValue { line: format!(" = ") });
    assert_eq!(
        e.message(),
        "1lt_config error: get_config_from_file: nor config attribute name or value can be empty:  = "
    );
}

#[test]
fn duplicates_in_text_fail() {
    let e = parse_config_lines(format!("x"), &lines(&["[g]", "[g]"])).unwrap_err();
    assert_eq!(e, ConfigError::GroupExists { group: format!("g") });
    let e = parse_config_lines(format!("x"), &lines(&["[g]", "a = 1", "a = 2"])).unwrap_err();
    assert_eq!(e, ConfigError::AttributeExists { attribute: format!("a"), group: format!("g") });
}

#[test]
fn first_error_stops_reading() {
    let e = parse_config_lines(format!("x"), &lines(&["[g]", "=", "[]"])).unwrap_err();
    assert_eq!(e, ConfigError::EmptyAttributeNameAndValue { line: format!("=") });
}

#[test]
fn line_by_line_reading() {
    let mut f = ConfigFile::new(format!("x"));
    assert_eq!(parse_config_line(&mut f, &format!("[g]")), Ok(()));
    assert_eq!(parse_config_line(&mut f, &format!("k = v")), Ok(()));
    let before = f.clone();
    assert!(parse_config_line(&mut f, &format!("k = w")).is_err());
    assert_eq!(f, before);
    assert_eq!(f.get_config_group(format!("g")).unwrap().get_config_attribute(format!("k")).unwrap(), attribute("k", "v"));
}

#[test]
fn writes_canonical_layout() {
    let f = sample();
    assert_eq!(
        config_file_lines(&f),
        lines(&["[group1]", "name1 = value1", "", "[group2]", "name2 = value2"])
    );
    assert_eq!(
        config_file_text(&f),
        "[group1]\nname1 = value1\n\n[group2]\nname2 = value2\n"
    );
    assert_eq!(config_file_text(&ConfigFile::new(format!("e"))), "");
}

#[test]
fn written_lines_read_back_equal() {
    let f = sample();
    let back = parse_config_lines(f.file_path.clone(), &config_file_lines(&f)).unwrap();
    assert_eq!(back, f);
}

#[test]
fn written_text_read_back_after_update_differs() {
    let mut f = sample();
    let text = config_file_text(&f);
    let read: Vec<String> = text.lines().map(|l| l.to_string()).collect();
    let first = parse_config_lines(f.file_path.clone(), &read).unwrap();
    assert_eq!(first, f);

    f.config_groups[0].add_config_attribute(attribute("name3", "value3")).unwrap();
    let text = config_file_text(&f);
    let read: Vec<String> = text.lines().map(|l| l.to_string()).collect();
    let second = parse_config_lines(f.file_path.clone(), &read).unwrap();
    assert_ne!(first, second);
    assert_eq!(second, f);
}
