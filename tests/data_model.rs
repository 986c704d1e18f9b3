use lt_config::config_attribute::ConfigAttribute;
use lt_config::config_file::ConfigFile;
use lt_config::config_group::ConfigGroup;
use lt_config::error::ConfigError;

fn attribute(name: &str, value: &str) -> ConfigAttribute {
    ConfigAttribute::new(name.to_string(), value.to_string()).unwrap()
}

#[test]
fn error_add_config_group_name_already_exists() {
    let mut cfile: ConfigFile = ConfigFile::new(format!("asdf"));
    let _ = cfile.add_config_group(format!("a"));
    assert_eq!(
        cfile.add_config_group(format!("a")).map_err(|e| e.message()),
        Err(format!("1lt_config error: add_config_group: group name a already exists"))
    )
}

#[test]
fn error_add_config_group_name_empty() {
    let mut cfile: ConfigFile = ConfigFile::new(format!("asdf"));
    assert_eq!(
        cfile.add_config_group(format!("")).map_err(|e| e.message()),
        Err(format!("1lt_config error: add_config_group: group name is empty"))
    )
}

#[test]
fn error_get_config_group_not_found() {
    let mut cfile: ConfigFile = ConfigFile::new(format!("asdf"));
    let _ = cfile.add_config_group(format!("a"));
    assert_eq!(
        cfile.get_config_group(format!("b")).map_err(|e| e.message()),
        Err(format!("1lt_config error: get_config_group: b not found"))
    )
}

#[test]
fn error_get_config_group_name_empty() {
    let cfile: ConfigFile = ConfigFile::new(format!("asdf"));
    assert_eq!(
        cfile.get_config_group(format!("")).map_err(|e| e.message()),
        Err(format!("1lt_config error: get_config_group: group name is empty"))
    )
}

#[test]
fn get_config_group() {
    let mut cfile: ConfigFile = ConfigFile::new(format!("asdf"));
    let _ = cfile.add_config_group(format!("a"));
    let _ = cfile.add_config_group(format!("b"));
    let _ = cfile.add_config_group(format!("c"));
    let cgroup: ConfigGroup = ConfigGroup::new(format!("b")).unwrap();
    assert_eq!(cfile.get_config_group(format!("b")).unwrap(), cgroup)
}

#[test]
fn error_config_group_update_attribute_count_below_one() {
    let mut cfggrp = ConfigGroup::new(format!("grp_name")).unwrap();
    assert_eq!(
        cfggrp
            .update_config_attribute(ConfigAttribute::new(format!("att_name"), format!("att_value")).unwrap())
            .map_err(|e| e.message()),
        Err(format!("1lt_config error: config group: grp_name config attribute: att_name | There are no config attributes aviable to update (config attribute count is < 1)"))
    );
}

#[test]
fn error_config_group_update_attribute_not_found() {
    let mut cfggrp = ConfigGroup::new(format!("grp_name")).unwrap();
    let _ = cfggrp.add_config_attribute(ConfigAttribute::new(format!("att_name"), format!("att_value")).unwrap());
    assert_eq!(
        cfggrp
            .update_config_attribute(ConfigAttribute::new(format!("att_name2"), format!("att_value2")).unwrap())
            .map_err(|e| e.message()),
        Err(format!("1lt_config error: config group: grp_name config attribute: att_name2 | There is no config attribute with the name att_name2 in the config group grp_name to update"))
    );
}

#[test]
fn find_attribute_in_group() {
    let mut cfggrp = ConfigGroup::new(format!("grp_name")).unwrap();
    let cfgatt1 = ConfigAttribute::new(format!("att_name1"), format!("att_value1")).unwrap();
    let cfgatt2 = ConfigAttribute::new(format!("att_name2"), format!("att_value2")).unwrap();
    let cfgatt3 = ConfigAttribute::new(format!("att_name3"), format!("att_value3")).unwrap();
    let _ = cfggrp.add_config_attribute(cfgatt1);
    let _ = cfggrp.add_config_attribute(cfgatt2.clone());
    let _ = cfggrp.add_config_attribute(cfgatt3);
    assert_eq!(cfggrp.get_config_attribute(format!("att_name2")).unwrap(), cfgatt2)
}

#[test]
fn update_attribute() {
    let mut cfggrp = ConfigGroup::new(format!("grp_name")).unwrap();
    let cfgatt1 = ConfigAttribute::new(format!("att_name1"), format!("att_value1")).unwrap();
    let cfgatt2 = ConfigAttribute::new(format!("att_name2"), format!("att_value2")).unwrap();
    let mut cfgatt3 = ConfigAttribute::new(format!("att_name3"), format!("att_value3")).unwrap();
    let _ = cfggrp.add_config_attribute(cfgatt1);
    let _ = cfggrp.add_config_attribute(cfgatt2);
    let _ = cfggrp.add_config_attribute(cfgatt3.clone());
    cfgatt3 = ConfigAttribute::new(format!("att_name3"), format!("att_value4")).unwrap();
    match cfggrp.update_config_attribute(cfgatt3.clone()) {
        Ok(()) => {}
        Err(error) => panic!("{}", error.message()),
    };
    assert_eq!(cfggrp.get_config_attribute(format!("att_name3")).unwrap(), cfgatt3)
}

#[test]
fn attribute_needs_name_or_value() {
    assert_eq!(
        ConfigAttribute::new(String::new(), String::new()).map_err(|e| e.message()),
        Err(format!("1lt_config error: new ConfigAttribute: nor att_name or att_value can be empty"))
    );
    // The constructor keeps the looser rule: one of the two may be empty.
    // Only the parser asks for both.
    assert_eq!(attribute("", "v").value, "v");
    assert_eq!(attribute("n", "").name, "n");
}

#[test]
fn group_name_must_not_be_empty() {
    let e = ConfigGroup::new(String::new()).unwrap_err();
    assert_eq!(e, ConfigError::GroupNameEmpty);
    assert_eq!(e.message(), "1lt_config error: new ConfigGroup: grp_name can't be empty");
    assert_eq!(ConfigGroup::new(format!("g")).unwrap().group_name(), "g");
}

#[test]
fn duplicate_attribute_is_refused() {
    let mut g = ConfigGroup::new(format!("grp")).unwrap();
    assert_eq!(g.add_config_attribute(attribute("a", "1")), Ok(()));
    let e = g.add_config_attribute(attribute("a", "2")).unwrap_err();
    assert_eq!(
        e.message(),
        "1lt_config error: add_config_attribute: config name a already exists within config group grp"
    );
    assert_eq!(g.config_attributes(), vec![attribute("a", "1")]);
}

#[test]
fn duplicate_group_is_refused_and_file_unchanged() {
    let mut f = ConfigFile::new(format!("p"));
    assert_eq!(f.add_config_group(format!("a")), Ok(()));
    let before = f.clone();
    assert_eq!(
        f.add_config_group(format!("a")),
        Err(ConfigError::GroupExists { group: format!("a") })
    );
    assert_eq!(f, before);
    assert_eq!(f.config_groups.len(), 1);
}

#[test]
fn update_keeps_other_attributes_and_order() {
    let mut g = ConfigGroup::new(format!("grp")).unwrap();
    let _ = g.add_config_attribute(attribute("a", "1"));
    let _ = g.add_config_attribute(attribute("b", "2"));
    let _ = g.add_config_attribute(attribute("c", "3"));
    assert_eq!(g.update_config_attribute(attribute("b", "20")), Ok(()));
    assert_eq!(
        g.config_attributes(),
        vec![attribute("a", "1"), attribute("b", "20"), attribute("c", "3")]
    );
    assert_eq!(g.get_config_attribute(format!("zz")), Err(()));
}

#[test]
fn attributes_are_a_copy() {
    let mut g = ConfigGroup::new(format!("grp")).unwrap();
    let _ = g.add_config_attribute(attribute("a", "1"));
    let mut copy = g.config_attributes();
    copy[0].value = format!("changed");
    assert_eq!(g.get_config_attribute(format!("a")).unwrap(), attribute("a", "1"));
}
