use vstd::prelude::*;
use vstd::string::*;

verus! {

/// What went wrong in an operation of the library, with the names involved.
#[derive(PartialEq, Clone, Debug)]
pub enum ConfigError {
    /// An attribute was built with an empty name and an empty value.
    AttributeEmpty,
    /// A group was built with an empty name.
    GroupNameEmpty,
    /// A group already holds an attribute of that name.
    AttributeExists { attribute: String, group: String },
    /// An update was asked of a group that holds no attribute.
    NoAttributesToUpdate { group: String, attribute: String },
    /// An update named an attribute that the group does not hold.
    AttributeNotFound { group: String, attribute: String },
    /// A group with an empty name was to be added to a document.
    AddGroupNameEmpty,
    /// The document already holds a group of that name.
    GroupExists { group: String },
    /// A group with an empty name was looked up.
    GetGroupNameEmpty,
    /// The document holds no group of that name.
    GroupNotFound { group: String },
    /// A line `[]` was read.
    EmptyGroupHeader,
    /// An attribute line was read before any group header.
    UngroupedAttribute { line: String },
    /// An attribute line with an empty name was read.
    EmptyAttributeName { line: String },
    /// An attribute line with an empty value was read.
    EmptyAttributeValue { line: String },
    /// An attribute line with an empty name and an empty value was read.
    EmptyAttributeNameAndValue { line: String },
}

/// A `ConfigError` as seen by the contracts.
pub ghost enum ConfigErrorV {
    AttributeEmpty,
    GroupNameEmpty,
    AttributeExists { attribute: Seq<char>, group: Seq<char> },
    NoAttributesToUpdate { group: Seq<char>, attribute: Seq<char> },
    AttributeNotFound { group: Seq<char>, attribute: Seq<char> },
    AddGroupNameEmpty,
    GroupExists { group: Seq<char> },
    GetGroupNameEmpty,
    GroupNotFound { group: Seq<char> },
    EmptyGroupHeader,
    UngroupedAttribute { line: Seq<char> },
    EmptyAttributeName { line: Seq<char> },
    EmptyAttributeValue { line: Seq<char> },
    EmptyAttributeNameAndValue { line: Seq<char> },
}

impl View for ConfigError {
    type V = ConfigErrorV;

    open spec fn view(&self) -> ConfigErrorV {
        match self {
            ConfigError::AttributeEmpty => ConfigErrorV::AttributeEmpty,
            ConfigError::GroupNameEmpty => ConfigErrorV::GroupNameEmpty,
            ConfigError::AttributeExists { attribute, group } =>
                ConfigErrorV::AttributeExists { attribute: attribute@, group: group@ },
            ConfigError::NoAttributesToUpdate { group, attribute } =>
                ConfigErrorV::NoAttributesToUpdate { group: group@, attribute: attribute@ },
            ConfigError::AttributeNotFound { group, attribute } =>
                ConfigErrorV::AttributeNotFound { group: group@, attribute: attribute@ },
            ConfigError::AddGroupNameEmpty => ConfigErrorV::AddGroupNameEmpty,
            ConfigError::GroupExists { group } => ConfigErrorV::GroupExists { group: group@ },
            ConfigError::GetGroupNameEmpty => ConfigErrorV::GetGroupNameEmpty,
            ConfigError::GroupNotFound { group } => ConfigErrorV::GroupNotFound { group: group@ },
            ConfigError::EmptyGroupHeader => ConfigErrorV::EmptyGroupHeader,
            ConfigError::UngroupedAttribute { line } => ConfigErrorV::UngroupedAttribute { line: line@ },
            ConfigError::EmptyAttributeName { line } => ConfigErrorV::EmptyAttributeName { line: line@ },
            ConfigError::EmptyAttributeValue { line } => ConfigErrorV::EmptyAttributeValue { line: line@ },
            ConfigError::EmptyAttributeNameAndValue { line } =>
                ConfigErrorV::EmptyAttributeNameAndValue { line: line@ },
        }
    }
}

/// The text shown to a user for an error.
pub open spec fn message_of(e: ConfigErrorV) -> Seq<char> {
    match e {
        ConfigErrorV::AttributeEmpty =>
            "1lt_config error: new ConfigAttribute: nor att_name or att_value can be empty"@,
        ConfigErrorV::GroupNameEmpty => "1lt_config error: new ConfigGroup: grp_name can't be empty"@,
        ConfigErrorV::AttributeExists { attribute, group } =>
            "1lt_config error: add_config_attribute: config name "@ + attribute
                + " already exists within config group "@ + group,
        ConfigErrorV::NoAttributesToUpdate { group, attribute } =>
            "1lt_config error: config group: "@ + group + " config attribute: "@ + attribute
                + " | There are no config attributes aviable to update (config attribute count is < 1)"@,
        ConfigErrorV::AttributeNotFound { group, attribute } =>
            "1lt_config error: config group: "@ + group + " config attribute: "@ + attribute
                + " | There is no config attribute with the name "@ + attribute
                + " in the config group "@ + group + " to update"@,
        ConfigErrorV::AddGroupNameEmpty => "1lt_config error: add_config_group: group name is empty"@,
        ConfigErrorV::GroupExists { group } =>
            "1lt_config error: add_config_group: group name "@ + group + " already exists"@,
        ConfigErrorV::GetGroupNameEmpty => "1lt_config error: get_config_group: group name is empty"@,
        ConfigErrorV::GroupNotFound { group } =>
            "1lt_config error: get_config_group: "@ + group + " not found"@,
        ConfigErrorV::EmptyGroupHeader =>
            "1lt_config error: get_config_from_file: a group name can't be empty"@,
        ConfigErrorV::UngroupedAttribute { line } =>
            "1lt_config error: get_config_from_file: a config attribute must be assigned to a group: "@
                + line,
        ConfigErrorV::EmptyAttributeName { line } =>
            "1lt_config error: get_config_from_file: config attribute name can't be empty: "@ + line,
        ConfigErrorV::EmptyAttributeValue { line } =>
            "1lt_config error: get_config_from_file: config attribute value can't be empty: "@ + line,
        ConfigErrorV::EmptyAttributeNameAndValue { line } =>
            "1lt_config error: get_config_from_file: nor config attribute name or value can be empty: "@
                + line,
    }
}

impl ConfigError {
    /// The text shown to a user for this error.
    pub fn message(&self) -> (r: String)
        ensures
            r@ == message_of(self@),
    {
        match self {
            ConfigError::AttributeEmpty => String::from_str(
                "1lt_config error: new ConfigAttribute: nor att_name or att_value can be empty",
            ),
            ConfigError::GroupNameEmpty => String::from_str(
                "1lt_config error: new ConfigGroup: grp_name can't be empty",
            ),
            ConfigError::AttributeExists { attribute, group } => {
                let mut s = String::from_str("1lt_config error: add_config_attribute: config name ");
                s.append(attribute.as_str());
                s.append(" already exists within config group ");
                s.append(group.as_str());
                s
            },
            ConfigError::NoAttributesToUpdate { group, attribute } => {
                let mut s = String::from_str("1lt_config error: config group: ");
                s.append(group.as_str());
                s.append(" config attribute: ");
                s.append(attribute.as_str());
                s.append(
                    " | There are no config attributes aviable to update (config attribute count is < 1)",
                );
                s
            },
            ConfigError::AttributeNotFound { group, attribute } => {
                let mut s = String::from_str("1lt_config error: config group: ");
                s.append(group.as_str());
                s.append(" config attribute: ");
                s.append(attribute.as_str());
                s.append(" | There is no config attribute with the name ");
                s.append(attribute.as_str());
                s.append(" in the config group ");
                s.append(group.as_str());
                s.append(" to update");
                s
            },
            ConfigError::AddGroupNameEmpty => String::from_str(
                "1lt_config error: add_config_group: group name is empty",
            ),
            ConfigError::GroupExists { group } => {
                let mut s = String::from_str("1lt_config error: add_config_group: group name ");
                s.append(group.as_str());
                s.append(" already exists");
                s
            },
            ConfigError::GetGroupNameEmpty => String::from_str(
                "1lt_config error: get_config_group: group name is empty",
            ),
            ConfigError::GroupNotFound { group } => {
                let mut s = String::from_str("1lt_config error: get_config_group: ");
                s.append(group.as_str());
                s.append(" not found");
                s
            },
            ConfigError::EmptyGroupHeader => String::from_str(
                "1lt_config error: get_config_from_file: a group name can't be empty",
            ),
            ConfigError::UngroupedAttribute { line } => {
                let mut s = String::from_str(
                    "1lt_config error: get_config_from_file: a config attribute must be assigned to a group: ",
                );
                s.append(line.as_str());
                s
            },
            ConfigError::EmptyAttributeName { line } => {
                let mut s = String::from_str(
                    "1lt_config error: get_config_from_file: config attribute name can't be empty: ",
                );
                s.append(line.as_str());
                s
            },
            ConfigError::EmptyAttributeValue { line } => {
                let mut s = String::from_str(
                    "1lt_config error: get_config_from_file: config attribute value can't be empty: ",
                );
                s.append(line.as_str());
                s
            },
            ConfigError::EmptyAttributeNameAndValue { line } => {
                let mut s = String::from_str(
                    "1lt_config error: get_config_from_file: nor config attribute name or value can be empty: ",
                );
                s.append(line.as_str());
                s
            },
        }
    }
}

} // verus!
