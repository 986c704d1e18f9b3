use vstd::prelude::*;

use crate::error::{ConfigError, ConfigErrorV};
use crate::model::AttributeV;

verus! {

/// A single `name = value` entry of a group.
#[derive(PartialEq, Clone, Debug)]
pub struct ConfigAttribute {
    pub name: String,
    pub value: String,
}

impl View for ConfigAttribute {
    type V = AttributeV;

    open spec fn view(&self) -> AttributeV {
        (self.name@, self.value@)
    }
}

impl ConfigAttribute {
    /// Builds an attribute; at least one of the name and the value must be
    /// non-empty.
    pub fn new(att_name: String, att_value: String) -> (r: Result<ConfigAttribute, ConfigError>)
        ensures
            r is Ok <==> (att_name@.len() > 0 || att_value@.len() > 0),
            r matches Ok(a) ==> a@ == (att_name@, att_value@),
            r matches Err(e) ==> e@ == ConfigErrorV::AttributeEmpty,
    {
        if !att_name.as_str().is_empty() || !att_value.as_str().is_empty() {
            Ok(ConfigAttribute { name: att_name, value: att_value })
        } else {
            Err(ConfigError::AttributeEmpty)
        }
    }

    /// A field-by-field copy.
    pub fn duplicate(&self) -> (r: ConfigAttribute)
        ensures
            r@ == self@,
    {
        ConfigAttribute { name: self.name.clone(), value: self.value.clone() }
    }
}

} // verus!
