use vstd::prelude::*;

use crate::config_attribute::ConfigAttribute;
use crate::error::{ConfigError, ConfigErrorV};
use crate::model::{first_attribute_at, group_wf, has_attribute, AttributeV, GroupV};

verus! {

/// A named group of attributes, kept in the order they were added.
#[derive(PartialEq, Clone, Debug)]
pub struct ConfigGroup {
    group_name: String,
    config_attributes: Vec<ConfigAttribute>,
}

/// The views of a sequence of attributes.
pub open spec fn attribute_views(attrs: Seq<ConfigAttribute>) -> Seq<AttributeV> {
    attrs.map_values(|a: ConfigAttribute| a@)
}

impl View for ConfigGroup {
    type V = GroupV;

    closed spec fn view(&self) -> GroupV {
        (self.group_name@, attribute_views(self.config_attributes@))
    }
}

impl ConfigGroup {
    /// Builds an empty group; the name must not be empty.
    pub fn new(grp_name: String) -> (r: Result<ConfigGroup, ConfigError>)
        ensures
            r is Ok <==> grp_name@.len() > 0,
            r matches Ok(g) ==> g@ == (grp_name@, Seq::<AttributeV>::empty()) && group_wf(g@),
            r matches Err(e) ==> e@ == ConfigErrorV::GroupNameEmpty,
    {
        if !grp_name.as_str().is_empty() {
            let g = ConfigGroup { group_name: grp_name, config_attributes: Vec::new() };
            assert(attribute_views(g.config_attributes@) =~= Seq::<AttributeV>::empty());
            Ok(g)
        } else {
            Err(ConfigError::GroupNameEmpty)
        }
    }

    /// Position of the first attribute called `name`, if any.
    fn find_attribute(&self, name: &String) -> (r: Option<usize>)
        ensures
            r is None <==> !has_attribute(self@.1, name@),
            r matches Some(i) ==> first_attribute_at(self@.1, name@, i as int),
    {
        let ghost attrs = self@.1;
        let mut i: usize = 0;
        while i < self.config_attributes.len()
            invariant
                i <= self.config_attributes@.len(),
                attrs == self@.1,
                attrs.len() == self.config_attributes@.len(),
                forall|j: int| 0 <= j < i ==> #[trigger] attrs[j].0 != name@,
            decreases self.config_attributes@.len() - i,
        {
            if self.config_attributes[i].name == *name {
                assert(attrs[i as int].0 == name@);
                return Some(i);
            }
            i = i + 1;
        }
        None
    }

    /// Appends an attribute, unless the group already holds one of that name.
    pub fn add_config_attribute(&mut self, config_att: ConfigAttribute) -> (r: Result<(), ConfigError>)
        ensures
            r is Err <==> has_attribute(old(self)@.1, config_att@.0),
            r is Ok ==> final(self)@ == (old(self)@.0, old(self)@.1.push(config_att@)),
            r matches Err(e) ==> final(self)@ == old(self)@ && e@ == (ConfigErrorV::AttributeExists {
                attribute: config_att@.0,
                group: old(self)@.0,
            }),
            group_wf(old(self)@) ==> group_wf(final(self)@),
    {
        match self.find_attribute(&config_att.name) {
            Some(_) => Err(
                ConfigError::AttributeExists {
                    attribute: config_att.name,
                    group: self.group_name.clone(),
                },
            ),
            None => {
                let ghost a = config_att@;
                self.config_attributes.push(config_att);
                assert(attribute_views(self.config_attributes@) =~= old(self)@.1.push(a));
                Ok(())
            },
        }
    }

    /// Replaces the first attribute that has the name of `updated_att`.
    pub fn update_config_attribute(&mut self, updated_att: ConfigAttribute) -> (r: Result<(), ConfigError>)
        ensures
            old(self)@.1.len() == 0 ==> (r matches Err(e) && e@ == (ConfigErrorV::NoAttributesToUpdate {
                group: old(self)@.0,
                attribute: updated_att@.0,
            })),
            old(self)@.1.len() > 0 && !has_attribute(old(self)@.1, updated_att@.0) ==> (r matches Err(e)
                && e@ == (ConfigErrorV::AttributeNotFound {
                group: old(self)@.0,
                attribute: updated_att@.0,
            })),
            has_attribute(old(self)@.1, updated_att@.0) ==> r is Ok,
            r is Ok ==> exists|i: int|
                first_attribute_at(old(self)@.1, updated_att@.0, i) && final(self)@ == (
                    old(self)@.0,
                    old(self)@.1.update(i, updated_att@),
                ),
            r is Err ==> final(self)@ == old(self)@,
            group_wf(old(self)@) ==> group_wf(final(self)@),
    {
        if self.config_attributes.len() == 0 {
            return Err(
                ConfigError::NoAttributesToUpdate {
                    group: self.group_name.clone(),
                    attribute: updated_att.name,
                },
            );
        }
        match self.find_attribute(&updated_att.name) {
            Some(i) => {
                let ghost a = updated_att@;
                self.config_attributes[i] = updated_att;
                assert(attribute_views(self.config_attributes@) =~= old(self)@.1.update(i as int, a));
                Ok(())
            },
            None => Err(
                ConfigError::AttributeNotFound {
                    group: self.group_name.clone(),
                    attribute: updated_att.name,
                },
            ),
        }
    }

    /// A copy of the first attribute called `att_name`.
    pub fn get_config_attribute(&self, att_name: String) -> (r: Result<ConfigAttribute, ()>)
        ensures
            r is Ok <==> has_attribute(self@.1, att_name@),
            r matches Ok(a) ==> exists|i: int|
                first_attribute_at(self@.1, att_name@, i) && a@ == self@.1[i],
    {
        match self.find_attribute(&att_name) {
            Some(i) => Ok(self.config_attributes[i].duplicate()),
            None => Err(()),
        }
    }

    /// The group's name.
    pub fn group_name(&self) -> (r: String)
        ensures
            r@ == self@.0,
    {
        self.group_name.clone()
    }

    /// A copy of the group's attributes, in order.
    pub fn config_attributes(&self) -> (r: Vec<ConfigAttribute>)
        ensures
            attribute_views(r@) == self@.1,
    {
        let mut out: Vec<ConfigAttribute> = Vec::new();
        let mut i: usize = 0;
        while i < self.config_attributes.len()
            invariant
                i <= self.config_attributes@.len(),
                out@.len() == i,
                forall|j: int| 0 <= j < i ==> #[trigger] out@[j]@ == self.config_attributes@[j]@,
            decreases self.config_attributes@.len() - i,
        {
            out.push(self.config_attributes[i].duplicate());
            i = i + 1;
        }
        assert(attribute_views(out@) =~= self@.1);
        out
    }

    /// A field-by-field copy.
    pub fn duplicate(&self) -> (r: ConfigGroup)
        ensures
            r@ == self@,
    {
        ConfigGroup { group_name: self.group_name.clone(), config_attributes: self.config_attributes() }
    }
}

} // verus!
