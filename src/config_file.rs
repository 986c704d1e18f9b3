use vstd::prelude::*;

use crate::config_group::ConfigGroup;
use crate::error::{ConfigError, ConfigErrorV};
use crate::model::{file_wf, first_group_at, has_group, AttributeV, FileV, GroupV};

verus! {

/// A document: a path label and its groups, kept in the order they were added.
#[derive(PartialEq, Clone, Debug)]
pub struct ConfigFile {
    pub file_path: String,
    pub config_groups: Vec<ConfigGroup>,
}

/// The views of a sequence of groups.
pub open spec fn group_views(groups: Seq<ConfigGroup>) -> Seq<GroupV> {
    groups.map_values(|g: ConfigGroup| g@)
}

impl View for ConfigFile {
    type V = FileV;

    open spec fn view(&self) -> FileV {
        (self.file_path@, group_views(self.config_groups@))
    }
}

impl ConfigFile {
    /// An empty document with the given path label.
    pub fn new(file_path: String) -> (r: ConfigFile)
        ensures
            r@ == (file_path@, Seq::<GroupV>::empty()),
            file_wf(r@),
    {
        let r = ConfigFile { file_path, config_groups: Vec::new() };
        assert(group_views(r.config_groups@) =~= Seq::<GroupV>::empty());
        r
    }

    /// Position of the first group called `name`, if any.
    fn find_group(&self, name: &String) -> (r: Option<usize>)
        ensures
            r is None <==> !has_group(self@.1, name@),
            r matches Some(i) ==> first_group_at(self@.1, name@, i as int),
    {
        let ghost groups = self@.1;
        let mut i: usize = 0;
        while i < self.config_groups.len()
            invariant
                i <= self.config_groups@.len(),
                groups == self@.1,
                groups.len() == self.config_groups@.len(),
                forall|j: int| 0 <= j < i ==> #[trigger] groups[j].0 != name@,
            decreases self.config_groups@.len() - i,
        {
            let g = self.config_groups[i].group_name();
            if g == *name {
                assert(groups[i as int].0 == name@);
                return Some(i);
            }
            i = i + 1;
        }
        None
    }

    /// Appends an empty group called `grp_name`; the name must be non-empty
    /// and not yet taken.
    pub fn add_config_group(&mut self, grp_name: String) -> (r: Result<(), ConfigError>)
        ensures
            r is Ok <==> grp_name@.len() > 0 && !has_group(old(self)@.1, grp_name@),
            grp_name@.len() == 0 ==> (r matches Err(e) && e@ == ConfigErrorV::AddGroupNameEmpty),
            grp_name@.len() > 0 && has_group(old(self)@.1, grp_name@) ==> (r matches Err(e) && e@
                == (ConfigErrorV::GroupExists { group: grp_name@ })),
            r is Ok ==> final(self)@ == (
                old(self)@.0,
                old(self)@.1.push((grp_name@, Seq::<AttributeV>::empty())),
            ),
            r is Err ==> final(self)@ == old(self)@,
            file_wf(old(self)@) ==> file_wf(final(self)@),
    {
        if grp_name.as_str().is_empty() {
            return Err(ConfigError::AddGroupNameEmpty);
        }
        if self.find_group(&grp_name).is_some() {
            return Err(ConfigError::GroupExists { group: grp_name });
        }
        match ConfigGroup::new(grp_name) {
            Ok(g) => {
                let ghost gv = g@;
                self.config_groups.push(g);
                assert(group_views(self.config_groups@) =~= old(self)@.1.push(gv));
                Ok(())
            },
            Err(e) => Err(e),
        }
    }

    /// A copy of the first group called `grp_name`.
    pub fn get_config_group(&self, grp_name: String) -> (r: Result<ConfigGroup, ConfigError>)
        ensures
            r is Ok <==> grp_name@.len() > 0 && has_group(self@.1, grp_name@),
            grp_name@.len() == 0 ==> (r matches Err(e) && e@ == ConfigErrorV::GetGroupNameEmpty),
            grp_name@.len() > 0 && !has_group(self@.1, grp_name@) ==> (r matches Err(e) && e@
                == (ConfigErrorV::GroupNotFound { group: grp_name@ })),
            r matches Ok(g) ==> exists|i: int| first_group_at(self@.1, grp_name@, i) && g@ == self@.1[i],
    {
        if grp_name.as_str().is_empty() {
            return Err(ConfigError::GetGroupNameEmpty);
        }
        match self.find_group(&grp_name) {
            Some(i) => Ok(self.config_groups[i].duplicate()),
            None => Err(ConfigError::GroupNotFound { group: grp_name }),
        }
    }
}

} // verus!
