use vstd::prelude::*;

verus! {

/// An attribute as seen by the contracts: its name and its value.
pub type AttributeV = (Seq<char>, Seq<char>);

/// A group as seen by the contracts: its name and its attributes, in order.
pub type GroupV = (Seq<char>, Seq<AttributeV>);

/// A document as seen by the contracts: its path label and its groups, in order.
pub type FileV = (Seq<char>, Seq<GroupV>);

/// No two attributes of the sequence share a name.
pub open spec fn attribute_names_unique(attrs: Seq<AttributeV>) -> bool {
    forall|i: int, j: int| 0 <= i < j < attrs.len() ==> #[trigger] attrs[i].0 != #[trigger] attrs[j].0
}

/// Some attribute of the sequence is called `name`.
pub open spec fn has_attribute(attrs: Seq<AttributeV>, name: Seq<char>) -> bool {
    exists|i: int| 0 <= i < attrs.len() && #[trigger] attrs[i].0 == name
}

/// Position `i` holds the first attribute called `name`.
pub open spec fn first_attribute_at(attrs: Seq<AttributeV>, name: Seq<char>, i: int) -> bool {
    &&& 0 <= i < attrs.len()
    &&& attrs[i].0 == name
    &&& forall|j: int| 0 <= j < i ==> #[trigger] attrs[j].0 != name
}

/// No two groups of the sequence share a name.
pub open spec fn group_names_unique(groups: Seq<GroupV>) -> bool {
    forall|i: int, j: int| 0 <= i < j < groups.len() ==> #[trigger] groups[i].0 != #[trigger] groups[j].0
}

/// Some group of the sequence is called `name`.
pub open spec fn has_group(groups: Seq<GroupV>, name: Seq<char>) -> bool {
    exists|i: int| 0 <= i < groups.len() && #[trigger] groups[i].0 == name
}

/// Position `i` holds the first group called `name`.
pub open spec fn first_group_at(groups: Seq<GroupV>, name: Seq<char>, i: int) -> bool {
    &&& 0 <= i < groups.len()
    &&& groups[i].0 == name
    &&& forall|j: int| 0 <= j < i ==> #[trigger] groups[j].0 != name
}

/// A well-formed group: a non-empty name and attribute names that are unique.
pub open spec fn group_wf(g: GroupV) -> bool {
    g.0.len() > 0 && attribute_names_unique(g.1)
}

/// A well-formed document: well-formed groups whose names are unique.
pub open spec fn file_wf(f: FileV) -> bool {
    &&& group_names_unique(f.1)
    &&& forall|i: int| 0 <= i < f.1.len() ==> group_wf(#[trigger] f.1[i])
}

} // verus!
