use vstd::prelude::*;

use crate::error::ConfigErrorV;
use crate::model::{has_attribute, has_group, AttributeV, FileV, GroupV};

verus! {

/// A group header: at least two characters, the first `[` and the last `]`.
pub open spec fn is_group_header(line: Seq<char>) -> bool {
    line.len() >= 2 && line[0] == '[' && line[line.len() - 1] == ']'
}

/// What stands between the brackets of a group header.
pub open spec fn header_name(line: Seq<char>) -> Seq<char> {
    line.subrange(1, line.len() - 1)
}

/// The line holds an `=`.
pub open spec fn has_equals(line: Seq<char>) -> bool {
    exists|i: int| 0 <= i < line.len() && line[i] == '='
}

/// Position `i` holds the first `=` of the line.
pub open spec fn first_equals_at(line: Seq<char>, i: int) -> bool {
    &&& 0 <= i < line.len()
    &&& line[i] == '='
    &&& forall|j: int| 0 <= j < i ==> line[j] != '='
}

/// Position of the first `=` of a line that has one.
pub open spec fn equals_index(line: Seq<char>) -> int {
    choose|i: int| first_equals_at(line, i)
}

/// The name of an attribute line: what stands before the first `=`, less one
/// trailing space.
pub open spec fn attribute_line_name(line: Seq<char>) -> Seq<char> {
    let raw = line.subrange(0, equals_index(line));
    if raw.len() > 0 && raw[raw.len() - 1] == ' ' {
        raw.drop_last()
    } else {
        raw
    }
}

/// The value of an attribute line: what stands after the first `=`, less one
/// leading space.
pub open spec fn attribute_line_value(line: Seq<char>) -> Seq<char> {
    let raw = line.subrange(equals_index(line) + 1, line.len() as int);
    if raw.len() > 0 && raw[0] == ' ' {
        raw.drop_first()
    } else {
        raw
    }
}

/// The document after one more line has been read, or the error that the line
/// raises. A group is open once the document holds one; attributes go to the
/// last group.
pub open spec fn parse_line_spec(f: FileV, line: Seq<char>) -> Result<FileV, ConfigErrorV> {
    if is_group_header(line) {
        let name = header_name(line);
        if name.len() == 0 {
            Err(ConfigErrorV::EmptyGroupHeader)
        } else if has_group(f.1, name) {
            Err(ConfigErrorV::GroupExists { group: name })
        } else {
            Ok((f.0, f.1.push((name, Seq::<AttributeV>::empty()))))
        }
    } else if has_equals(line) {
        let name = attribute_line_name(line);
        let value = attribute_line_value(line);
        if f.1.len() == 0 {
            Err(ConfigErrorV::UngroupedAttribute { line })
        } else if name.len() == 0 && value.len() == 0 {
            Err(ConfigErrorV::EmptyAttributeNameAndValue { line })
        } else if name.len() == 0 {
            Err(ConfigErrorV::EmptyAttributeName { line })
        } else if value.len() == 0 {
            Err(ConfigErrorV::EmptyAttributeValue { line })
        } else {
            let last = f.1.last();
            if has_attribute(last.1, name) {
                Err(ConfigErrorV::AttributeExists { attribute: name, group: last.0 })
            } else {
                Ok((f.0, f.1.update(f.1.len() - 1, (last.0, last.1.push((name, value))))))
            }
        }
    } else {
        Ok(f)
    }
}

/// The document after all of `lines` have been read in order, starting from
/// `f`, or the first error raised.
pub open spec fn parse_lines_spec(f: FileV, lines: Seq<Seq<char>>) -> Result<FileV, ConfigErrorV>
    decreases lines.len(),
{
    if lines.len() == 0 {
        Ok(f)
    } else {
        match parse_line_spec(f, lines[0]) {
            Ok(g) => parse_lines_spec(g, lines.drop_first()),
            Err(e) => Err(e),
        }
    }
}

/// The line that introduces a group: `[name]`.
pub open spec fn header_line(name: Seq<char>) -> Seq<char> {
    seq!['['] + name + seq![']']
}

/// The line that holds an attribute: `name = value`.
pub open spec fn attribute_line(a: AttributeV) -> Seq<char> {
    a.0 + seq![' ', '=', ' '] + a.1
}

/// The lines of one group: its header, then one line per attribute.
pub open spec fn group_lines(g: GroupV) -> Seq<Seq<char>> {
    seq![header_line(g.0)] + g.1.map_values(|a: AttributeV| attribute_line(a))
}

/// The lines of a sequence of groups, with an empty line between two groups.
pub open spec fn groups_lines(groups: Seq<GroupV>) -> Seq<Seq<char>>
    decreases groups.len(),
{
    if groups.len() == 0 {
        Seq::empty()
    } else if groups.len() == 1 {
        group_lines(groups[0])
    } else {
        groups_lines(groups.drop_last()) + seq![Seq::<char>::empty()] + group_lines(groups.last())
    }
}

} // verus!
