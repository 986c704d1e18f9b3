use vstd::prelude::*;
use vstd::string::*;

use crate::config_attribute::ConfigAttribute;
use crate::config_file::ConfigFile;
use crate::error::ConfigError;
use crate::line_format::{
    attribute_line_name, attribute_line_value, equals_index, first_equals_at, has_equals,
    header_name, is_group_header, parse_line_spec, parse_lines_spec,
};
use crate::model::{file_wf, group_wf, GroupV};

verus! {

/// The first `=` of a line is the one that `equals_index` picks.
pub proof fn lemma_equals_index(line: Seq<char>, k: int)
    requires
        first_equals_at(line, k),
    ensures
        equals_index(line) == k,
        has_equals(line),
{
    let j = equals_index(line);
    assert(first_equals_at(line, j));
    if j < k {
        assert(line[j] != '=');
    } else if k < j {
        assert(line[k] != '=');
    }
}

/// Reading a line keeps a document well-formed.
pub proof fn lemma_parse_line_keeps_wf(f: (Seq<char>, Seq<GroupV>), line: Seq<char>)
    requires
        file_wf(f),
        parse_line_spec(f, line) is Ok,
    ensures
        file_wf(parse_line_spec(f, line)->Ok_0),
{
    let g = parse_line_spec(f, line)->Ok_0;
    if is_group_header(line) {
        assert(group_wf(g.1.last()));
        assert forall|i: int| 0 <= i < g.1.len() implies group_wf(#[trigger] g.1[i]) by {
            if i < f.1.len() {
                assert(g.1[i] == f.1[i]);
            }
        }
    } else if has_equals(line) {
        let last = f.1.last();
        assert(group_wf(last));
        let n = g.1.len() - 1;
        assert(group_wf(g.1[n]));
        assert forall|i: int| 0 <= i < g.1.len() implies group_wf(#[trigger] g.1[i]) by {
            if i < n {
                assert(g.1[i] == f.1[i]);
            }
        }
    }
}

/// Position of the first `=` of the line, if any.
fn find_equals(line: &str) -> (r: Option<usize>)
    ensures
        r is None <==> !has_equals(line@),
        r matches Some(k) ==> first_equals_at(line@, k as int),
{
    let n = line.unicode_len();
    let mut i: usize = 0;
    while i < n
        invariant
            n == line@.len(),
            i <= n,
            forall|j: int| 0 <= j < i ==> line@[j] != '=',
        decreases n - i,
    {
        if line.get_char(i) == '=' {
            return Some(i);
        }
        i = i + 1;
    }
    None
}

/// Reads one line into the document: a group header opens a new group, an
/// attribute line adds to the last group, any other line is skipped.
pub fn parse_config_line(config_file: &mut ConfigFile, line: &String) -> (r: Result<(), ConfigError>)
    ensures
        r is Ok <==> parse_line_spec(old(config_file)@, line@) is Ok,
        r is Ok ==> final(config_file)@ == parse_line_spec(old(config_file)@, line@)->Ok_0,
        r matches Err(e) ==> e@ == parse_line_spec(old(config_file)@, line@)->Err_0
            && final(config_file)@ == old(config_file)@,
        file_wf(old(config_file)@) ==> file_wf(final(config_file)@),
{
    proof {
        if file_wf(old(config_file)@) && parse_line_spec(old(config_file)@, line@) is Ok {
            lemma_parse_line_keeps_wf(old(config_file)@, line@);
        }
    }
    let text = line.as_str();
    let n = text.unicode_len();
    if n >= 2 && text.get_char(0) == '[' && text.get_char(n - 1) == ']' {
        let name = String::from_str(text.substring_char(1, n - 1));
        assert(name@ == header_name(line@));
        if name.as_str().is_empty() {
            return Err(ConfigError::EmptyGroupHeader);
        }
        return config_file.add_config_group(name);
    }
    assert(!is_group_header(line@));
    let k = match find_equals(text) {
        None => {
            return Ok(());
        },
        Some(k) => k,
    };
    proof {
        lemma_equals_index(line@, k as int);
    }
    let mut name_end: usize = k;
    if k > 0 && text.get_char(k - 1) == ' ' {
        name_end = k - 1;
    }
    let mut value_start: usize = k + 1;
    if value_start < n && text.get_char(value_start) == ' ' {
        value_start = value_start + 1;
    }
    let name = String::from_str(text.substring_char(0, name_end));
    let value = String::from_str(text.substring_char(value_start, n));
    assert(name@ =~= attribute_line_name(line@));
    assert(value@ =~= attribute_line_value(line@));
    if config_file.config_groups.len() == 0 {
        return Err(ConfigError::UngroupedAttribute { line: line.clone() });
    }
    if name.as_str().is_empty() && value.as_str().is_empty() {
        return Err(ConfigError::EmptyAttributeNameAndValue { line: line.clone() });
    }
    if name.as_str().is_empty() {
        return Err(ConfigError::EmptyAttributeName { line: line.clone() });
    }
    if value.as_str().is_empty() {
        return Err(ConfigError::EmptyAttributeValue { line: line.clone() });
    }
    let attribute = ConfigAttribute { name, value };
    match config_file.config_groups.pop() {
        Some(mut group) => {
            let r = group.add_config_attribute(attribute);
            config_file.config_groups.push(group);
            proof {
                if r is Ok {
                    assert(config_file@.1 =~= old(config_file)@.1.update(
                        old(config_file)@.1.len() - 1,
                        group@,
                    ));
                } else {
                    assert(config_file@.1 =~= old(config_file)@.1);
                }
            }
            r
        },
        None => Ok(()),
    }
}

/// Reads all of `lines` in order into a new document labelled `file_path`;
/// the first error ends the reading.
pub fn parse_config_lines(file_path: String, lines: &Vec<String>) -> (r: Result<
    ConfigFile,
    ConfigError,
>)
    ensures
        r is Ok <==> parse_lines_spec(
            (file_path@, Seq::<GroupV>::empty()),
            lines@.map_values(|l: String| l@),
        ) is Ok,
        r matches Ok(f) ==> f@ == parse_lines_spec(
            (file_path@, Seq::<GroupV>::empty()),
            lines@.map_values(|l: String| l@),
        )->Ok_0 && file_wf(f@),
        r matches Err(e) ==> e@ == parse_lines_spec(
            (file_path@, Seq::<GroupV>::empty()),
            lines@.map_values(|l: String| l@),
        )->Err_0,
{
    let ghost all = lines@.map_values(|l: String| l@);
    let mut config_file = ConfigFile::new(file_path);
    let ghost start = config_file@;
    let mut i: usize = 0;
    assert(all.subrange(0, all.len() as int) =~= all);
    while i < lines.len()
        invariant
            i <= lines@.len(),
            all == lines@.map_values(|l: String| l@),
            start == (file_path@, Seq::<GroupV>::empty()),
            file_wf(config_file@),
            parse_lines_spec(start, all) == parse_lines_spec(
                config_file@,
                all.subrange(i as int, all.len() as int),
            ),
        decreases lines@.len() - i,
    {
        let ghost rest = all.subrange(i as int, all.len() as int);
        assert(rest[0] == lines@[i as int]@);
        assert(rest.drop_first() =~= all.subrange(i + 1, all.len() as int));
        match parse_config_line(&mut config_file, &lines[i]) {
            Ok(()) => {},
            Err(e) => {
                return Err(e);
            },
        }
        i = i + 1;
    }
    assert(all.subrange(i as int, all.len() as int) =~= Seq::<Seq<char>>::empty());
    Ok(config_file)
}

} // verus!
