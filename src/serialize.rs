use vstd::prelude::*;
use vstd::string::*;

use crate::config_file::ConfigFile;
use crate::config_group::attribute_views;
use crate::line_format::{attribute_line, groups_lines, header_line};
use crate::model::AttributeV;

verus! {

/// The views of a sequence of lines.
pub open spec fn line_views(lines: Seq<String>) -> Seq<Seq<char>> {
    lines.map_values(|l: String| l@)
}

/// The text made of `lines`, each ended by a newline.
pub open spec fn lines_text(lines: Seq<Seq<char>>) -> Seq<char>
    decreases lines.len(),
{
    if lines.len() == 0 {
        Seq::empty()
    } else {
        lines_text(lines.drop_last()) + lines.last() + seq!['\n']
    }
}

/// The lines that hold a document: for each group in order its header
/// `[name]` and one line `name = value` per attribute, with an empty line
/// between two groups.
pub fn config_file_lines(config_file: &ConfigFile) -> (r: Vec<String>)
    ensures
        line_views(r@) == groups_lines(config_file@.1),
{
    let ghost groups = config_file@.1;
    let mut out: Vec<String> = Vec::new();
    let mut i: usize = 0;
    assert(line_views(out@) =~= groups_lines(groups.subrange(0, 0)));
    while i < config_file.config_groups.len()
        invariant
            groups == config_file@.1,
            groups.len() == config_file.config_groups@.len(),
            i <= groups.len(),
            line_views(out@) == groups_lines(groups.subrange(0, i as int)),
        decreases groups.len() - i,
    {
        let ghost before = line_views(out@);
        let ghost g = groups[i as int];
        let group = &config_file.config_groups[i];
        if i > 0 {
            out.push(String::new());
        }
        let ghost prefix = line_views(out@);
        assert(i > 0 ==> prefix =~= before + seq![Seq::<char>::empty()]);
        assert(i == 0 ==> prefix =~= before);
        let mut header = String::from_str("[");
        header.append(group.group_name().as_str());
        header.append("]");
        proof {
            reveal_strlit("[");
            reveal_strlit("]");
            assert(header@ =~= header_line(g.0));
        }
        out.push(header);
        let attrs = group.config_attributes();
        let ghost av = attribute_views(attrs@);
        assert(av == g.1);
        let mut j: usize = 0;
        assert(line_views(out@) =~= prefix + seq![header_line(g.0)] + av.subrange(0, 0).map_values(
            |a: AttributeV| attribute_line(a),
        ));
        while j < attrs.len()
            invariant
                j <= attrs@.len(),
                av == attribute_views(attrs@),
                line_views(out@) == prefix + seq![header_line(g.0)] + av.subrange(0, j as int).map_values(
                    |a: AttributeV| attribute_line(a),
                ),
            decreases attrs@.len() - j,
        {
            let mut line = attrs[j].name.clone();
            line.append(" = ");
            line.append(attrs[j].value.as_str());
            proof {
                reveal_strlit(" = ");
                assert(av[j as int] == attrs@[j as int]@);
                assert(line@ =~= attribute_line(av[j as int]));
            }
            let ghost old_out = line_views(out@);
            out.push(line);
            assert(line_views(out@) =~= old_out.push(attribute_line(av[j as int])));
            assert(av.subrange(0, j + 1).map_values(|a: AttributeV| attribute_line(a)) =~= av.subrange(
                0,
                j as int,
            ).map_values(|a: AttributeV| attribute_line(a)).push(attribute_line(av[j as int])));
            assert(line_views(out@) =~= prefix + seq![header_line(g.0)] + av.subrange(
                0,
                j + 1,
            ).map_values(|a: AttributeV| attribute_line(a)));
            j = j + 1;
        }
        assert(av.subrange(0, j as int) =~= av);
        assert(groups.subrange(0, i + 1).drop_last() =~= groups.subrange(0, i as int));
        assert(line_views(out@) =~= groups_lines(groups.subrange(0, i + 1)));
        i = i + 1;
    }
    assert(groups.subrange(0, i as int) =~= groups);
    out
}

/// The text of a document: its lines, each ended by a newline.
pub fn config_file_text(config_file: &ConfigFile) -> (r: String)
    ensures
        r@ == lines_text(groups_lines(config_file@.1)),
{
    let lines = config_file_lines(config_file);
    let ghost all = line_views(lines@);
    let mut text = String::new();
    let mut i: usize = 0;
    assert(all.subrange(0, 0) =~= Seq::<Seq<char>>::empty());
    while i < lines.len()
        invariant
            all == line_views(lines@),
            i <= lines@.len(),
            text@ == lines_text(all.subrange(0, i as int)),
        decreases lines@.len() - i,
    {
        text.append(lines[i].as_str());
        text.append("\n");
        proof {
            reveal_strlit("\n");
            assert(all.subrange(0, i + 1).drop_last() =~= all.subrange(0, i as int));
        }
        i = i + 1;
    }
    assert(all.subrange(0, i as int) =~= all);
    text
}

} // verus!
