use vstd::prelude::*;

use crate::error::ConfigErrorV;
use crate::line_format::{
    attribute_line, attribute_line_name, attribute_line_value, first_equals_at, group_lines,
    groups_lines, has_equals, header_line, header_name, is_group_header, parse_line_spec,
    parse_lines_spec,
};
use crate::model::{file_wf, group_wf, has_attribute, has_group, AttributeV, FileV, GroupV};
use crate::parse::lemma_equals_index;

verus! {

/// Text that the line layout carries unchanged: not empty, and free of `=`,
/// `[` and `]`.
pub open spec fn plain_text(s: Seq<char>) -> bool {
    &&& s.len() > 0
    &&& forall|i: int| 0 <= i < s.len() ==> #[trigger] s[i] != '=' && s[i] != '[' && s[i] != ']'
}

/// A group whose name, attribute names and values are all plain text.
pub open spec fn plain_group(g: GroupV) -> bool {
    &&& plain_text(g.0)
    &&& forall|j: int|
        0 <= j < g.1.len() ==> plain_text(#[trigger] g.1[j].0) && plain_text(g.1[j].1)
}

/// A document whose groups are all plain.
pub open spec fn plain_file(f: FileV) -> bool {
    forall|i: int| 0 <= i < f.1.len() ==> plain_group(#[trigger] f.1[i])
}

/// Reading `a` and then `b` is reading `a + b`.
pub proof fn lemma_parse_append(f: FileV, a: Seq<Seq<char>>, b: Seq<Seq<char>>)
    ensures
        parse_lines_spec(f, a + b) == match parse_lines_spec(f, a) {
            Ok(g) => parse_lines_spec(g, b),
            Err(e) => Err(e),
        },
    decreases a.len(),
{
    if a.len() == 0 {
        assert(a + b =~= b);
    } else {
        assert((a + b)[0] == a[0]);
        assert((a + b).drop_first() =~= a.drop_first() + b);
        if let Ok(g) = parse_line_spec(f, a[0]) {
            lemma_parse_append(g, a.drop_first(), b);
        }
    }
}

/// A line that is neither a group header nor holds an `=` is skipped: the
/// lines around it read as if it were not there.
pub proof fn lemma_skipped_line(
    f: FileV,
    before: Seq<Seq<char>>,
    line: Seq<char>,
    after: Seq<Seq<char>>,
)
    requires
        !is_group_header(line),
        !has_equals(line),
    ensures
        parse_lines_spec(f, before + seq![line] + after) == parse_lines_spec(f, before + after),
{
    lemma_parse_append(f, before + seq![line], after);
    lemma_parse_append(f, before, seq![line]);
    lemma_parse_append(f, before, after);
    if let Ok(g) = parse_lines_spec(f, before) {
        assert(seq![line].drop_first() =~= Seq::<Seq<char>>::empty());
        assert(seq![line][0] == line);
        assert(parse_line_spec(g, line) == Ok::<FileV, ConfigErrorV>(g));
        assert(parse_lines_spec(g, Seq::<Seq<char>>::empty()) == Ok::<FileV, ConfigErrorV>(
            g,
        ));
        assert(parse_lines_spec(g, seq![line]) == Ok::<FileV, ConfigErrorV>(g));
    }
}

/// How the line of a plain attribute reads back.
proof fn lemma_attribute_line_reads(a: AttributeV)
    requires
        plain_text(a.0),
        plain_text(a.1),
    ensures
        !is_group_header(attribute_line(a)),
        has_equals(attribute_line(a)),
        attribute_line_name(attribute_line(a)) == a.0,
        attribute_line_value(attribute_line(a)) == a.1,
{
    let line = attribute_line(a);
    let n = a.0.len() as int;
    assert(line[0] == a.0[0]);
    assert(line[n + 1] == '=');
    assert forall|j: int| 0 <= j < n + 1 implies line[j] != '=' by {
        if j < n {
            assert(line[j] == a.0[j]);
        }
    }
    assert(first_equals_at(line, n + 1));
    lemma_equals_index(line, n + 1);
    assert(line.subrange(0, n + 1).drop_last() =~= a.0);
    assert(line.subrange(n + 2, line.len() as int).drop_first() =~= a.1);
}

/// The attribute lines of a plain group, from its `k`-th on, add those
/// attributes to the last group.
proof fn lemma_parse_attributes(p: Seq<char>, gs: Seq<GroupV>, g: GroupV, k: int)
    requires
        group_wf(g),
        plain_group(g),
        0 <= k <= g.1.len(),
    ensures
        parse_lines_spec(
            (p, gs.push((g.0, g.1.subrange(0, k)))),
            g.1.subrange(k, g.1.len() as int).map_values(|a: AttributeV| attribute_line(a)),
        ) == Ok::<FileV, ConfigErrorV>((p, gs.push(g))),
    decreases g.1.len() - k,
{
    let lines = g.1.subrange(k, g.1.len() as int).map_values(|a: AttributeV| attribute_line(a));
    let f = (p, gs.push((g.0, g.1.subrange(0, k))));
    if k == g.1.len() {
        assert(g.1.subrange(0, k) =~= g.1);
        assert(lines =~= Seq::<Seq<char>>::empty());
    } else {
        let a = g.1[k];
        assert(plain_text(a.0) && plain_text(a.1));
        lemma_attribute_line_reads(a);
        assert(lines[0] == attribute_line(a));
        assert(!has_attribute(g.1.subrange(0, k), a.0)) by {
            if has_attribute(g.1.subrange(0, k), a.0) {
                let j = choose|j: int| 0 <= j < k && #[trigger] g.1.subrange(0, k)[j].0 == a.0;
                assert(g.1[j].0 != g.1[k].0);
            }
        }
        assert(f.1.last() == (g.0, g.1.subrange(0, k)));
        assert(g.1.subrange(0, k).push(a) =~= g.1.subrange(0, k + 1));
        assert(f.1.update(f.1.len() - 1, (g.0, g.1.subrange(0, k).push(a))) =~= gs.push(
            (g.0, g.1.subrange(0, k + 1)),
        ));
        assert(parse_line_spec(f, lines[0]) == Ok::<FileV, ConfigErrorV>(
            (p, gs.push((g.0, g.1.subrange(0, k + 1)))),
        ));
        assert(lines.drop_first() =~= g.1.subrange(k + 1, g.1.len() as int).map_values(
            |a: AttributeV| attribute_line(a),
        ));
        lemma_parse_attributes(p, gs, g, k + 1);
    }
}

/// The lines of a plain group add it to a document that lacks its name.
proof fn lemma_parse_group(f: FileV, g: GroupV)
    requires
        group_wf(g),
        plain_group(g),
        !has_group(f.1, g.0),
    ensures
        parse_lines_spec(f, group_lines(g)) == Ok::<FileV, ConfigErrorV>(
            (f.0, f.1.push(g)),
        ),
{
    let lines = group_lines(g);
    let h = header_line(g.0);
    assert(lines[0] == h);
    assert(is_group_header(h));
    assert(header_name(h) =~= g.0);
    assert(g.1.subrange(0, 0) =~= Seq::<AttributeV>::empty());
    assert(g.1.subrange(0, g.1.len() as int) =~= g.1);
    assert(lines.drop_first() =~= g.1.subrange(0, g.1.len() as int).map_values(
        |a: AttributeV| attribute_line(a),
    ));
    lemma_parse_attributes(f.0, f.1, g, 0);
}

/// Reading back the lines written for a plain, well-formed document gives
/// the same groups, attributes and order.
pub proof fn lemma_round_trip(f: FileV)
    requires
        file_wf(f),
        plain_file(f),
    ensures
        parse_lines_spec((f.0, Seq::<GroupV>::empty()), groups_lines(f.1))
            == Ok::<FileV, ConfigErrorV>(f),
    decreases f.1.len(),
{
    let groups = f.1;
    if groups.len() == 0 {
        assert(groups =~= Seq::<GroupV>::empty());
        assert(groups_lines(groups) =~= Seq::<Seq<char>>::empty());
    } else {
        let init = groups.drop_last();
        let g = groups.last();
        assert(group_wf(g) && plain_group(g));
        assert(!has_group(init, g.0)) by {
            if has_group(init, g.0) {
                let j = choose|j: int| 0 <= j < init.len() && #[trigger] init[j].0 == g.0;
                assert(groups[j].0 != groups[groups.len() - 1].0);
            }
        }
        if groups.len() == 1 {
            lemma_parse_group((f.0, Seq::<GroupV>::empty()), g);
            assert(groups_lines(groups) == group_lines(g));
            assert(Seq::<GroupV>::empty().push(g) =~= groups);
        } else {
            assert(file_wf((f.0, init))) by {
                assert forall|i: int| 0 <= i < init.len() implies group_wf(#[trigger] init[i]) by {
                    assert(init[i] == groups[i]);
                }
            }
            assert(plain_file((f.0, init))) by {
                assert forall|i: int| 0 <= i < init.len() implies plain_group(#[trigger] init[i]) by {
                    assert(init[i] == groups[i]);
                }
            }
            lemma_round_trip((f.0, init));
            let blank = seq![Seq::<char>::empty()];
            let empty = (f.0, Seq::<GroupV>::empty());
            lemma_parse_append(empty, groups_lines(init) + blank, group_lines(g));
            lemma_parse_append(empty, groups_lines(init), blank);
            assert(blank.drop_first() =~= Seq::<Seq<char>>::empty());
            assert(!has_equals(Seq::<char>::empty()));
            lemma_parse_group((f.0, init), g);
            assert(groups_lines(groups) == groups_lines(init) + blank + group_lines(g));
            assert(blank[0] == Seq::<char>::empty());
            let mid = (f.0, init);
            assert(parse_line_spec(mid, Seq::<char>::empty()) == Ok::<FileV, ConfigErrorV>(mid));
            assert(parse_lines_spec(mid, Seq::<Seq<char>>::empty()) == Ok::<FileV, ConfigErrorV>(mid));
            assert(parse_lines_spec(mid, blank) == Ok::<FileV, ConfigErrorV>(mid));
            assert(init.push(g) =~= groups);
        }
    }
}

} // verus!
