//! The standalone skill document format: a markdown body preceded by an
//! optional frontmatter block.
//!
//! A document opens a frontmatter block with a leading `---`; the block runs
//! to the next line starting with `---`. Inside the block each non-blank
//! line reads `key: value`: a line at the margin fills the skill's
//! descriptive field of that name, and an indented line adds a metadata
//! pair, the block form the skill-standard entry document uses. A
//! non-blank line without a colon makes the block malformed. When the
//! leading delimiter, the closing delimiter or the block's shape is
//! missing, the whole document becomes the skill body and every other
//! field stays empty, with the skill named after the requested identifier.

use vstd::prelude::*;
use vstd::string::*;

use crate::agent::{Skill, SkillView, SkillSourceView};
use crate::text::{
    find_char, find_char_str, find_seq, find_sub, is_nl_char, is_ws_char,
    lemma_find_char_props, lemma_find_char_unique, lemma_find_seq_props, lemma_find_seq_unique,
    match_at, starts_with_seq, starts_with_str, trim_end_spec, trim_spec, trim_start_nl_spec,
    trim_start_nl_str, trim_start_spec, trim_str,
};

verus! {

/// The views of a list of owned key/value pairs with their indentation
/// marks.
pub open spec fn pairs_view(v: Seq<(String, String, bool)>) -> Seq<(Seq<char>, Seq<char>, bool)> {
    v.map_values(|p: (String, String, bool)| (p.0@, p.1@, p.2))
}

/// A raw line adds a metadata pair, rather than filling a field, when it
/// is indented.
pub open spec fn is_indented(line: Seq<char>) -> bool {
    line.len() > 0 && (line[0] == ' ' || line[0] == '\t')
}

/// The `key: value` pairs of a frontmatter block, in order, each marked
/// with whether its raw line was indented, or `None` when some non-blank
/// line carries no colon. Keys and values are trimmed.
pub open spec fn parse_fields(s: Seq<char>) -> Option<Seq<(Seq<char>, Seq<char>, bool)>>
    decreases s.len(),
    via parse_fields_dec
{
    if s.len() == 0 {
        Some(Seq::empty())
    } else {
        let line = match find_char(s, '\n') {
            Some(i) => s.subrange(0, i),
            None => s,
        };
        let rest = match find_char(s, '\n') {
            Some(i) => s.subrange(i + 1, s.len() as int),
            None => Seq::empty(),
        };
        let l = trim_spec(line);
        if l.len() == 0 {
            parse_fields(rest)
        } else {
            match find_char(l, ':') {
                None => None,
                Some(j) => match parse_fields(rest) {
                    None => None,
                    Some(ps) => Some(
                        seq![
                            (
                                trim_spec(l.subrange(0, j)),
                                trim_spec(l.subrange(j + 1, l.len() as int)),
                                is_indented(line),
                            ),
                        ] + ps,
                    ),
                },
            }
        }
    }
}

#[via_fn]
proof fn parse_fields_dec(s: Seq<char>) {
    if s.len() > 0 {
        lemma_find_char_props(s, '\n');
    }
}

/// The value under the first margin-level pair whose key reads `k`, if
/// any. Indented pairs are metadata, never fields.
pub open spec fn field_of(ps: Seq<(Seq<char>, Seq<char>, bool)>, k: Seq<char>) -> Option<Seq<char>>
    decreases ps.len(),
{
    if ps.len() == 0 {
        None
    } else if !ps[0].2 && ps[0].0 == k {
        Some(ps[0].1)
    } else {
        field_of(ps.subrange(1, ps.len() as int), k)
    }
}

/// The metadata pairs of the block: the indented `key: value` lines, in
/// order.
pub open spec fn metadata_of(ps: Seq<(Seq<char>, Seq<char>, bool)>) -> Seq<(Seq<char>, Seq<char>)>
    decreases ps.len(),
{
    if ps.len() == 0 {
        Seq::empty()
    } else {
        (if ps[0].2 {
            seq![(ps[0].0, ps[0].1)]
        } else {
            Seq::<(Seq<char>, Seq<char>)>::empty()
        }) + metadata_of(ps.subrange(1, ps.len() as int))
    }
}

proof fn lemma_field_of_props(ps: Seq<(Seq<char>, Seq<char>, bool)>, k: Seq<char>)
    ensures
        match field_of(ps, k) {
            Some(v) => exists|i: int|
                0 <= i < ps.len() && !ps[i].2 && ps[i].0 == k && ps[i].1 == v && (forall|j: int|
                    0 <= j < i ==> ps[j].2 || ps[j].0 != k),
            None => forall|j: int| 0 <= j < ps.len() ==> ps[j].2 || ps[j].0 != k,
        },
    decreases ps.len(),
{
    if ps.len() > 0 && (ps[0].2 || ps[0].0 != k) {
        let t = ps.subrange(1, ps.len() as int);
        lemma_field_of_props(t, k);
        match field_of(t, k) {
            Some(v) => {
                let i = choose|i: int|
                    0 <= i < t.len() && !t[i].2 && t[i].0 == k && t[i].1 == v && (forall|j: int|
                        0 <= j < i ==> t[j].2 || t[j].0 != k);
                assert(t[i] == ps[i + 1]);
                assert forall|j: int| 0 <= j < i + 1 implies ps[j].2 || ps[j].0 != k by {
                    if j >= 1 {
                        assert(t[j - 1] == ps[j]);
                    }
                }
            },
            None => {
                assert forall|j: int| 0 <= j < ps.len() implies ps[j].2 || ps[j].0 != k by {
                    if j >= 1 {
                        assert(t[j - 1] == ps[j]);
                    }
                }
            },
        }
    }
}

/// Split a frontmatter block into trimmed `key: value` pairs, each marked
/// with whether its raw line was indented; `None` when a non-blank line
/// carries no colon.
pub fn parse_fields_str(s: &str) -> (r: Option<Vec<(String, String, bool)>>)
    ensures
        match r {
            Some(v) => parse_fields(s@) == Some(pairs_view(v@)),
            None => parse_fields(s@) is None,
        },
    decreases s@.len(),
{
    let n = s.unicode_len();
    if n == 0 {
        let v: Vec<(String, String, bool)> = Vec::new();
        assert(pairs_view(v@) =~= Seq::<(Seq<char>, Seq<char>, bool)>::empty());
        return Some(v);
    }
    let (line, rest) = match find_char_str(s, '\n') {
        Some(i) => (s.substring_char(0, i), s.substring_char(i + 1, n)),
        None => (s, s.substring_char(n, n)),
    };
    proof {
        lemma_find_char_props(s@, '\n');
        let s_line = match find_char(s@, '\n') {
            Some(i) => s@.subrange(0, i),
            None => s@,
        };
        let s_rest = match find_char(s@, '\n') {
            Some(i) => s@.subrange(i + 1, s@.len() as int),
            None => Seq::<char>::empty(),
        };
        assert(line@ == s_line);
        assert(rest@ =~= s_rest);
    }
    assert(rest@.len() < s@.len());
    let l = trim_str(line);
    if l.as_str().unicode_len() == 0 {
        return parse_fields_str(rest);
    }
    match find_char_str(l.as_str(), ':') {
        None => None,
        Some(j) => {
            match parse_fields_str(rest) {
                None => None,
                Some(mut ps) => {
                    let ll = l.as_str().unicode_len();
                    assert(j < l@.len()) by {
                        lemma_find_char_props(l@, ':');
                    }
                    let key = trim_str(l.as_str().substring_char(0, j));
                    let val = trim_str(l.as_str().substring_char(j + 1, ll));
                    let indented = line.unicode_len() > 0 && (line.get_char(0) == ' '
                        || line.get_char(0) == '\t');
                    assert(indented == is_indented(line@));
                    let ghost old_ps = ps@;
                    ps.insert(0, (key, val, indented));
                    proof {
                        assert(pairs_view(ps@) =~= seq![(key@, val@, is_indented(line@))]
                            + pairs_view(old_ps));
                    }
                    Some(ps)
                },
            }
        },
    }
}

/// A skill carrying the whole document as its body and nothing else,
/// named after the requested identifier.
pub open spec fn fallback_skill(name: Seq<char>, doc: Seq<char>) -> SkillView {
    SkillView {
        name: name,
        description: None,
        content: doc,
        allowed_tools: None,
        license: None,
        compatibility: None,
        dependencies: None,
        metadata: Seq::empty(),
        source: SkillSourceView::Unspecified,
    }
}

/// The skill read off a parsed frontmatter block and a body. The name
/// defaults to the requested identifier when the block omits or empties it.
pub open spec fn skill_from_fields(
    name: Seq<char>,
    ps: Seq<(Seq<char>, Seq<char>, bool)>,
    body: Seq<char>,
) -> SkillView {
    SkillView {
        name: match field_of(ps, "name"@) {
            Some(n) => if n.len() > 0 {
                n
            } else {
                name
            },
            None => name,
        },
        description: field_of(ps, "description"@),
        content: body,
        allowed_tools: field_of(ps, "allowed_tools"@),
        license: field_of(ps, "license"@),
        compatibility: field_of(ps, "compatibility"@),
        dependencies: field_of(ps, "dependencies"@),
        metadata: metadata_of(ps),
        source: SkillSourceView::Unspecified,
    }
}

/// What parsing a skill document yields: the frontmatter fields and the
/// body after the closing delimiter with leading line breaks trimmed, or
/// the whole document as the body when no well-formed block leads it.
pub open spec fn spec_parse_skill(name: Seq<char>, doc: Seq<char>) -> SkillView {
    if !starts_with_seq(doc, "---"@) {
        fallback_skill(name, doc)
    } else {
        let rest = doc.subrange("---"@.len() as int, doc.len() as int);
        match find_seq(rest, "\n---"@) {
            None => fallback_skill(name, doc),
            Some(i) => {
                let fm = trim_spec(rest.subrange(0, i));
                let body = trim_start_nl_spec(
                    rest.subrange(i + "\n---"@.len(), rest.len() as int),
                );
                match parse_fields(fm) {
                    None => fallback_skill(name, doc),
                    Some(ps) => skill_from_fields(name, ps, body),
                }
            },
        }
    }
}

fn fallback_skill_exec(name: &str, doc: &str) -> (r: Skill)
    ensures
        r@ =~= fallback_skill(name@, doc@),
{
    let mut sk = Skill::empty();
    sk.name = name.to_owned();
    sk.content = doc.to_owned();
    sk
}

/// The value of the first margin-level pair keyed `k`, if any.
fn field_lookup(ps: &Vec<(String, String, bool)>, k: &str) -> (r: Option<String>)
    ensures
        crate::agent::opt_view(r) == field_of(pairs_view(ps@), k@),
{
    let mut i: usize = 0;
    let ghost pv = pairs_view(ps@);
    while i < ps.len()
        invariant
            i <= ps@.len(),
            pv == pairs_view(ps@),
            pv.len() == ps@.len(),
            forall|j: int| 0 <= j < i ==> pv[j].2 || pv[j].0 != k@,
        decreases ps@.len() - i,
    {
        assert(pv[i as int] == (ps@[i as int].0@, ps@[i as int].1@, ps@[i as int].2));
        if !ps[i].2 && crate::text::str_eq(ps[i].0.as_str(), k) {
            proof {
                lemma_field_of_props(pv, k@);
                match field_of(pv, k@) {
                    Some(v) => {
                        let w = choose|w: int|
                            0 <= w < pv.len() && !pv[w].2 && pv[w].0 == k@ && pv[w].1 == v && (
                            forall|j: int| 0 <= j < w ==> pv[j].2 || pv[j].0 != k@);
                        assert(w == i as int) by {
                            if w < i as int {
                                assert(pv[w].2 || pv[w].0 != k@);
                            }
                            if w > i as int {
                                assert(pv[i as int].2 || pv[i as int].0 != k@);
                            }
                        }
                    },
                    None => {
                        assert(pv[i as int].2 || pv[i as int].0 != k@);
                    },
                }
            }
            return Some(ps[i].1.clone());
        }
        i = i + 1;
    }
    proof {
        lemma_field_of_props(pv, k@);
        match field_of(pv, k@) {
            Some(v) => {
                let w = choose|w: int|
                    0 <= w < pv.len() && !pv[w].2 && pv[w].0 == k@ && pv[w].1 == v && (forall|
                        j: int,
                    | 0 <= j < w ==> pv[j].2 || pv[j].0 != k@);
                assert(pv[w].2 || pv[w].0 != k@);
            },
            None => {},
        }
    }
    None
}

/// The metadata pairs among the parsed lines, in order.
fn metadata_lookup(ps: &Vec<(String, String, bool)>) -> (r: Vec<(String, String)>)
    ensures
        r@.map_values(|p: (String, String)| (p.0@, p.1@)) == metadata_of(pairs_view(ps@)),
{
    let ghost pv = pairs_view(ps@);
    let mut r: Vec<(String, String)> = Vec::new();
    let mut i: usize = 0;
    proof {
        assert(pv.subrange(0, pv.len() as int) =~= pv);
        assert(r@.map_values(|p: (String, String)| (p.0@, p.1@)) + metadata_of(pv)
            =~= metadata_of(pv));
    }
    while i < ps.len()
        invariant
            i <= ps@.len(),
            pv == pairs_view(ps@),
            pv.len() == ps@.len(),
            metadata_of(pv) == r@.map_values(|p: (String, String)| (p.0@, p.1@)) + metadata_of(
                pv.subrange(i as int, pv.len() as int),
            ),
        decreases ps@.len() - i,
    {
        let ghost suffix = pv.subrange(i as int, pv.len() as int);
        let ghost before = r@.map_values(|p: (String, String)| (p.0@, p.1@));
        assert(pv[i as int] == (ps@[i as int].0@, ps@[i as int].1@, ps@[i as int].2));
        if ps[i].2 {
            r.push((ps[i].0.clone(), ps[i].1.clone()));
            proof {
                assert(r@.map_values(|p: (String, String)| (p.0@, p.1@)) =~= before.push(
                    (pv[i as int].0, pv[i as int].1),
                ));
            }
        }
        proof {
            assert(suffix[0] == pv[i as int]);
            assert(suffix.subrange(1, suffix.len() as int) =~= pv.subrange(
                i as int + 1,
                pv.len() as int,
            ));
            if ps@[i as int].2 {
                assert(metadata_of(suffix) =~= seq![(suffix[0].0, suffix[0].1)] + metadata_of(
                    suffix.subrange(1, suffix.len() as int),
                ));
                assert(before + metadata_of(suffix) =~= r@.map_values(
                    |p: (String, String)| (p.0@, p.1@),
                ) + metadata_of(suffix.subrange(1, suffix.len() as int)));
            }
        }
        i = i + 1;
    }
    proof {
        assert(pv.subrange(pv.len() as int, pv.len() as int)
            =~= Seq::<(Seq<char>, Seq<char>, bool)>::empty());
        assert(r@.map_values(|p: (String, String)| (p.0@, p.1@))
            + Seq::<(Seq<char>, Seq<char>)>::empty() =~= r@.map_values(
            |p: (String, String)| (p.0@, p.1@),
        ));
    }
    r
}

/// Parse a standalone skill document: an optional frontmatter block
/// followed by the markdown body.
pub fn parse_skill_md(name: &str, content: &str) -> (r: Skill)
    ensures
        r@ =~= spec_parse_skill(name@, content@),
{
    if !starts_with_str(content, "---") {
        return fallback_skill_exec(name, content);
    }
    let n = content.unicode_len();
    proof {
        reveal_strlit("---");
        reveal_strlit("\n---");
    }
    let rest = content.substring_char(3, n);
    match find_sub(rest, "\n---") {
        None => fallback_skill_exec(name, content),
        Some(i) => {
            proof {
                lemma_find_seq_props(rest@, "\n---"@);
            }
            let rl = rest.unicode_len();
            let fm = trim_str(rest.substring_char(0, i));
            let body = trim_start_nl_str(rest.substring_char(i + 4, rl));
            match parse_fields_str(fm.as_str()) {
                None => fallback_skill_exec(name, content),
                Some(ps) => {
                    let mut sk = Skill::empty();
                    sk.content = body;
                    sk.name = match field_lookup(&ps, "name") {
                        Some(nm) => {
                            if nm.as_str().unicode_len() > 0 {
                                nm
                            } else {
                                name.to_owned()
                            }
                        },
                        None => name.to_owned(),
                    };
                    sk.description = field_lookup(&ps, "description");
                    sk.allowed_tools = field_lookup(&ps, "allowed_tools");
                    sk.license = field_lookup(&ps, "license");
                    sk.compatibility = field_lookup(&ps, "compatibility");
                    sk.dependencies = field_lookup(&ps, "dependencies");
                    sk.metadata = metadata_lookup(&ps);
                    assert(sk@ =~= spec_parse_skill(name@, content@));
                    sk
                },
            }
        },
    }
}

/// `sv` with its source pointing at the registry subdirectory `url`.
pub open spec fn skill_with_remote(sv: SkillView, url: Seq<char>) -> SkillView {
    SkillView { source: SkillSourceView::Remote(url), ..sv }
}

/// The first line of `s` that is non-blank after trimming and does not
/// open with a heading mark, trimmed; `None` when no line qualifies.
pub open spec fn snippet_line(s: Seq<char>) -> Option<Seq<char>>
    decreases s.len(),
    via snippet_line_dec
{
    if s.len() == 0 {
        None
    } else {
        let line = match find_char(s, '\n') {
            Some(i) => s.subrange(0, i),
            None => s,
        };
        let rest = match find_char(s, '\n') {
            Some(i) => s.subrange(i + 1, s.len() as int),
            None => Seq::<char>::empty(),
        };
        if trim_spec(line).len() > 0 && !(line.len() > 0 && line[0] == '#') {
            Some(trim_spec(line))
        } else {
            snippet_line(rest)
        }
    }
}

#[via_fn]
proof fn snippet_line_dec(s: Seq<char>) {
    if s.len() > 0 {
        lemma_find_char_props(s, '\n');
    }
}

/// The short description of a skill entry document: the first qualifying
/// body line, else the agent description, capped at 100 characters.
pub open spec fn entry_short_desc(content: Seq<char>, agent_description: Seq<char>) -> Seq<char> {
    match snippet_line(content) {
        Some(l) => crate::text::take_spec(l, 100),
        None => crate::text::take_spec(agent_description, 100),
    }
}

/// The entry document of the skill-standard layout: a header block
/// carrying the skill name, the agent description capped at 500 characters
/// and a short description, followed by the skill body.
pub open spec fn skill_entry_doc(
    name: Seq<char>,
    content: Seq<char>,
    agent_description: Seq<char>,
) -> Seq<char> {
    "---\nname: "@ + name + "\ndescription: "@ + crate::text::take_spec(agent_description, 500)
        + "\nmetadata:\n  short-description: "@ + entry_short_desc(content, agent_description)
        + "\n---\n\n"@ + content
}

fn snippet_line_exec(s: &str) -> (r: Option<String>)
    ensures
        crate::agent::opt_view(r) == snippet_line(s@),
    decreases s@.len(),
{
    let n = s.unicode_len();
    if n == 0 {
        return None;
    }
    let (line, rest) = match find_char_str(s, '\n') {
        Some(i) => (s.substring_char(0, i), s.substring_char(i + 1, n)),
        None => (s, s.substring_char(n, n)),
    };
    proof {
        lemma_find_char_props(s@, '\n');
        let s_rest = match find_char(s@, '\n') {
            Some(i) => s@.subrange(i + 1, s@.len() as int),
            None => Seq::<char>::empty(),
        };
        assert(rest@ =~= s_rest);
    }
    let t = trim_str(line);
    if t.as_str().unicode_len() > 0 && !(line.unicode_len() > 0 && line.get_char(0) == '#') {
        Some(t)
    } else {
        snippet_line_exec(rest)
    }
}

/// The entry document rendered for one skill.
pub fn render_skill_entry(name: &str, content: &str, agent_description: &str) -> (r: String)
    ensures
        r@ == skill_entry_doc(name@, content@, agent_description@),
{
    let short_desc: String = match snippet_line_exec(content) {
        Some(l) => crate::text::take_chars(l.as_str(), 100),
        None => crate::text::take_chars(agent_description, 100),
    };
    let desc = crate::text::take_chars(agent_description, 500);
    let mut r = "---\nname: ".to_owned();
    r.append(name);
    r.append("\ndescription: ");
    r.append(desc.as_str());
    r.append("\nmetadata:\n  short-description: ");
    r.append(short_desc.as_str());
    r.append("\n---\n\n");
    r.append(content);
    assert(r@ =~= skill_entry_doc(name@, content@, agent_description@));
    r
}

/// A document that does not open with the frontmatter delimiter parses to
/// a skill whose body is the whole document, every other field empty and
/// the name defaulted to the requested identifier.
pub proof fn lemma_parse_without_frontmatter(name: Seq<char>, doc: Seq<char>)
    requires
        !starts_with_seq(doc, "---"@),
    ensures
        spec_parse_skill(name, doc) == fallback_skill(name, doc),
        spec_parse_skill(name, doc).content == doc,
        spec_parse_skill(name, doc).name == name,
        spec_parse_skill(name, doc).description is None,
        spec_parse_skill(name, doc).metadata.len() == 0,
{
}

/// Trimming a non-empty sequence without whitespace at either end leaves
/// it as it stands.
proof fn lemma_trim_clean(s: Seq<char>)
    requires
        s.len() > 0,
        !is_ws_char(s[0]),
        !is_ws_char(s[s.len() - 1]),
    ensures
        trim_spec(s) == s,
{
    assert(trim_start_spec(s) == s);
    assert(trim_end_spec(s) == s);
}

/// A document with the frontmatter block `---`, one `name: X` line and a
/// closing `---` line parses to a skill named `X` whose body is what
/// follows the closing line with leading line breaks trimmed, every other
/// field empty. `X` is a one-line scalar: it holds no line break and no
/// whitespace at either end.
pub proof fn lemma_parse_named_frontmatter(n: Seq<char>, x: Seq<char>, b: Seq<char>)
    requires
        x.len() > 0,
        forall|i: int| 0 <= i < x.len() ==> x[i] != '\n',
        !is_ws_char(x[0]),
        !is_ws_char(x[x.len() - 1]),
    ensures
        spec_parse_skill(n, "---\nname: "@ + x + "\n---\n"@ + b) == (SkillView {
            name: x,
            content: trim_start_nl_spec(b),
            ..fallback_skill(n, Seq::empty())
        }),
{
    reveal_strlit("---");
    reveal_strlit("\n---");
    reveal_strlit("---\nname: ");
    reveal_strlit("\n---\n");
    reveal_strlit("name");
    reveal_strlit("description");
    reveal_strlit("allowed_tools");
    reveal_strlit("license");
    reveal_strlit("compatibility");
    reveal_strlit("dependencies");
    let l1 = "---\nname: "@;
    let l2 = "\n---\n"@;
    let doc = l1 + x + l2 + b;
    let xl = x.len() as int;

    // The document opens with the delimiter.
    assert(doc.subrange(0, 3) =~= "---"@);
    assert(starts_with_seq(doc, "---"@));

    let rest = doc.subrange(3, doc.len() as int);
    assert(rest =~= l1.subrange(3, 10) + x + l2 + b);

    // The closing delimiter is found exactly after the name line.
    let k = 7 + xl;
    let pat = "\n---"@;
    assert(rest.subrange(k, k + 4) =~= pat);
    assert(match_at(rest, pat, k));
    assert forall|j: int| 0 <= j < k implies !match_at(rest, pat, j) by {
        if match_at(rest, pat, j) {
            assert(rest.subrange(j, j + 4)[0] == rest[j]);
            assert(rest[j] == '\n');
            if j == 0 {
                assert(rest.subrange(j, j + 4)[1] == rest[1]);
                assert(rest[1] == 'n');
            } else if j < 7 {
                assert(rest[j] == l1[j + 3]);
            } else {
                assert(rest[j] == x[j - 7]);
            }
        }
    }
    lemma_find_seq_unique(rest, pat, k);

    // The frontmatter block is the one `name: X` line.
    let raw_fm = rest.subrange(0, k);
    let t = l1.subrange(4, 10) + x;
    assert(raw_fm =~= seq!['\n'] + t);
    assert(raw_fm.subrange(1, raw_fm.len() as int) =~= t);
    assert(t[0] == 'n' && t[t.len() - 1] == x[xl - 1]);
    assert(trim_start_spec(raw_fm) == trim_start_spec(t));
    assert(trim_start_spec(t) == t);
    assert(trim_end_spec(t) == t);
    let fm = trim_spec(raw_fm);
    assert(fm == t);

    // The one line splits into the key `name` and the value `X`.
    assert forall|i: int| 0 <= i < t.len() implies t[i] != '\n' by {
        if i >= 6 {
            assert(t[i] == x[i - 6]);
        }
    }
    lemma_find_char_props(t, '\n');
    match find_char(t, '\n') {
        Some(i) => {
            assert(t[i] != '\n');
        },
        None => {},
    }
    assert forall|i: int| 0 <= i < 4 implies t[i] != ':' by {}
    assert(t[4] == ':');
    lemma_find_char_unique(t, ':', 4);
    let key_raw = t.subrange(0, 4);
    assert(key_raw =~= "name"@);
    assert(trim_start_spec(key_raw) == key_raw);
    assert(trim_end_spec(key_raw) == key_raw);
    let val_raw = t.subrange(5, t.len() as int);
    assert(val_raw =~= seq![' '] + x);
    assert(val_raw.subrange(1, val_raw.len() as int) =~= x);
    assert(trim_start_spec(val_raw) == trim_start_spec(x));
    assert(trim_start_spec(x) == x);
    assert(trim_end_spec(x) == x);
    let ps = parse_fields(fm);
    assert(!is_indented(t));
    assert(t.subrange(t.len() as int, t.len() as int) =~= Seq::<char>::empty());
    assert(parse_fields(Seq::<char>::empty()) == Some(
        Seq::<(Seq<char>, Seq<char>, bool)>::empty(),
    ));
    assert(ps == Some(seq![("name"@, x, false)]));

    // The fields fill the skill: the name from the block, the body after
    // the closing delimiter, nothing else.
    let pairs = seq![("name"@, x, false)];
    assert(field_of(pairs, "name"@) == Some(x));
    assert("name"@.len() == 4);
    assert("name"@ != "description"@ && "name"@ != "allowed_tools"@ && "name"@ != "license"@
        && "name"@ != "compatibility"@ && "name"@ != "dependencies"@) by {
        assert("description"@.len() != 4 && "allowed_tools"@.len() != 4 && "license"@.len() != 4
            && "compatibility"@.len() != 4 && "dependencies"@.len() != 4);
    }
    assert(pairs.subrange(1, 1) =~= Seq::<(Seq<char>, Seq<char>, bool)>::empty());
    let none_pairs = Seq::<(Seq<char>, Seq<char>, bool)>::empty();
    assert(field_of(none_pairs, "description"@) is None);
    assert(field_of(none_pairs, "allowed_tools"@) is None);
    assert(field_of(none_pairs, "license"@) is None);
    assert(field_of(none_pairs, "compatibility"@) is None);
    assert(field_of(none_pairs, "dependencies"@) is None);
    assert(field_of(pairs, "description"@) is None);
    assert(field_of(pairs, "allowed_tools"@) is None);
    assert(field_of(pairs, "license"@) is None);
    assert(field_of(pairs, "compatibility"@) is None);
    assert(field_of(pairs, "dependencies"@) is None);
    assert(metadata_of(none_pairs) =~= Seq::<(Seq<char>, Seq<char>)>::empty());
    assert(metadata_of(pairs) =~= Seq::<(Seq<char>, Seq<char>)>::empty());

    let body_raw = rest.subrange(k + 4, rest.len() as int);
    assert(body_raw =~= seq!['\n'] + b);
    assert(body_raw.subrange(1, body_raw.len() as int) =~= b);
    assert(is_nl_char(body_raw[0]));
    assert(trim_start_nl_spec(body_raw) == trim_start_nl_spec(b));

    assert(spec_parse_skill(n, doc) =~= SkillView {
        name: x,
        content: trim_start_nl_spec(b),
        ..fallback_skill(n, Seq::empty())
    });
}

} // verus!
