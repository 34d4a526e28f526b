//! Human Markdown for the embedded JSON Schemas (`schema --format markdown`).
//!
//! The renderer reads a schema document through [`SchemaDoc`], which holds
//! exactly the parts of the JSON value it looks at; the pretty-printed schema
//! text is carried alongside for the fenced block.

use vstd::prelude::*;

use crate::text::{chars_of, push_chars, push_str, replace_char_exec, string_of};

verus! {

/// The `type` keyword of a property, as the renderer sees it.
#[derive(Debug, Clone, PartialEq, Eq)]
pub enum TypeField {
    /// No `type` keyword.
    Absent,
    /// A single type name.
    Text(String),
    /// A list of types; `None` for an entry that is not a string.
    List(Vec<Option<String>>),
    /// Any other JSON value.
    Other,
}

/// One entry of a schema's `properties` object.
#[derive(Debug, Clone, PartialEq, Eq)]
pub struct PropertyDoc {
    /// Property name.
    pub name: String,
    /// Its `type` keyword.
    pub type_field: TypeField,
    /// It has a `properties` keyword.
    pub has_properties: bool,
    /// It has an `items` keyword.
    pub has_items: bool,
    /// Its `description`, when that is a string.
    pub description: Option<String>,
}

/// The parts of a JSON Schema document the Markdown renderer reads.
#[derive(Debug, Clone, PartialEq, Eq)]
pub struct SchemaDoc {
    /// `title`, when a string.
    pub title: Option<String>,
    /// `description`, when a string.
    pub description: Option<String>,
    /// `required`, when an array; `None` entries are not strings.
    pub required: Option<Vec<Option<String>>>,
    /// `properties`, when an object, in its iteration order.
    pub properties: Option<Vec<PropertyDoc>>,
    /// The whole schema, pretty-printed as JSON.
    pub pretty: String,
}

/// The string entries of a list, in order.
pub open spec fn string_entries(v: Seq<Option<String>>) -> Seq<Seq<char>>
    decreases v.len(),
{
    if v.len() == 0 {
        Seq::empty()
    } else {
        match v.last() {
            Some(s) => string_entries(v.drop_last()).push(s@),
            None => string_entries(v.drop_last()),
        }
    }
}

/// Texts joined with `sep`.
pub open spec fn joined(parts: Seq<Seq<char>>, sep: Seq<char>) -> Seq<char>
    decreases parts.len(),
{
    if parts.len() == 0 {
        Seq::empty()
    } else if parts.len() == 1 {
        parts[0]
    } else {
        joined(parts.drop_last(), sep) + sep + parts.last()
    }
}

/// Type label of a property: its type name, its string types joined with
/// ` | `, else `object` / `array` by shape, else `any`.
pub open spec fn type_label(p: PropertyDoc) -> Seq<char> {
    let declared = match p.type_field {
        TypeField::Text(s) => Some(s@),
        TypeField::List(l) => if string_entries(l@).len() > 0 {
            Some(joined(string_entries(l@), " | "@))
        } else {
            None
        },
        _ => None,
    };
    match declared {
        Some(t) => t,
        None => if p.has_properties {
            "object"@
        } else if p.has_items {
            "array"@
        } else {
            "any"@
        },
    }
}

/// `|` escaped for a Markdown table cell.
pub open spec fn escape_pipes(s: Seq<char>) -> Seq<char>
    decreases s.len(),
{
    if s.len() == 0 {
        Seq::empty()
    } else {
        escape_pipes(s.drop_last()) + if s.last() == '|' {
            "\\|"@
        } else {
            seq![s.last()]
        }
    }
}

/// Bullet lines of the required fields.
pub open spec fn required_lines(names: Seq<Seq<char>>) -> Seq<char>
    decreases names.len(),
{
    if names.len() == 0 {
        Seq::empty()
    } else {
        required_lines(names.drop_last()) + "- `"@ + names.last() + "`\n"@
    }
}

/// Table row of one property.
pub open spec fn property_row(p: PropertyDoc, required: Seq<Seq<char>>) -> Seq<char> {
    "| `"@ + p.name@ + "` | "@ + type_label(p) + " | "@ + (if required.contains(p.name@) {
        "yes"@
    } else {
        "no"@
    }) + " | "@ + escape_pipes(
        match p.description {
            Some(d) => d@,
            None => Seq::empty(),
        },
    ) + " |\n"@
}

/// Table rows of the properties, in order.
pub open spec fn property_rows(ps: Seq<PropertyDoc>, required: Seq<Seq<char>>) -> Seq<char>
    decreases ps.len(),
{
    if ps.len() == 0 {
        Seq::empty()
    } else {
        property_rows(ps.drop_last(), required) + property_row(ps.last(), required)
    }
}

/// The names listed as required.
pub open spec fn required_names(doc: SchemaDoc) -> Seq<Seq<char>> {
    match doc.required {
        Some(r) => string_entries(r@),
        None => Seq::empty(),
    }
}

/// Markdown document for a schema.
pub open spec fn schema_md(cmd: Seq<char>, doc: SchemaDoc) -> Seq<char> {
    let title = match doc.title {
        Some(t) => t@,
        None => cmd,
    };
    "# Schema: `"@ + cmd + "`\n\n"@ + "**Title:** "@ + title + "\n\n"@ + (match doc.description {
        Some(d) => d@ + "\n\n"@,
        None => Seq::empty(),
    }) + (match doc.required {
        Some(r) => "## Required fields\n\n"@ + required_lines(string_entries(r@)) + "\n"@,
        None => Seq::empty(),
    }) + "## Properties\n\n"@ + "| property | type | required | description |\n"@
        + "| --- | --- | --- | --- |\n"@ + (match doc.properties {
        Some(ps) => property_rows(ps@, required_names(doc)),
        None => "| _(none)_ | | | |\n"@,
    }) + "\n## JSON Schema\n\n"@ + "```json\n"@ + doc.pretty@ + "\n```\n"@
}

fn string_entries_exec(v: &Vec<Option<String>>) -> (r: Vec<String>)
    ensures
        r@.map_values(|s: String| s@) == string_entries(v@),
{
    let mut r: Vec<String> = Vec::new();
    let mut i: usize = 0;
    while i < v.len()
        invariant
            0 <= i <= v@.len(),
            r@.map_values(|s: String| s@) == string_entries(v@.take(i as int)),
        decreases v@.len() - i,
    {
        proof {
            assert(v@.take(i + 1).drop_last() == v@.take(i as int));
            assert(v@.take(i + 1).last() == v@[i as int]);
        }
        match &v[i] {
            Some(s) => {
                let ghost before = r@;
                r.push(s.clone());
                proof {
                    assert(r@.map_values(|s: String| s@) =~= before.map_values(|s: String| s@).push(
                        s@,
                    ));
                }
            },
            None => {},
        }
        i = i + 1;
    }
    proof {
        assert(v@.take(i as int) == v@);
    }
    r
}

/// Type label of one property (see [`type_label`]).
pub fn schema_type_label(prop: &PropertyDoc) -> (r: String)
    ensures
        r@ == type_label(*prop),
{
    match &prop.type_field {
        TypeField::Text(s) => {
            return s.clone();
        },
        TypeField::List(l) => {
            let parts = string_entries_exec(l);
            if parts.len() > 0 {
                let mut out = String::new();
                let mut i: usize = 0;
                let ghost pv = parts@.map_values(|s: String| s@);
                while i < parts.len()
                    invariant
                        0 < parts@.len(),
                        0 <= i <= parts@.len(),
                        pv == parts@.map_values(|s: String| s@),
                        out@ == joined(pv.take(i as int), " | "@),
                    decreases parts@.len() - i,
                {
                    proof {
                        assert(pv.take(i + 1).drop_last() == pv.take(i as int));
                        assert(pv.take(i + 1).last() == parts@[i as int]@);
                    }
                    if i > 0 {
                        push_str(&mut out, " | ");
                    } else {
                        proof {
                            assert(out@ == Seq::<char>::empty());
                        }
                    }
                    push_str(&mut out, parts[i].as_str());
                    i = i + 1;
                    proof {
                        if i == 1 {
                            assert(out@ =~= pv.take(1)[0]);
                        }
                    }
                }
                proof {
                    assert(pv.take(i as int) == pv);
                }
                return out;
            }
        },
        _ => {},
    }
    if prop.has_properties {
        "object".to_owned()
    } else if prop.has_items {
        "array".to_owned()
    } else {
        "any".to_owned()
    }
}

fn escape_pipes_exec(s: &str) -> (r: Vec<char>)
    ensures
        r@ == escape_pipes(s@),
{
    let v = chars_of(s);
    let mut out: Vec<char> = Vec::new();
    let mut i: usize = 0;
    while i < v.len()
        invariant
            0 <= i <= v@.len(),
            v@ == s@,
            out@ == escape_pipes(v@.take(i as int)),
        decreases v@.len() - i,
    {
        proof {
            assert(v@.take(i + 1).drop_last() == v@.take(i as int));
            assert(v@.take(i + 1).last() == v@[i as int]);
            reveal_strlit("\\|");
        }
        if v[i] == '|' {
            out.push('\\');
            out.push('|');
        } else {
            out.push(v[i]);
        }
        i = i + 1;
    }
    proof {
        assert(v@.take(i as int) == v@);
    }
    out
}

fn contains_name(names: &Vec<String>, name: &str) -> (r: bool)
    ensures
        r == names@.map_values(|s: String| s@).contains(name@),
{
    let ghost nv = names@.map_values(|s: String| s@);
    let v = chars_of(name);
    let mut i: usize = 0;
    while i < names.len()
        invariant
            0 <= i <= names@.len(),
            nv == names@.map_values(|s: String| s@),
            v@ == name@,
            forall|k: int| 0 <= k < i ==> nv[k] != name@,
        decreases names@.len() - i,
    {
        if eq_str_view(v.as_slice(), names[i].as_str()) {
            proof {
                assert(nv[i as int] == name@);
            }
            return true;
        }
        i = i + 1;
    }
    proof {
        if nv.contains(name@) {
            let k = choose|k: int| 0 <= k < nv.len() && nv[k] == name@;
            assert(nv[k] != name@);
        }
    }
    false
}

fn eq_str_view(v: &[char], s: &str) -> (r: bool)
    ensures
        r == (v@ == s@),
{
    crate::text::eq_str(v, s)
}

fn push_required_lines(out: &mut String, required: &Vec<String>)
    ensures
        final(out)@ == old(out)@ + required_lines(required@.map_values(|s: String| s@)),
{
    let ghost rv = required@.map_values(|s: String| s@);
    let ghost head = out@;
    let mut i: usize = 0;
    while i < required.len()
        invariant
            0 <= i <= required@.len(),
            rv == required@.map_values(|s: String| s@),
            out@ == head + required_lines(rv.take(i as int)),
        decreases required@.len() - i,
    {
        proof {
            assert(rv.take(i + 1).drop_last() == rv.take(i as int));
            assert(rv.take(i + 1).last() == required@[i as int]@);
        }
        push_str(out, "- `");
        push_str(out, required[i].as_str());
        push_str(out, "`\n");
        i = i + 1;
    }
    proof {
        assert(rv.take(i as int) == rv);
    }
}

fn push_property_row(out: &mut String, p: &PropertyDoc, required: &Vec<String>)
    ensures
        final(out)@ == old(out)@ + property_row(*p, required@.map_values(|s: String| s@)),
{
    let ty = schema_type_label(p);
    let is_req = contains_name(required, p.name.as_str());
    let desc: Vec<char> = match &p.description {
        Some(d) => escape_pipes_exec(d.as_str()),
        None => {
            proof {
                assert(escape_pipes(Seq::<char>::empty()) == Seq::<char>::empty());
            }
            Vec::new()
        },
    };
    push_str(out, "| `");
    push_str(out, p.name.as_str());
    push_str(out, "` | ");
    push_str(out, ty.as_str());
    push_str(out, " | ");
    if is_req {
        push_str(out, "yes");
    } else {
        push_str(out, "no");
    }
    push_str(out, " | ");
    push_chars(out, desc.as_slice());
    push_str(out, " |\n");
}

fn push_property_rows(out: &mut String, props: &Vec<PropertyDoc>, required: &Vec<String>)
    ensures
        final(out)@ == old(out)@ + property_rows(props@, required@.map_values(|s: String| s@)),
{
    let ghost rv = required@.map_values(|s: String| s@);
    let ghost head = out@;
    let mut i: usize = 0;
    while i < props.len()
        invariant
            0 <= i <= props@.len(),
            rv == required@.map_values(|s: String| s@),
            out@ == head + property_rows(props@.take(i as int), rv),
        decreases props@.len() - i,
    {
        proof {
            assert(props@.take(i + 1).drop_last() == props@.take(i as int));
            assert(props@.take(i + 1).last() == props@[i as int]);
        }
        push_property_row(out, &props[i], required);
        i = i + 1;
    }
    proof {
        assert(props@.take(i as int) == props@);
    }
}

/// Render a human-readable Markdown document for an embedded JSON Schema:
/// title, description, required fields, a property table (pipes escaped),
/// and the pretty-printed schema in a fenced block.
pub fn render_schema_markdown(cmd: &str, schema: &SchemaDoc) -> (r: String)
    ensures
        r@ == schema_md(cmd@, *schema),
{
    let mut out = String::new();
    push_str(&mut out, "# Schema: `");
    push_str(&mut out, cmd);
    push_str(&mut out, "`\n\n");
    push_str(&mut out, "**Title:** ");
    match &schema.title {
        Some(t) => push_str(&mut out, t.as_str()),
        None => push_str(&mut out, cmd),
    }
    push_str(&mut out, "\n\n");
    match &schema.description {
        Some(d) => {
            push_str(&mut out, d.as_str());
            push_str(&mut out, "\n\n");
        },
        None => {},
    }
    let required: Vec<String> = match &schema.required {
        Some(req) => string_entries_exec(req),
        None => Vec::new(),
    };
    proof {
        if schema.required is None {
            assert(required@.map_values(|s: String| s@) =~= Seq::<Seq<char>>::empty());
        }
    }
    match &schema.required {
        Some(_) => {
            push_str(&mut out, "## Required fields\n\n");
            push_required_lines(&mut out, &required);
            push_str(&mut out, "\n");
        },
        None => {},
    }
    push_str(&mut out, "## Properties\n\n");
    push_str(&mut out, "| property | type | required | description |\n");
    push_str(&mut out, "| --- | --- | --- | --- |\n");
    match &schema.properties {
        Some(props) => push_property_rows(&mut out, props, &required),
        None => push_str(&mut out, "| _(none)_ | | | |\n"),
    }
    push_str(&mut out, "\n## JSON Schema\n\n");
    push_str(&mut out, "```json\n");
    push_str(&mut out, schema.pretty.as_str());
    push_str(&mut out, "\n```\n");
    out
}

} // verus!
