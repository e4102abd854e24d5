//! Operation definitions with their meta, input, output and config sections.

use crate::decompiler::graph::{
    closing_alias, closing_alias_of, closing_brace, decompile_graph, graph_text,
};
use crate::decompiler::ident::result_view;
use crate::decompiler::options::DecompileOptions;
use crate::decompiler::params::{indent, indent_text, params_render, ParamFormatter};
use crate::decompiler::node::step;
use crate::json::{
    find_member, lemma_object_view, lookup, members_view, values_view, JsonMember, JsonModel,
    JsonValue, MemberModel,
};
use crate::text::{double_col, int_text, join, join_all, push_int, str_eq, texts};
use vstd::prelude::*;

verus! {

/// A value between single quotes.
pub open spec fn quoted_plain(v: JsonModel) -> Seq<char> {
    "'"@ + v.plain() + "'"@
}

fn quoted(v: &JsonValue) -> (r: String)
    ensures
        r@ == quoted_plain(v@),
{
    let mut out = "'".to_owned();
    let p = v.plain_text();
    out.append(p.as_str());
    out.append("'");
    out
}

/// The integer member with this key.
pub open spec fn get_int(v: JsonModel, key: Seq<char>) -> Option<int> {
    match v.get(key) {
        Some(x) => x.as_int(),
        None => None,
    }
}

fn int_member(v: &JsonValue, key: &str) -> (r: Option<i64>)
    ensures
        match r {
            Some(n) => get_int(v@, key@) == Some(n as int),
            None => get_int(v@, key@) is None,
        },
{
    match v.get(key) {
        Some(x) => x.as_i64(),
        None => None,
    }
}

/// The lower end of a range: `[ge`, else `(gt`, else an open `[`.
pub open spec fn lower_bound(v: JsonModel) -> Seq<char> {
    match get_int(v, "ge"@) {
        Some(n) => "["@ + int_text(n),
        None => match get_int(v, "gt"@) {
            Some(n) => "("@ + int_text(n),
            None => "["@,
        },
    }
}

/// The upper end of a range: `le]`, else `lt)`, else an open `]`.
pub open spec fn upper_bound(v: JsonModel) -> Seq<char> {
    match get_int(v, "le"@) {
        Some(n) => int_text(n) + "]"@,
        None => match get_int(v, "lt"@) {
            Some(n) => int_text(n) + ")"@,
            None => "]"@,
        },
    }
}

/// A length or range: the number `eq` alone, else the two bounds with a comma
/// between.
pub open spec fn range_text(v: JsonModel) -> Seq<char> {
    match get_int(v, "eq"@) {
        Some(n) => int_text(n),
        None => lower_bound(v) + ","@ + upper_bound(v),
    }
}

/// A length or range as source text.
pub fn op_length_range_format(inputs: &JsonValue) -> (r: String)
    ensures
        r@ == range_text(inputs@),
{
    match int_member(inputs, "eq") {
        Some(n) => {
            return crate::text::i64_text(n);
        },
        None => {},
    }
    let mut result = match int_member(inputs, "ge") {
        Some(n) => {
            let mut s = "[".to_owned();
            push_int(&mut s, n);
            s
        },
        None => match int_member(inputs, "gt") {
            Some(n) => {
                let mut s = "(".to_owned();
                push_int(&mut s, n);
                s
            },
            None => "[".to_owned(),
        },
    };
    result.append(",");
    let upper = match int_member(inputs, "le") {
        Some(n) => {
            let mut s = String::new();
            push_int(&mut s, n);
            s.append("]");
            assert(s@ =~= int_text(n as int) + "]"@);
            s
        },
        None => match int_member(inputs, "lt") {
            Some(n) => {
                let mut s = String::new();
                push_int(&mut s, n);
                s.append(")");
                assert(s@ =~= int_text(n as int) + ")"@);
                s
            },
            None => "]".to_owned(),
        },
    };
    result.append(upper.as_str());
    result
}

/// The choices of a specification, each between single quotes.
pub open spec fn choice_items(items: Seq<JsonModel>) -> Seq<Seq<char>> {
    Seq::new(items.len(), |i: int| quoted_plain(items[i]))
}

/// The value of one item of a specification: `dtype` plain, `length` and
/// `range` as ranges, `choice` as a list between parentheses, anything else
/// between single quotes.
pub open spec fn spec_value_text(key: Seq<char>, v: JsonModel) -> Seq<char> {
    if key == "dtype"@ {
        v.plain()
    } else if key == "length"@ || key == "range"@ {
        range_text(v)
    } else if key == "choice"@ {
        match v {
            JsonModel::Array(items) => "("@ + join_all(choice_items(items), ","@) + ")"@,
            _ => quoted_plain(v),
        }
    } else {
        quoted_plain(v)
    }
}

fn spec_value(key: &str, v: &JsonValue) -> (r: String)
    ensures
        r@ == spec_value_text(key@, v@),
{
    if str_eq(key, "dtype") {
        v.plain_text()
    } else if str_eq(key, "length") || str_eq(key, "range") {
        op_length_range_format(v)
    } else if str_eq(key, "choice") {
        match v.as_array() {
            Some(items) => {
                let ghost vv = values_view(items@);
                let mut strings: Vec<String> = Vec::new();
                let mut i: usize = 0;
                while i < items.len()
                    invariant
                        i <= items.len(),
                        strings@.len() == i,
                        vv == values_view(items@),
                        forall|j: int| 0 <= j < i ==> strings@[j]@ == quoted_plain(vv[j]),
                    decreases items.len() - i,
                {
                    strings.push(quoted(&items[i]));
                    i += 1;
                }
                assert(texts(strings@) =~= choice_items(vv));
                let joined = join(&strings, ",");
                let mut out = "(".to_owned();
                out.append(joined.as_str());
                out.append(")");
                out
            },
            None => quoted(v),
        }
    } else {
        quoted(v)
    }
}

/// One item of a specification: `key=value`.
pub open spec fn spec_item(m: MemberModel) -> Seq<char> {
    m.key + "="@ + spec_value_text(m.key, m.value)
}

/// The items of a specification.
pub open spec fn spec_items(members: Seq<MemberModel>) -> Seq<Seq<char>> {
    Seq::new(members.len(), |i: int| spec_item(members[i]))
}

/// The body of a specification: its items with commas between where it is an
/// object, else nothing.
pub open spec fn spec_body(v: JsonModel) -> Seq<char> {
    match v {
        JsonModel::Object(members) => join_all(spec_items(members), ","@),
        _ => Seq::empty(),
    }
}

fn spec_body_of(v: &JsonValue) -> (r: String)
    ensures
        r@ == spec_body(v@),
{
    match v.as_object() {
        Some(members) => {
            let ghost mm = members_view(members@);
            let mut strings: Vec<String> = Vec::new();
            let mut i: usize = 0;
            while i < members.len()
                invariant
                    i <= members.len(),
                    strings@.len() == i,
                    mm == members_view(members@),
                    forall|j: int| 0 <= j < i ==> strings@[j]@ == spec_item(mm[j]),
                decreases members.len() - i,
            {
                let mut s = members[i].key.clone();
                s.append("=");
                let v = spec_value(members[i].key.as_str(), &members[i].value);
                s.append(v.as_str());
                strings.push(s);
                i += 1;
            }
            assert(texts(strings@) =~= spec_items(mm));
            join(&strings, ",")
        },
        None => String::new(),
    }
}

/// The first `n` specifications of a section: `name:(items);`, each on a
/// line of its own at `col` where indentation is on.
pub open spec fn specs_steps(members: Seq<MemberModel>, col: usize, opts: DecompileOptions, n: int) -> Seq<
    char,
>
    decreases n,
{
    if n <= 0 || n > members.len() {
        Seq::empty()
    } else {
        specs_steps(members, col, opts, n - 1) + members[n - 1].key + ":("@ + spec_body(
            members[n - 1].value,
        ) + ");"@ + (if n < members.len() && opts.indent > 0 {
            indent_text(col)
        } else {
            Seq::empty()
        })
    }
}

/// The specifications of a section.
pub open spec fn specs_text(members: Seq<MemberModel>, col: usize, opts: DecompileOptions) -> Seq<
    char,
> {
    specs_steps(members, col, opts, members.len() as int)
}

/// Appends the specifications of a section.
pub fn op_spec_format(
    inputs: &Vec<JsonMember>,
    buffer: &mut String,
    col: usize,
    opts: &DecompileOptions,
)
    ensures
        final(buffer)@ == old(buffer)@ + specs_text(members_view(inputs@), col, *opts),
{
    let ghost mm = members_view(inputs@);
    let mut i: usize = 0;
    assert(buffer@ =~= old(buffer)@ + specs_steps(mm, col, *opts, 0));
    while i < inputs.len()
        invariant
            i <= inputs.len(),
            mm == members_view(inputs@),
            buffer@ == old(buffer)@ + specs_steps(mm, col, *opts, i as int),
        decreases inputs.len() - i,
    {
        let ghost before = buffer@;
        let ghost prev = specs_steps(mm, col, *opts, i as int);
        let ghost tail = if i + 1 < inputs.len() && opts.indent > 0 {
            indent_text(col)
        } else {
            Seq::<char>::empty()
        };
        buffer.append(inputs[i].key.as_str());
        buffer.append(":(");
        let body = spec_body_of(&inputs[i].value);
        buffer.append(body.as_str());
        buffer.append(");");
        let ghost mid = buffer@;
        if i < inputs.len() - 1 && opts.indent > 0 {
            indent(buffer, col);
        } else {
            assert(buffer@ =~= mid + tail);
        }
        i += 1;
        assert(buffer@ == before + mm[i - 1].key + ":("@ + spec_body(mm[i - 1].value) + ");"@
            + tail);
        assert(specs_steps(mm, col, *opts, i as int) == prev + mm[i - 1].key + ":("@ + spec_body(
            mm[i - 1].value,
        ) + ");"@ + tail);
        assert(buffer@ =~= old(buffer)@ + (prev + mm[i - 1].key + ":("@ + spec_body(
            mm[i - 1].value,
        ) + ");"@ + tail));
    }
}

/// Whether a member of `metas` belongs to the closing line and not to the
/// meta section.
pub open spec fn is_closing_key(key: Seq<char>) -> bool {
    key == "as"@ || key == "version"@
}

/// The first `n` members without those of the closing line, in order.
pub open spec fn meta_members(members: Seq<MemberModel>, n: int) -> Seq<MemberModel>
    decreases n,
{
    if n <= 0 || n > members.len() {
        Seq::empty()
    } else if is_closing_key(members[n - 1].key) {
        meta_members(members, n - 1)
    } else {
        meta_members(members, n - 1).push(members[n - 1])
    }
}

/// The members of `metas`; none where it is no object.
pub open spec fn metas_of(op: JsonModel) -> Seq<MemberModel> {
    match op.get("metas"@) {
        Some(JsonModel::Object(members)) => members,
        _ => Seq::empty(),
    }
}

/// A string among the members, by its key.
pub open spec fn meta_string(members: Seq<MemberModel>, key: Seq<char>) -> Option<Seq<char>> {
    match lookup(members, key) {
        Some(v) => v.as_text(),
        None => None,
    }
}

/// The meta section: the members of `metas` that are neither alias nor
/// version, as a parameter list between `meta {` and `};`. Without such
/// members there is no section.
pub open spec fn meta_section(op: JsonModel, opts: DecompileOptions) -> Seq<char> {
    let rest = meta_members(metas_of(op), metas_of(op).len() as int);
    if rest.len() > 0 {
        indent_text(opts.indent) + "meta {"@ + params_render(
            JsonModel::Object(rest),
            ',',
            step(opts),
            opts,
        ).text + indent_text(opts.indent) + "};"@
    } else {
        Seq::empty()
    }
}

/// One section of specifications: the member `key`, where it is an object,
/// between `title` and `};`.
pub open spec fn spec_section(
    op: JsonModel,
    key: Seq<char>,
    title: Seq<char>,
    opts: DecompileOptions,
) -> Seq<char> {
    match op.get(key) {
        Some(JsonModel::Object(members)) => indent_text(opts.indent) + title + specs_text(
            members,
            step(opts),
            opts,
        ) + indent_text(opts.indent) + "};"@,
        _ => Seq::empty(),
    }
}

/// The graph that an operation embeds.
pub open spec fn embedded_graph(op: JsonModel, opts: DecompileOptions) -> Result<
    Seq<char>,
    Seq<char>,
> {
    match op.get("graph"@) {
        Some(g) => graph_text(g, opts),
        None => Ok(Seq::empty()),
    }
}

/// A string of the closing line: the one among the metas, else the one that
/// the operation itself holds under the key.
pub open spec fn closing_string(op: JsonModel, key: Seq<char>) -> Option<Seq<char>> {
    match meta_string(metas_of(op), key) {
        Some(s) => Some(s),
        None => op.get_text(key),
    }
}

/// An operation: `op {`, the meta section, the input, output and config
/// sections, the embedded graph, the closing brace with the alias and the
/// version of the operation, and `;`.
#[verifier::opaque]
pub open spec fn op_text(op: JsonModel, opts: DecompileOptions) -> Result<Seq<char>, Seq<char>> {
    if !(op is Object) {
        Err("Operation must be a JSON object"@)
    } else {
        match embedded_graph(op, opts) {
            Err(e) => Err(e),
            Ok(graph) => match closing_alias(
                closing_string(op, "as"@),
                closing_string(op, "version"@),
            ) {
                Err(e) => Err(e),
                Ok(alias) => Ok(
                    "op {"@ + meta_section(op, opts) + spec_section(
                        op,
                        "inputs"@,
                        "input {"@,
                        opts,
                    ) + spec_section(op, "outputs"@, "output {"@, opts) + spec_section(
                        op,
                        "configs"@,
                        "config {"@,
                        opts,
                    ) + graph + closing_brace(opts) + alias + ";"@,
                ),
            },
        }
    }
}

fn meta_rest(members: &Vec<JsonMember>) -> (r: Vec<JsonMember>)
    ensures
        members_view(r@) == meta_members(members_view(members@), members@.len() as int),
{
    let ghost mm = members_view(members@);
    let mut out: Vec<JsonMember> = Vec::new();
    let mut i: usize = 0;
    assert(members_view(out@) =~= meta_members(mm, 0));
    while i < members.len()
        invariant
            i <= members.len(),
            mm == members_view(members@),
            members_view(out@) == meta_members(mm, i as int),
        decreases members.len() - i,
    {
        let ghost before = members_view(out@);
        let key = members[i].key.as_str();
        if !(str_eq(key, "as") || str_eq(key, "version")) {
            let copy = JsonMember { key: members[i].key.clone(), value: members[i].value.deep_copy() };
            out.push(copy);
            assert(members_view(out@) =~= before.push(mm[i as int]));
        }
        i += 1;
    }
    out
}

fn meta_part(op: &JsonValue, opts: &DecompileOptions) -> (r: String)
    ensures
        r@ == meta_section(op@, *opts),
{
    let empty: Vec<JsonMember> = Vec::new();
    assert(members_view(empty@) =~= Seq::<MemberModel>::empty());
    let metas = match op.get("metas") {
        Some(v) => match v.as_object() {
            Some(members) => members,
            None => &empty,
        },
        None => &empty,
    };
    assert(members_view(metas@) == metas_of(op@));
    let rest = meta_rest(metas);
    if rest.len() > 0 {
        let mut out = String::new();
        indent(&mut out, opts.indent);
        out.append("meta {");
        proof {
            lemma_object_view(rest);
        }
        let meta_value = JsonValue::Object(rest);
        let f = ParamFormatter::new(&meta_value, ',');
        let _ = f.format(&mut out, double_col(opts.indent), opts);
        indent(&mut out, opts.indent);
        out.append("};");
        assert(out@ =~= meta_section(op@, *opts));
        out
    } else {
        String::new()
    }
}

fn section_part(op: &JsonValue, key: &str, title: &str, opts: &DecompileOptions) -> (r: String)
    ensures
        r@ == spec_section(op@, key@, title@, *opts),
{
    match op.get(key) {
        Some(v) => match v.as_object() {
            Some(members) => {
                let mut out = String::new();
                indent(&mut out, opts.indent);
                out.append(title);
                op_spec_format(members, &mut out, double_col(opts.indent), opts);
                indent(&mut out, opts.indent);
                out.append("};");
                assert(out@ =~= spec_section(op@, key@, title@, *opts));
                out
            },
            None => String::new(),
        },
        None => String::new(),
    }
}

fn meta_str<'a>(op: &'a JsonValue, key: &str) -> (r: Option<&'a str>)
    ensures
        crate::json::opt_text(r) == meta_string(metas_of(op@), key@),
{
    match op.get("metas") {
        Some(v) => match v.as_object() {
            Some(members) => match find_member(members, key) {
                Some(x) => x.as_str(),
                None => None,
            },
            None => {
                assert(lookup(Seq::<MemberModel>::empty(), key@) is None);
                None
            },
        },
        None => {
            assert(lookup(Seq::<MemberModel>::empty(), key@) is None);
            None
        },
    }
}

fn closing_str<'a>(op: &'a JsonValue, key: &str) -> (r: Option<&'a str>)
    ensures
        crate::json::opt_text(r) == closing_string(op@, key@),
{
    match meta_str(op, key) {
        Some(s) => Some(s),
        None => op.get_str(key),
    }
}

/// An operation as source text.
pub fn decompile_op(op: &JsonValue, opts: &DecompileOptions) -> (r: Result<String, String>)
    ensures
        result_view(r) == op_text(op@, *opts),
{
    proof {
        reveal(op_text);
    }
    if !op.is_object() {
        return Err("Operation must be a JSON object".to_owned());
    }
    let mut out = "op {".to_owned();
    let meta = meta_part(op, opts);
    out.append(meta.as_str());
    let inputs = section_part(op, "inputs", "input {", opts);
    out.append(inputs.as_str());
    let outputs = section_part(op, "outputs", "output {", opts);
    out.append(outputs.as_str());
    let configs = section_part(op, "configs", "config {", opts);
    out.append(configs.as_str());
    let graph = match op.get("graph") {
        Some(g) => match decompile_graph(g, opts) {
            Ok(t) => t,
            Err(e) => {
                return Err(e);
            },
        },
        None => String::new(),
    };
    out.append(graph.as_str());
    if opts.indent > 0 {
        out.append("\n}");
    } else {
        out.append("}");
    }
    let alias = match closing_alias_of(closing_str(op, "as"), closing_str(op, "version")) {
        Ok(a) => a,
        Err(e) => {
            return Err(e);
        },
    };
    out.append(alias.as_str());
    out.append(";");
    Ok(out)
}

} // verus!
