//! One node of a graph as a statement of source text.
//!
//! A node is a for-loop, a conditional or a plain call, looked for in that
//! order. The call is the operation or referenced graph with its inputs,
//! followed by its chained attributes in a fixed order.

use crate::decompiler::ident::{
    check_id, checked_id, id_rest_char, is_id_rest, is_identifier, result_view,
};
use crate::decompiler::options::DecompileOptions;
use crate::decompiler::params::{
    indent, indent_text, input_text, overflows, params_render, value_string, value_text,
    ParamFormatter, Rendered,
};
use crate::json::{
    find_member, lookup, members_view, values_view, JsonMember, JsonModel, JsonValue, MemberModel,
};
use crate::text::{
    add_col, double_col, join, join_all, last_segment, last_segment_of, sat_add, sat_double,
    str_eq, text_width, texts, to_chars, width,
};
use vstd::prelude::*;

verus! {

/// The indentation of what continues a statement: two steps.
pub open spec fn step(opts: DecompileOptions) -> usize {
    sat_double(opts.indent)
}

/// The strings among the first `n` items, in order.
pub open spec fn text_items(items: Seq<JsonModel>, n: int) -> Seq<Seq<char>>
    decreases n,
{
    if n <= 0 || n > items.len() {
        Seq::empty()
    } else {
        match items[n - 1] {
            JsonModel::Text(s) => text_items(items, n - 1).push(s),
            _ => text_items(items, n - 1),
        }
    }
}

/// The strings among the items, in order.
pub open spec fn all_text_items(items: Seq<JsonModel>) -> Seq<Seq<char>> {
    text_items(items, items.len() as int)
}

/// The strings among the items, in order; anything else is passed over.
pub fn strings_in(items: &Vec<JsonValue>) -> (r: Vec<String>)
    ensures
        texts(r@) == all_text_items(values_view(items@)),
{
    let mut out: Vec<String> = Vec::new();
    let mut i: usize = 0;
    assert(texts(out@) =~= text_items(values_view(items@), 0));
    while i < items.len()
        invariant
            i <= items.len(),
            texts(out@) == text_items(values_view(items@), i as int),
        decreases items.len() - i,
    {
        let ghost before = out@;
        match items[i].as_str() {
            Some(s) => {
                out.push(s.to_owned());
                assert(texts(out@) =~= texts(before).push(s@));
            },
            None => {},
        }
        i += 1;
    }
    out
}

/// Whether a string stands among the inputs of a call as it is: it is not
/// empty and made of the characters of identifiers.
pub open spec fn is_word(s: Seq<char>) -> bool {
    s.len() > 0 && forall|i: int| 0 <= i < s.len() ==> is_id_rest(#[trigger] s[i])
}

/// One member of a dictionary among the inputs: `key:value`.
pub open spec fn entry_text(m: MemberModel) -> Seq<char> {
    m.key + ":"@ + value_text(m.value)
}

/// The members of a dictionary among the inputs.
pub open spec fn entry_texts(members: Seq<MemberModel>) -> Seq<Seq<char>> {
    Seq::new(members.len(), |i: int| entry_text(members[i]))
}

/// A positional input: a word as it is, any other string between single
/// quotes with its quotes escaped, a dictionary between braces. Anything else
/// is no input.
pub open spec fn input_item(v: JsonModel) -> Option<Seq<char>> {
    match v {
        JsonModel::Text(s) => Some(
            if is_word(s) {
                s
            } else {
                value_text(v)
            },
        ),
        JsonModel::Object(members) => Some("{"@ + join_all(entry_texts(members), ","@) + "}"@),
        _ => None,
    }
}

/// The positional inputs among the first `n` items, in order.
pub open spec fn input_items(items: Seq<JsonModel>, n: int) -> Seq<Seq<char>>
    decreases n,
{
    if n <= 0 || n > items.len() {
        Seq::empty()
    } else {
        match input_item(items[n - 1]) {
            Some(t) => input_items(items, n - 1).push(t),
            None => input_items(items, n - 1),
        }
    }
}

/// The positional inputs among the items, in order.
pub open spec fn all_input_items(items: Seq<JsonModel>) -> Seq<Seq<char>> {
    input_items(items, items.len() as int)
}

/// Whether the string is a word.
pub fn is_word_text(s: &str) -> (r: bool)
    ensures
        r == is_word(s@),
{
    let cs = to_chars(s);
    if cs.len() == 0 {
        return false;
    }
    let mut i: usize = 0;
    while i < cs.len()
        invariant
            i <= cs.len(),
            cs@ == s@,
            forall|j: int| 0 <= j < i ==> is_id_rest(#[trigger] cs@[j]),
        decreases cs.len() - i,
    {
        if !id_rest_char(cs[i]) {
            return false;
        }
        i += 1;
    }
    true
}

/// A positional input as text, where the item is one.
pub fn input_item_of(item: &JsonValue) -> (r: Option<String>)
    ensures
        crate::compiler::ir::text_of(r) == input_item(item@),
{
    match item.as_str() {
        Some(s) => {
            if is_word_text(s) {
                Some(s.to_owned())
            } else {
                Some(value_string(item))
            }
        },
        None => match item.as_object() {
            Some(members) => {
                let ghost mm = members_view(members@);
                let mut entries: Vec<String> = Vec::new();
                let mut i: usize = 0;
                while i < members.len()
                    invariant
                        i <= members.len(),
                        entries@.len() == i,
                        mm == members_view(members@),
                        forall|j: int| 0 <= j < i ==> entries@[j]@ == entry_text(mm[j]),
                    decreases members.len() - i,
                {
                    let mut e = members[i].key.clone();
                    e.append(":");
                    e.append(value_string(&members[i].value).as_str());
                    entries.push(e);
                    i += 1;
                }
                assert(texts(entries@) =~= entry_texts(mm));
                let mut out = "{".to_owned();
                out.append(join(&entries, ",").as_str());
                out.append("}");
                Some(out)
            },
            None => None,
        },
    }
}

/// The positional inputs among the items, in order; anything else is passed
/// over.
pub fn inputs_in(items: &Vec<JsonValue>) -> (r: Vec<String>)
    ensures
        texts(r@) == all_input_items(values_view(items@)),
{
    let mut out: Vec<String> = Vec::new();
    let mut i: usize = 0;
    assert(texts(out@) =~= input_items(values_view(items@), 0));
    while i < items.len()
        invariant
            i <= items.len(),
            texts(out@) == input_items(values_view(items@), i as int),
        decreases items.len() - i,
    {
        let ghost before = out@;
        match input_item_of(&items[i]) {
            Some(s) => {
                out.push(s);
                assert(texts(out@) =~= texts(before).push(s@));
            },
            None => {},
        }
        i += 1;
    }
    out
}

/// The first `n` items of a list in the wrapped layout: an item that would
/// pass the limit starts a new line at two steps.
pub open spec fn list_steps(
    items: Seq<Seq<char>>,
    col: usize,
    delimiter: Seq<char>,
    opts: DecompileOptions,
    n: int,
) -> Rendered
    decreases n,
{
    if n <= 0 || n > items.len() {
        Rendered { text: Seq::empty(), col: col }
    } else {
        let prev = list_steps(items, col, delimiter, opts, n - 1);
        let cur = sat_add(prev.col, sat_add(sat_add(step(opts), width(items[n - 1])), 1));
        let tail = if n < items.len() {
            delimiter
        } else {
            Seq::empty()
        };
        if cur > opts.max_col {
            Rendered {
                text: prev.text + indent_text(step(opts)) + items[n - 1] + tail,
                col: step(opts),
            }
        } else {
            Rendered { text: prev.text + items[n - 1] + tail, col: cur }
        }
    }
}

/// A list of names at column `col`: on one line where it fits, else wrapped.
pub open spec fn list_layout(
    items: Seq<Seq<char>>,
    col: usize,
    delimiter: Seq<char>,
    opts: DecompileOptions,
) -> Rendered {
    let candidate = join_all(items, delimiter);
    if overflows(col, width(candidate), opts) {
        list_steps(items, col, delimiter, opts, items.len() as int)
    } else {
        Rendered { text: candidate, col: sat_add(col, width(candidate)) }
    }
}

/// An input as it is written: itself.
pub fn str_input(data: &str) -> (r: String)
    ensures
        r@ == data@,
{
    data.to_owned()
}

/// Appends a list of names at column `col` and returns the column reached.
pub fn indent_list(
    inputs: &Vec<String>,
    col: usize,
    delimiter: &str,
    buffer: &mut String,
    opts: &DecompileOptions,
) -> (r: usize)
    ensures
        final(buffer)@ == old(buffer)@ + list_layout(texts(inputs@), col, delimiter@, *opts).text,
        r == list_layout(texts(inputs@), col, delimiter@, *opts).col,
{
    let candidate = join(inputs, delimiter);
    let ghost items = texts(inputs@);
    if add_col(col, text_width(candidate.as_str())) > opts.max_col && opts.indent > 0 {
        let two = double_col(opts.indent);
        let mut current_col = col;
        let mut i: usize = 0;
        assert(buffer@ =~= old(buffer)@ + list_steps(items, col, delimiter@, *opts, 0).text);
        while i < inputs.len()
            invariant
                i <= inputs.len(),
                items == texts(inputs@),
                two == step(*opts),
                buffer@ == old(buffer)@ + list_steps(items, col, delimiter@, *opts, i as int).text,
                current_col == list_steps(items, col, delimiter@, *opts, i as int).col,
            decreases inputs.len() - i,
        {
            let ghost prev = list_steps(items, col, delimiter@, *opts, i as int);
            let ghost tail = if i + 1 < inputs.len() {
                delimiter@
            } else {
                Seq::<char>::empty()
            };
            assert(items[i as int] == inputs@[i as int]@);
            let item = str_input(inputs[i].as_str());
            current_col =
            add_col(current_col, add_col(add_col(two, text_width(inputs[i].as_str())), 1));
            let ghost brk = if current_col > opts.max_col {
                indent_text(two)
            } else {
                Seq::<char>::empty()
            };
            if current_col > opts.max_col {
                indent(buffer, two);
                current_col = two;
            }
            buffer.append(item.as_str());
            if i < inputs.len() - 1 {
                buffer.append(delimiter);
            }
            i += 1;
            assert(buffer@ =~= old(buffer)@ + prev.text + brk + items[i - 1] + tail);
            assert(list_steps(items, col, delimiter@, *opts, i as int).text =~= prev.text + brk
                + items[i - 1] + tail);
            assert(buffer@ =~= old(buffer)@ + (prev.text + brk + items[i - 1] + tail));
        }
        current_col
    } else {
        buffer.append(candidate.as_str());
        add_col(col, text_width(candidate.as_str()))
    }
}

/// Appends a list of inputs at column `col` and returns the column reached.
pub fn indent_inputs(
    inputs: &Vec<String>,
    col: usize,
    delimiter: &str,
    buffer: &mut String,
    opts: &DecompileOptions,
) -> (r: usize)
    ensures
        final(buffer)@ == old(buffer)@ + list_layout(texts(inputs@), col, delimiter@, *opts).text,
        r == list_layout(texts(inputs@), col, delimiter@, *opts).col,
{
    indent_list(inputs, col, delimiter, buffer, opts)
}

/// A chained suffix written at column `col`: on a new line at two steps
/// where it would pass the limit, else on the spot.
pub open spec fn suffix_text(input: Seq<char>, col: usize, opts: DecompileOptions) -> Seq<char> {
    if overflows(col, width(input), opts) {
        indent_text(step(opts)) + input
    } else {
        input
    }
}

/// The column behind a chained suffix written at column `col`.
pub open spec fn suffix_col(input: Seq<char>, col: usize, opts: DecompileOptions) -> usize {
    if overflows(col, width(input), opts) {
        sat_add(step(opts), width(input))
    } else {
        sat_add(col, width(input))
    }
}

/// Appends a chained suffix at column `col` and returns the column reached.
pub fn indent_str(buffer: &mut String, input: &str, col: usize, opts: &DecompileOptions) -> (r:
    usize)
    ensures
        final(buffer)@ == old(buffer)@ + suffix_text(input@, col, *opts),
        r == suffix_col(input@, col, *opts),
{
    if add_col(col, text_width(input)) > opts.max_col && opts.indent > 0 {
        let two = double_col(opts.indent);
        indent(buffer, two);
        buffer.append(input);
        assert(buffer@ =~= old(buffer)@ + (indent_text(two) + input@));
        add_col(two, text_width(input))
    } else {
        buffer.append(input);
        add_col(col, text_width(input))
    }
}

/// The suffix as a text of its own.
fn suffix(input: &str, opts: &DecompileOptions) -> (r: String)
    ensures
        r@ == suffix_text(input@, 0, *opts),
{
    let mut out = String::new();
    let _ = indent_str(&mut out, input, 0, opts);
    assert(out@ =~= suffix_text(input@, 0, *opts));
    out
}

/// What a node calls: the graph it refers to, else its operation.
pub struct Callee {
    pub is_ref: bool,
    pub name: Seq<char>,
}

/// What a node calls, where it says so with a string.
pub open spec fn callee(node: JsonModel) -> Option<Callee> {
    match node.get_text("ref_graph"@) {
        Some(r) => Some(Callee { is_ref: true, name: r }),
        None => match node.get_text("op_name"@) {
            Some(o) => Some(Callee { is_ref: false, name: o }),
            None => None,
        },
    }
}

/// The call up to the parenthesis that opens its inputs: `name(`, or
/// `ref(name)(` for a referenced graph.
pub open spec fn call_head(c: Callee) -> Seq<char> {
    if c.is_ref {
        "ref("@ + c.name + ")("@
    } else {
        c.name + "("@
    }
}

/// One keyed input: `key=value`, the value in compact notation.
pub open spec fn input_pair(m: MemberModel) -> Seq<char> {
    m.key + "="@ + input_text(m.value)
}

/// The keyed inputs of a call.
pub open spec fn input_pairs(members: Seq<MemberModel>) -> Seq<Seq<char>> {
    Seq::new(members.len(), |i: int| input_pair(members[i]))
}

/// The inputs of a call: the positional inputs of an array, or the pairs of
/// an object.
pub open spec fn inputs_text(node: JsonModel, opts: DecompileOptions) -> Seq<char> {
    match node.get("input"@) {
        Some(JsonModel::Array(items)) => list_layout(
            all_input_items(items),
            step(opts),
            ","@,
            opts,
        ).text,
        Some(JsonModel::Object(members)) => list_layout(
            input_pairs(members),
            step(opts),
            ","@,
            opts,
        ).text,
        _ => Seq::empty(),
    }
}

/// An input value in compact notation: a single item of an array alone,
/// several between parentheses.
pub fn input_str(inputs: &JsonValue) -> (r: String)
    ensures
        r@ == input_text(inputs@),
{
    match inputs.as_array() {
        Some(items) => {
            if items.len() == 1 {
                items[0].json_text()
            } else {
                let all = crate::json::items_json_text(items);
                let cs = crate::text::to_chars(all.as_str());
                let ghost inner = crate::json::array_text(
                    values_view(items@),
                    items@.len() as int,
                );
                proof {
                    reveal_strlit("[");
                    reveal_strlit("]");
                    assert(cs@ =~= seq!['['] + inner + seq![']']);
                    assert(cs@.len() == inner.len() + 2);
                    assert(cs@.subrange(1, cs@.len() - 1) =~= inner);
                }
                let mut out = "(".to_owned();
                crate::text::push_chars(&mut out, &cs, 1, cs.len() - 1);
                out.append(")");
                out
            }
        },
        None => inputs.json_text(),
    }
}

fn inputs_part(node: &JsonValue, opts: &DecompileOptions) -> (r: String)
    ensures
        r@ == inputs_text(node@, *opts),
{
    let mut out = String::new();
    let two = double_col(opts.indent);
    match node.get("input") {
        Some(inputs) => {
            match inputs.as_array() {
                Some(items) => {
                    let strings = inputs_in(items);
                    let _ = indent_inputs(&strings, two, ",", &mut out, opts);
                    assert(out@ =~= inputs_text(node@, *opts));
                },
                None => {
                    match inputs.as_object() {
                        Some(members) => {
                            let ghost mm = members_view(members@);
                            let mut strings: Vec<String> = Vec::new();
                            let mut i: usize = 0;
                            while i < members.len()
                                invariant
                                    i <= members.len(),
                                    strings@.len() == i,
                                    mm == members_view(members@),
                                    forall|j: int|
                                        0 <= j < i ==> strings@[j]@ == input_pair(mm[j]),
                                decreases members.len() - i,
                            {
                                let mut s = members[i].key.clone();
                                s.append("=");
                                let v = input_str(&members[i].value);
                                s.append(v.as_str());
                                strings.push(s);
                                i += 1;
                            }
                            assert(texts(strings@) =~= input_pairs(mm));
                            let _ = indent_inputs(&strings, two, ",", &mut out, opts);
                            assert(out@ =~= inputs_text(node@, *opts));
                        },
                        None => {},
                    }
                },
            }
        },
        None => {},
    }
    out
}

/// One literal attribute: `.key(value)` where both are strings, else nothing.
pub open spec fn attr_text(attr: JsonModel, opts: DecompileOptions) -> Seq<char> {
    match attr {
        JsonModel::Object(_) => match (attr.get_text("key"@), attr.get_text("value"@)) {
            (Some(k), Some(v)) => suffix_text("."@ + k + "("@ + v + ")"@, 0, opts),
            _ => Seq::empty(),
        },
        _ => Seq::empty(),
    }
}

/// The first `n` literal attributes.
pub open spec fn attrs_steps(attrs: Seq<JsonModel>, opts: DecompileOptions, n: int) -> Seq<char>
    decreases n,
{
    if n <= 0 || n > attrs.len() {
        Seq::empty()
    } else {
        attrs_steps(attrs, opts, n - 1) + attr_text(attrs[n - 1], opts)
    }
}

/// The literal attributes of a node.
pub open spec fn attrs_text(node: JsonModel, opts: DecompileOptions) -> Seq<char> {
    match node.get("attrs"@) {
        Some(JsonModel::Array(attrs)) => attrs_steps(attrs, opts, attrs.len() as int),
        _ => Seq::empty(),
    }
}

fn attrs_part(node: &JsonValue, opts: &DecompileOptions) -> (r: String)
    ensures
        r@ == attrs_text(node@, *opts),
{
    let mut out = String::new();
    match node.get("attrs") {
        Some(v) => match v.as_array() {
            Some(attrs) => {
                let ghost aa = values_view(attrs@);
                let mut i: usize = 0;
                while i < attrs.len()
                    invariant
                        i <= attrs.len(),
                        aa == values_view(attrs@),
                        out@ == attrs_steps(aa, *opts, i as int),
                    decreases attrs.len() - i,
                {
                    let ghost before = out@;
                    let attr = &attrs[i];
                    if attr.is_object() {
                        match attr.get_str("key") {
                            Some(k) => match attr.get_str("value") {
                                Some(val) => {
                                    let mut s = ".".to_owned();
                                    s.append(k);
                                    s.append("(");
                                    s.append(val);
                                    s.append(")");
                                    let _ = indent_str(&mut out, s.as_str(), 0, opts);
                                },
                                None => {},
                            },
                            None => {},
                        }
                    }
                    assert(out@ =~= before + attr_text(aa[i as int], *opts));
                    i += 1;
                }
            },
            None => {},
        },
        None => {},
    }
    out
}

/// The version of a node: `.version('v')` where it is a string.
pub open spec fn version_text(node: JsonModel, opts: DecompileOptions) -> Seq<char> {
    match node.get_text("version"@) {
        Some(v) => suffix_text(".version('"@ + v + "')"@, 0, opts),
        None => Seq::empty(),
    }
}

fn version_part(node: &JsonValue, opts: &DecompileOptions) -> (r: String)
    ensures
        r@ == version_text(node@, *opts),
{
    match node.get_str("version") {
        Some(v) => {
            let mut s = ".version('".to_owned();
            s.append(v);
            s.append("')");
            suffix(s.as_str(), opts)
        },
        None => String::new(),
    }
}

/// The alias of a node: `.as(name)` where it has one.
pub open spec fn alias_text(has_as: bool, node_as: Seq<char>, opts: DecompileOptions) -> Seq<char> {
    if has_as {
        suffix_text(".as("@ + node_as + ")"@, 0, opts)
    } else {
        Seq::empty()
    }
}

/// The markers of a node: `.as(start)` and `.as(end)` for the members `start`
/// and `end`, whatever they hold.
pub open spec fn markers_text(node: JsonModel, opts: DecompileOptions) -> Seq<char> {
    (if node.get("start"@) is Some {
        suffix_text(".as(start)"@, 0, opts)
    } else {
        Seq::empty()
    }) + (if node.get("end"@) is Some {
        suffix_text(".as(end)"@, 0, opts)
    } else {
        Seq::empty()
    })
}

fn markers_part(node: &JsonValue, opts: &DecompileOptions) -> (r: String)
    ensures
        r@ == markers_text(node@, *opts),
{
    let mut out = if node.get("start").is_some() {
        suffix(".as(start)", opts)
    } else {
        String::new()
    };
    let tail = if node.get("end").is_some() {
        suffix(".as(end)", opts)
    } else {
        String::new()
    };
    out.append(tail.as_str());
    out
}

/// The dependencies of a node: `.depend(a,b)` with the strings of the array.
pub open spec fn depend_text(node: JsonModel, opts: DecompileOptions) -> Seq<char> {
    match node.get("depend"@) {
        Some(JsonModel::Array(items)) => suffix_text(
            ".depend("@ + join_all(all_text_items(items), ","@) + ")"@,
            0,
            opts,
        ),
        _ => Seq::empty(),
    }
}

fn depend_part(node: &JsonValue, opts: &DecompileOptions) -> (r: String)
    ensures
        r@ == depend_text(node@, *opts),
{
    match node.get("depend") {
        Some(v) => match v.as_array() {
            Some(items) => {
                let names = strings_in(items);
                let joined = join(&names, ",");
                let mut s = ".depend(".to_owned();
                s.append(joined.as_str());
                s.append(")");
                suffix(s.as_str(), opts)
            },
            None => String::new(),
        },
        None => String::new(),
    }
}

/// What stands between the parentheses of `.override(..)`: nothing for
/// `null`, else the value in compact notation.
pub open spec fn override_value(v: JsonModel) -> Seq<char> {
    match v {
        JsonModel::Null => Seq::empty(),
        _ => v.text(),
    }
}

/// The override of a node: `.override(value)` where the member is there.
pub open spec fn override_text(node: JsonModel, opts: DecompileOptions) -> Seq<char> {
    match node.get("override"@) {
        Some(v) => suffix_text(".override("@ + override_value(v) + ")"@, 0, opts),
        None => Seq::empty(),
    }
}

fn override_part(node: &JsonValue, opts: &DecompileOptions) -> (r: String)
    ensures
        r@ == override_text(node@, *opts),
{
    match node.get("override") {
        Some(v) => {
            let inner = match v {
                JsonValue::Null => String::new(),
                _ => v.json_text(),
            };
            let mut s = ".override(".to_owned();
            s.append(inner.as_str());
            s.append(")");
            suffix(s.as_str(), opts)
        },
        None => String::new(),
    }
}

/// One list-style attribute: on a new line at two steps, `.key(` and the
/// parameter list, which starts behind the parenthesis, then `)`.
pub open spec fn param_text(node: JsonModel, key: Seq<char>, opts: DecompileOptions) -> Seq<char> {
    match node.get(key) {
        Some(v) => indent_text(step(opts)) + "."@ + key + "("@ + params_render(
            v,
            ',',
            sat_add(sat_add(step(opts), width(key)), 1),
            opts,
        ).text + ")"@,
        None => Seq::empty(),
    }
}

fn param_part(node: &JsonValue, key: &str, opts: &DecompileOptions) -> (r: String)
    ensures
        r@ == param_text(node@, key@, *opts),
{
    match node.get(key) {
        Some(v) => {
            let two = double_col(opts.indent);
            let mut out = String::new();
            indent(&mut out, two);
            out.append(".");
            out.append(key);
            out.append("(");
            let f = ParamFormatter::new(v, ',');
            let _ = f.format(&mut out, add_col(add_col(two, text_width(key)), 1), opts);
            out.append(")");
            assert(out@ =~= param_text(node@, key@, *opts));
            out
        },
        None => String::new(),
    }
}

/// The complaint about a node that names neither operation nor graph.
pub open spec fn no_callee_error(node_as: Seq<char>) -> Seq<char> {
    "Node "@ + node_as + " has no op_name or ref_graph"@
}

/// A node as a call: the callee, the inputs between parentheses, then the
/// chained attributes in their fixed order: literal attributes, version,
/// alias, markers, dependencies, override, and the list-style attributes
/// `property`, `with`, `log`, `metrics`, `funnel`. The name of the callee
/// and, where there is one, the alias have to be identifiers.
#[verifier::opaque]
pub open spec fn node_block_text(
    node: JsonModel,
    has_as: bool,
    node_as: Seq<char>,
    opts: DecompileOptions,
) -> Result<Seq<char>, Seq<char>> {
    match callee(node) {
        None => Err(no_callee_error(node_as)),
        Some(c) => if !is_identifier(c.name) {
            checked_id(c.name)
        } else if has_as && !is_identifier(node_as) {
            checked_id(node_as)
        } else {
            Ok(
                call_head(c) + inputs_text(node, opts) + ")"@ + attrs_text(node, opts) + version_text(node, opts) + alias_text(
                    has_as,
                    node_as,
                    opts,
                ) + markers_text(node, opts) + depend_text(node, opts) + override_text(node, opts)
                    + param_text(node, "property"@, opts) + param_text(node, "with"@, opts)
                    + param_text(node, "log"@, opts) + param_text(node, "metrics"@, opts)
                    + param_text(node, "funnel"@, opts),
            )
        },
    }
}

/// Renders one node of a graph.
pub struct NodeDecompiler<'a> {
    /// The key under which the graph holds the node.
    pub node_as: &'a str,
    pub node: &'a JsonValue,
}

/// Whether the node is a for-loop: its member `for_loop` is an object that
/// is not empty and has both `inputs` and `outputs`.
pub open spec fn is_for_loop(node: JsonModel) -> bool {
    match node.get("for_loop"@) {
        Some(JsonModel::Object(fl)) => fl.len() > 0 && lookup(fl, "inputs"@) is Some && lookup(
            fl,
            "outputs"@,
        ) is Some,
        _ => false,
    }
}

/// What a for-loop iterates over: the string `inputs`, else nothing.
pub open spec fn loop_inputs(fl: Seq<MemberModel>) -> Seq<char> {
    match lookup(fl, "inputs"@) {
        Some(JsonModel::Text(s)) => s,
        _ => Seq::empty(),
    }
}

/// The variables of a for-loop: the strings of the array `outputs` with
/// `, ` between, or the string `outputs`, else nothing.
pub open spec fn loop_outputs(fl: Seq<MemberModel>) -> Seq<char> {
    match lookup(fl, "outputs"@) {
        Some(JsonModel::Array(items)) => join_all(all_text_items(items), ", "@),
        Some(JsonModel::Text(s)) => s,
        _ => Seq::empty(),
    }
}

/// The filter of a for-loop: `if condition` on a line of its own where
/// `condition` is a string.
pub open spec fn loop_condition(fl: Seq<MemberModel>, opts: DecompileOptions) -> Seq<char> {
    match lookup(fl, "condition"@) {
        Some(JsonModel::Text(c)) => indent_text(step(opts)) + "if "@ + c,
        _ => Seq::empty(),
    }
}

/// A for-loop: `[call for outputs in inputs if condition];`, the call with
/// its alias.
#[verifier::opaque]
pub open spec fn for_loop_text(
    node: JsonModel,
    fl: Seq<MemberModel>,
    node_as: Seq<char>,
    opts: DecompileOptions,
) -> Result<Seq<char>, Seq<char>> {
    match node_block_text(node, true, node_as, opts) {
        Err(e) => Err(e),
        Ok(block) => Ok(
            "["@ + block + indent_text(step(opts)) + "for "@ + loop_outputs(fl) + " in "@
                + loop_inputs(fl) + loop_condition(fl, opts) + "];"@,
        ),
    }
}

/// A conditional: `condition ? call : call;`. The condition has to be a
/// string and both branches have to be there.
#[verifier::opaque]
pub open spec fn condition_text(node: JsonModel, node_as: Seq<char>, opts: DecompileOptions) -> Result<
    Seq<char>,
    Seq<char>,
> {
    match node.get_text("condition"@) {
        None => Err("Condition node "@ + node_as + " must have string condition"@),
        Some(c) => match node.get("true_branch"@) {
            None => Err("Condition node "@ + node_as + " must have true branch"@),
            Some(tb) => match node_block_text(tb, false, node_as, opts) {
                Err(e) => Err(e),
                Ok(tt) => match node.get("false_branch"@) {
                    None => Err("Condition node "@ + node_as + " must have false branch"@),
                    Some(fb) => match node_block_text(fb, false, node_as, opts) {
                        Err(e) => Err(e),
                        Ok(ft) => Ok(c + " ? "@ + tt + " : "@ + ft + ";"@),
                    },
                },
            },
        },
    }
}

/// The last dotted segment of each name.
pub open spec fn last_segments(names: Seq<Seq<char>>) -> Seq<Seq<char>> {
    Seq::new(names.len(), |i: int| last_segment(names[i]))
}

/// What stands left of the `=`: the key where the outputs, joined by commas,
/// are the key; else the last dotted segment of each output.
pub open spec fn outputs_text(
    names: Seq<Seq<char>>,
    node_as: Seq<char>,
    opts: DecompileOptions,
) -> Seq<char> {
    if join_all(names, ","@) != node_as {
        list_layout(last_segments(names), opts.indent, ","@, opts).text
    } else {
        join_all(names, ","@)
    }
}

/// One node as a statement on a line of its own: the outputs, ` = `, and the
/// for-loop, the conditional (operation `builtin.conditions.str`) or the
/// plain call with `;`. A node needs an array `output`.
#[verifier::opaque]
pub open spec fn node_text(node_as: Seq<char>, node: JsonModel, opts: DecompileOptions) -> Result<
    Seq<char>,
    Seq<char>,
> {
    match node.get("output"@) {
        Some(JsonModel::Array(outputs)) => {
            let names = all_text_items(outputs);
            let has_as = join_all(names, ","@) != node_as;
            let head = indent_text(opts.indent) + outputs_text(names, node_as, opts) + " = "@;
            let body = if is_for_loop(node) {
                for_loop_text(node, node.get("for_loop"@).unwrap()->Object_0, node_as, opts)
            } else if node.get_text("op_name"@) == Some("builtin.conditions.str"@) {
                condition_text(node, node_as, opts)
            } else {
                match node_block_text(node, has_as, node_as, opts) {
                    Err(e) => Err(e),
                    Ok(t) => Ok(t + ";"@),
                }
            };
            match body {
                Err(e) => Err(e),
                Ok(t) => Ok(head + t),
            }
        },
        _ => Err("Node "@ + node_as + " has no output"@),
    }
}

impl<'a> NodeDecompiler<'a> {
    pub fn new(node_as: &'a str, node: &'a JsonValue) -> (r: Self)
        ensures
            r.node_as == node_as,
            r.node == node,
    {
        NodeDecompiler { node_as, node }
    }

    /// The node as a statement of source text.
    pub fn decompile(&self, opts: &DecompileOptions) -> (r: Result<String, String>)
        ensures
            result_view(r) == node_text(self.node_as@, self.node@, *opts),
    {
        proof {
            reveal(node_text);
        }
        let outputs = match self.node.get("output") {
            Some(v) => match v.as_array() {
                Some(items) => items,
                None => {
                    return Err(self.complaint("Node ", " has no output"));
                },
            },
            None => {
                return Err(self.complaint("Node ", " has no output"));
            },
        };
        let ghost names = all_text_items(values_view(outputs@));
        let mut head = String::new();
        indent(&mut head, opts.indent);
        let strings = strings_in(outputs);
        let output_key = join(&strings, ",");
        let has_as = !str_eq(output_key.as_str(), self.node_as);
        if has_as {
            let mut simplified: Vec<String> = Vec::new();
            let mut i: usize = 0;
            while i < strings.len()
                invariant
                    i <= strings.len(),
                    simplified@.len() == i,
                    forall|j: int| 0 <= j < i ==> simplified@[j]@ == last_segment(strings@[j]@),
                decreases strings.len() - i,
            {
                simplified.push(last_segment_of(strings[i].as_str()));
                i += 1;
            }
            assert(texts(simplified@) =~= last_segments(names));
            let _ = indent_list(&simplified, opts.indent, ",", &mut head, opts);
        } else {
            head.append(output_key.as_str());
        }
        head.append(" = ");
        assert(head@ == indent_text(opts.indent) + outputs_text(names, self.node_as@, *opts)
            + " = "@);
        match self.node.get("for_loop") {
            Some(v) => match v.as_object() {
                Some(fl) => {
                    if fl.len() > 0 && find_member(fl, "inputs").is_some() && find_member(
                        fl,
                        "outputs",
                    ).is_some() {
                        assert(is_for_loop(self.node@));
                        return match self.for_loop(fl, opts) {
                            Ok(t) => {
                                head.append(t.as_str());
                                Ok(head)
                            },
                            Err(e) => Err(e),
                        };
                    }
                },
                None => {},
            },
            None => {},
        }
        assert(!is_for_loop(self.node@));
        match self.node.get_str("op_name") {
            Some(op_name) => {
                if str_eq(op_name, "builtin.conditions.str") {
                    return match self.condition_node(opts) {
                        Ok(t) => {
                            head.append(t.as_str());
                            Ok(head)
                        },
                        Err(e) => Err(e),
                    };
                }
            },
            None => {},
        }
        match self.node_block(has_as, opts) {
            Ok(t) => {
                head.append(t.as_str());
                head.append(";");
                assert(head@ =~= indent_text(opts.indent) + outputs_text(
                    names,
                    self.node_as@,
                    *opts,
                ) + " = "@ + (t@ + ";"@));
                Ok(head)
            },
            Err(e) => Err(e),
        }
    }

    /// A complaint that names this node between two fixed texts.
    fn complaint(&self, before: &str, after: &str) -> (r: String)
        ensures
            r@ == before@ + self.node_as@ + after@,
    {
        let mut e = before.to_owned();
        e.append(self.node_as);
        e.append(after);
        e
    }

    /// The node as a for-loop.
    pub fn for_loop(&self, for_loop: &Vec<JsonMember>, opts: &DecompileOptions) -> (r: Result<
        String,
        String,
    >)
        ensures
            result_view(r) == for_loop_text(
                self.node@,
                members_view(for_loop@),
                self.node_as@,
                *opts,
            ),
    {
        proof {
            reveal(for_loop_text);
        }
        let block = match self.node_block(true, opts) {
            Ok(t) => t,
            Err(e) => {
                return Err(e);
            },
        };
        let ghost fl = members_view(for_loop@);
        let for_inputs = match find_member(for_loop, "inputs") {
            Some(v) => match v.as_str() {
                Some(s) => s.to_owned(),
                None => String::new(),
            },
            None => String::new(),
        };
        let for_outputs = match find_member(for_loop, "outputs") {
            Some(v) => match v.as_array() {
                Some(items) => {
                    let names = strings_in(items);
                    join(&names, ", ")
                },
                None => match v.as_str() {
                    Some(s) => s.to_owned(),
                    None => String::new(),
                },
            },
            None => String::new(),
        };
        let two = double_col(opts.indent);
        let condition = match find_member(for_loop, "condition") {
            Some(v) => match v.as_str() {
                Some(c) => {
                    let mut s = String::new();
                    indent(&mut s, two);
                    s.append("if ");
                    s.append(c);
                    assert(s@ =~= indent_text(two) + "if "@ + c@);
                    s
                },
                None => String::new(),
            },
            None => String::new(),
        };
        assert(for_inputs@ == loop_inputs(fl));
        assert(for_outputs@ == loop_outputs(fl));
        assert(condition@ == loop_condition(fl, *opts));
        let mut out = "[".to_owned();
        out.append(block.as_str());
        indent(&mut out, two);
        out.append("for ");
        out.append(for_outputs.as_str());
        out.append(" in ");
        out.append(for_inputs.as_str());
        out.append(condition.as_str());
        out.append("];");
        Ok(out)
    }

    /// The node as a conditional.
    pub fn condition_node(&self, opts: &DecompileOptions) -> (r: Result<String, String>)
        ensures
            result_view(r) == condition_text(self.node@, self.node_as@, *opts),
    {
        proof {
            reveal(condition_text);
        }
        let condition = match self.node.get_str("condition") {
            Some(c) => c,
            None => {
                return Err(self.complaint("Condition node ", " must have string condition"));
            },
        };
        let true_branch = match self.node.get("true_branch") {
            Some(b) => b,
            None => {
                return Err(self.complaint("Condition node ", " must have true branch"));
            },
        };
        let tt = match self.node_block_from_value(true_branch, false, self.node_as, opts) {
            Ok(t) => t,
            Err(e) => {
                return Err(e);
            },
        };
        let false_branch = match self.node.get("false_branch") {
            Some(b) => b,
            None => {
                return Err(self.complaint("Condition node ", " must have false branch"));
            },
        };
        let ft = match self.node_block_from_value(false_branch, false, self.node_as, opts) {
            Ok(t) => t,
            Err(e) => {
                return Err(e);
            },
        };
        let mut out = condition.to_owned();
        out.append(" ? ");
        out.append(tt.as_str());
        out.append(" : ");
        out.append(ft.as_str());
        out.append(";");
        Ok(out)
    }

    /// The node as a call.
    pub fn node_block(&self, has_as: bool, opts: &DecompileOptions) -> (r: Result<String, String>)
        ensures
            result_view(r) == node_block_text(self.node@, has_as, self.node_as@, *opts),
    {
        self.node_block_from_value(self.node, has_as, self.node_as, opts)
    }

    /// A node value as a call, with `node_as` as its alias where `has_as`
    /// says so.
    pub fn node_block_from_value(
        &self,
        node: &JsonValue,
        has_as: bool,
        node_as: &str,
        opts: &DecompileOptions,
    ) -> (r: Result<String, String>)
        ensures
            result_view(r) == node_block_text(node@, has_as, node_as@, *opts),
    {
        proof {
            reveal(node_block_text);
        }
        let mut out = String::new();
        let (is_ref, name) = match node.get_str("ref_graph") {
            Some(ref_graph) => {
                out.append("ref(");
                (true, ref_graph)
            },
            None => match node.get_str("op_name") {
                Some(op_name) => (false, op_name),
                None => {
                    let mut e = "Node ".to_owned();
                    e.append(node_as);
                    e.append(" has no op_name or ref_graph");
                    return Err(e);
                },
            },
        };
        let ghost c = callee(node@).unwrap();
        let checked_name = match check_id(name) {
            Ok(n) => n,
            Err(e) => {
                return Err(e);
            },
        };
        out.append(checked_name.as_str());
        if is_ref {
            out.append(")(");
        } else {
            out.append("(");
        }
        assert(out@ =~= call_head(c));
        let inputs = inputs_part(node, opts);
        out.append(inputs.as_str());
        out.append(")");
        let attrs = attrs_part(node, opts);
        out.append(attrs.as_str());
        let version = version_part(node, opts);
        out.append(version.as_str());
        if has_as {
            let checked_as = match check_id(node_as) {
                Ok(n) => n,
                Err(e) => {
                    return Err(e);
                },
            };
            let mut s = ".as(".to_owned();
            s.append(checked_as.as_str());
            s.append(")");
            let alias = suffix(s.as_str(), opts);
            out.append(alias.as_str());
        } else {
            assert(out@ =~= out@ + Seq::<char>::empty());
        }
        let markers = markers_part(node, opts);
        out.append(markers.as_str());
        let depend = depend_part(node, opts);
        out.append(depend.as_str());
        let over = override_part(node, opts);
        out.append(over.as_str());
        let p = param_part(node, "property", opts);
        out.append(p.as_str());
        let p = param_part(node, "with", opts);
        out.append(p.as_str());
        let p = param_part(node, "log", opts);
        out.append(p.as_str());
        let p = param_part(node, "metrics", opts);
        out.append(p.as_str());
        let p = param_part(node, "funnel", opts);
        out.append(p.as_str());
        Ok(out)
    }
}

} // verus!
