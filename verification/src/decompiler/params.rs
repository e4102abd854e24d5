//! The column-budget printer for key/value lists and the values inside them.
//!
//! A list is first laid out on one line. Where that line would run past the
//! column limit, and indentation is on, each item gets a line of its own and
//! the same test is made again inside every object and array.

use crate::decompiler::options::DecompileOptions;
use crate::json::{
    array_text, lemma_array_view, lemma_object_view, members_view, values_view, JsonMember,
    JsonModel, JsonValue, MemberModel,
};
use crate::text::{
    add_col, escape_quotes, join, join_all, push_escaped_quotes, push_spaces, sat_add, sat_sub,
    spaces_text, sub_col, text_width, texts, width,
};
use vstd::prelude::*;

verus! {

/// A line feed and `spaces` spaces; nothing where `spaces` is 0.
pub open spec fn indent_text(spaces: usize) -> Seq<char> {
    if spaces > 0 {
        seq!['\n'] + spaces_text(spaces as nat)
    } else {
        Seq::empty()
    }
}

/// Starts a new line indented by `spaces`; does nothing where `spaces` is 0.
pub fn indent(buffer: &mut String, spaces: usize)
    ensures
        final(buffer)@ == old(buffer)@ + indent_text(spaces),
{
    if spaces > 0 {
        buffer.push('\n');
        push_spaces(buffer, spaces);
    }
}

/// A value as it stands in source text: a string between single quotes with
/// each `'` escaped, anything else in compact JSON notation.
pub open spec fn value_text(v: JsonModel) -> Seq<char> {
    match v {
        JsonModel::Text(s) => "'"@ + escape_quotes(s) + "'"@,
        _ => v.text(),
    }
}

/// The texts of a sequence of values.
pub open spec fn value_texts(items: Seq<JsonModel>) -> Seq<Seq<char>> {
    Seq::new(items.len(), |i: int| value_text(items[i]))
}

/// One item of a parameter list: `key=value`.
pub open spec fn param_item(m: MemberModel) -> Seq<char> {
    m.key + "="@ + value_text(m.value)
}

/// The items of a parameter list.
pub open spec fn param_items(members: Seq<MemberModel>) -> Seq<Seq<char>> {
    Seq::new(members.len(), |i: int| param_item(members[i]))
}

/// One member of a nested object: `key: value`.
pub open spec fn dict_item(m: MemberModel) -> Seq<char> {
    m.key + ": "@ + value_text(m.value)
}

/// The members of a nested object.
pub open spec fn dict_items(members: Seq<MemberModel>) -> Seq<Seq<char>> {
    Seq::new(members.len(), |i: int| dict_item(members[i]))
}

/// Whether text of this width, written at column `col`, runs past the limit
/// while indentation is on.
pub open spec fn overflows(col: usize, w: usize, opts: DecompileOptions) -> bool {
    sat_add(col, w) > opts.max_col && opts.indent > 0
}

/// Rendered text and the column that the printer has reached.
pub struct Rendered {
    pub text: Seq<char>,
    pub col: usize,
}

/// A value at column `col`: objects and arrays by their own layouts, anything
/// else on the spot.
pub open spec fn dfs_render(v: JsonModel, col: usize, opts: DecompileOptions) -> Rendered
    decreases v, 0nat, 3nat,
{
    match v {
        JsonModel::Object(members) => dict_render(members, col, opts),
        JsonModel::Array(items) => list_render(items, col, opts),
        _ => Rendered { text: value_text(v), col: sat_add(col, width(value_text(v))) },
    }
}

/// An object between braces: on one line where it fits, else one member per
/// line, indented one step beyond `col`, with the closing brace on its own
/// line one column before `col`.
pub open spec fn dict_render(members: Seq<MemberModel>, col: usize, opts: DecompileOptions) -> Rendered
    decreases members, members.len() + 1, 2nat,
{
    let candidate = join_all(dict_items(members), ","@);
    if overflows(sat_add(col, 1), width(candidate), opts) {
        let body = dict_wrapped(members, col, opts, members.len() as int);
        Rendered {
            text: "{"@ + body.text + indent_text(sat_sub(col, 1)) + "}"@,
            col: sat_add(body.col, 1),
        }
    } else {
        Rendered {
            text: "{"@ + candidate + "}"@,
            col: sat_add(sat_add(col, width(candidate)), 1),
        }
    }
}

/// The `i`-th member of an object in the one-per-line layout: a new line one
/// step beyond `col`, the member as on one line where that stays within the
/// limit, else its key followed by the nested layout of its value, and a comma
/// behind every member but the last.
pub open spec fn dict_piece(members: Seq<MemberModel>, col: usize, opts: DecompileOptions, i: int) -> Rendered
    decreases members, i, 0nat,
{
    if i < 0 || i >= members.len() {
        Rendered { text: Seq::empty(), col: col }
    } else {
        let base = sat_add(col, opts.indent);
        let item = dict_item(members[i]);
        let cur = sat_add(sat_add(base, width(item)), 1);
        let comma = if i + 1 < members.len() {
            ","@
        } else {
            Seq::empty()
        };
        if cur > opts.max_col {
            let key = members[i].key + ": "@;
            let d = dfs_render(members[i].value, sat_add(base, width(key)), opts);
            Rendered { text: indent_text(base) + key + d.text + comma, col: d.col }
        } else {
            Rendered { text: indent_text(base) + item + comma, col: cur }
        }
    }
}

/// The first `n` members of an object in the one-per-line layout.
pub open spec fn dict_wrapped(
    members: Seq<MemberModel>,
    col: usize,
    opts: DecompileOptions,
    n: int,
) -> Rendered
    decreases members, n, 1nat,
{
    if n <= 0 || n > members.len() {
        Rendered { text: Seq::empty(), col: sat_add(col, 1) }
    } else {
        let prev = dict_wrapped(members, col, opts, n - 1);
        let piece = dict_piece(members, col, opts, n - 1);
        Rendered { text: prev.text + piece.text, col: piece.col }
    }
}

/// An array between brackets: on one line where it fits, else each item that
/// would pass the limit on a new line at `col`.
pub open spec fn list_render(items: Seq<JsonModel>, col: usize, opts: DecompileOptions) -> Rendered
    decreases items, items.len() + 1, 2nat,
{
    let candidate = join_all(value_texts(items), ","@);
    if overflows(sat_add(col, 1), width(candidate), opts) {
        let body = list_wrapped(items, col, opts, items.len() as int);
        Rendered { text: "["@ + body.text + "]"@, col: sat_add(body.col, 1) }
    } else {
        Rendered {
            text: "["@ + candidate + "]"@,
            col: sat_add(sat_add(col, width(candidate)), 1),
        }
    }
}

/// The `i`-th item of an array in the wrapped layout when the printer stands
/// at column `at`: the item on the spot where that stays within the limit,
/// else on a new line at `col` in its nested layout, and a comma behind every
/// item but the last.
pub open spec fn list_piece(
    items: Seq<JsonModel>,
    col: usize,
    opts: DecompileOptions,
    at: usize,
    i: int,
) -> Rendered
    decreases items, i, 0nat,
{
    if i < 0 || i >= items.len() {
        Rendered { text: Seq::empty(), col: at }
    } else {
        let item = value_text(items[i]);
        let cur = sat_add(sat_add(at, width(item)), 1);
        let comma = if i + 1 < items.len() {
            ","@
        } else {
            Seq::empty()
        };
        if cur > opts.max_col {
            let d = dfs_render(items[i], col, opts);
            Rendered { text: indent_text(col) + d.text + comma, col: d.col }
        } else {
            Rendered { text: item + comma, col: cur }
        }
    }
}

/// The first `n` items of an array in the wrapped layout.
pub open spec fn list_wrapped(items: Seq<JsonModel>, col: usize, opts: DecompileOptions, n: int) -> Rendered
    decreases items, n, 1nat,
{
    if n <= 0 || n > items.len() {
        Rendered { text: Seq::empty(), col: sat_add(col, 1) }
    } else {
        let prev = list_wrapped(items, col, opts, n - 1);
        let piece = list_piece(items, col, opts, prev.col, n - 1);
        Rendered { text: prev.text + piece.text, col: piece.col }
    }
}

/// What separates two items of a wrapped parameter list: the delimiter and a
/// new line indented to `col`.
pub open spec fn item_break(delimiter: char, col: usize) -> Seq<char> {
    seq![delimiter] + indent_text(col)
}

/// The `i`-th item of a wrapped parameter list when the printer stands at
/// column `at`: the item as on one line where that stays within the limit,
/// else its key followed by the nested layout of its value.
pub open spec fn wrapped_piece(
    members: Seq<MemberModel>,
    col: usize,
    opts: DecompileOptions,
    at: usize,
    i: int,
) -> Rendered {
    let item = param_item(members[i]);
    let cur = sat_add(sat_add(at, width(item)), 1);
    if cur > opts.max_col {
        let key = members[i].key + "="@;
        let d = dfs_render(members[i].value, sat_add(col, width(key)), opts);
        Rendered { text: key + d.text, col: d.col }
    } else {
        Rendered { text: item, col: cur }
    }
}

/// The first `n` items of a parameter list in the one-per-line layout, each
/// but the last of the whole list followed by the break.
pub open spec fn params_wrapped(
    members: Seq<MemberModel>,
    delimiter: char,
    col: usize,
    opts: DecompileOptions,
    n: int,
) -> Rendered
    decreases n,
{
    if n <= 0 || n > members.len() {
        Rendered { text: Seq::empty(), col: col }
    } else {
        let prev = params_wrapped(members, delimiter, col, opts, n - 1);
        let piece = wrapped_piece(members, col, opts, prev.col, n - 1);
        let tail = if n < members.len() {
            item_break(delimiter, col)
        } else {
            Seq::empty()
        };
        Rendered { text: prev.text + piece.text + tail, col: piece.col }
    }
}

/// The one-line layout of a parameter list.
pub open spec fn params_line(members: Seq<MemberModel>, delimiter: char) -> Seq<char> {
    join_all(param_items(members), seq![delimiter])
}

/// A parameter list at column `col`. Anything but an object renders as
/// nothing and leaves the column where it is.
pub open spec fn params_render(
    inputs: JsonModel,
    delimiter: char,
    col: usize,
    opts: DecompileOptions,
) -> Rendered {
    match inputs {
        JsonModel::Object(members) => {
            let line = params_line(members, delimiter);
            if overflows(col, width(line), opts) {
                params_wrapped(members, delimiter, col, opts, members.len() as int)
            } else {
                Rendered { text: line, col: sat_add(col, width(line)) }
            }
        },
        _ => Rendered { text: Seq::empty(), col: col },
    }
}

/// The text of the pieces of a wrapped parameter list, one per item.
pub open spec fn wrapped_pieces(
    members: Seq<MemberModel>,
    delimiter: char,
    col: usize,
    opts: DecompileOptions,
) -> Seq<Seq<char>> {
    Seq::new(
        members.len(),
        |i: int|
            wrapped_piece(
                members,
                col,
                opts,
                params_wrapped(members, delimiter, col, opts, i).col,
                i,
            ).text,
    )
}

/// The wrapped layout is its pieces with the break between neighbours; a
/// prefix that is not the whole list ends with one more break.
pub proof fn lemma_wrapped_is_join(
    members: Seq<MemberModel>,
    delimiter: char,
    col: usize,
    opts: DecompileOptions,
    n: int,
)
    requires
        0 <= n <= members.len(),
    ensures
        params_wrapped(members, delimiter, col, opts, n).text == crate::text::join_text(
            wrapped_pieces(members, delimiter, col, opts),
            item_break(delimiter, col),
            n,
        ) + if 0 < n < members.len() {
            item_break(delimiter, col)
        } else {
            Seq::empty()
        },
    decreases n,
{
    let pieces = wrapped_pieces(members, delimiter, col, opts);
    let brk = item_break(delimiter, col);
    if n > 0 {
        lemma_wrapped_is_join(members, delimiter, col, opts, n - 1);
        let prev = params_wrapped(members, delimiter, col, opts, n - 1);
        assert(pieces[n - 1] == wrapped_piece(members, col, opts, prev.col, n - 1).text);
        if n == 1 {
            assert(crate::text::join_text(pieces, brk, 1) == pieces[0]);
            assert(prev.text + pieces[0] =~= pieces[0]);
        } else {
            assert(crate::text::join_text(pieces, brk, n) == crate::text::join_text(
                pieces,
                brk,
                n - 1,
            ) + brk + pieces[n - 1]);
        }
        assert(params_wrapped(members, delimiter, col, opts, n).text =~= crate::text::join_text(
            pieces,
            brk,
            n,
        ) + if 0 < n < members.len() {
            brk
        } else {
            Seq::empty()
        });
    } else {
        assert(params_wrapped(members, delimiter, col, opts, n).text =~= crate::text::join_text(
            pieces,
            brk,
            n,
        ) + Seq::<char>::empty());
    }
}

/// The column-wrap boundary. With indentation on, a parameter list whose
/// one-line layout ends within the column limit is rendered as that line; one
/// that would end beyond it is rendered one item per line: the delimiter
/// follows every item but the last, and each next item starts on a new line
/// indented to the column at which the list began. Columns are counted up to
/// the largest machine word and no further.
pub proof fn lemma_wrap_boundary(
    members: Seq<MemberModel>,
    delimiter: char,
    col: usize,
    opts: DecompileOptions,
)
    requires
        opts.indent > 0,
        col > 0,
    ensures
        sat_add(col, width(params_line(members, delimiter))) <= opts.max_col ==> params_render(
            JsonModel::Object(members),
            delimiter,
            col,
            opts,
        ).text == params_line(members, delimiter),
        sat_add(col, width(params_line(members, delimiter))) > opts.max_col ==> params_render(
            JsonModel::Object(members),
            delimiter,
            col,
            opts,
        ).text == join_all(
            wrapped_pieces(members, delimiter, col, opts),
            seq![delimiter] + seq!['\n'] + spaces_text(col as nat),
        ),
{
    lemma_wrapped_is_join(members, delimiter, col, opts, members.len() as int);
    assert(item_break(delimiter, col) =~= seq![delimiter] + seq!['\n'] + spaces_text(col as nat));
    assert(wrapped_pieces(members, delimiter, col, opts).len() == members.len());
    let t = join_all(wrapped_pieces(members, delimiter, col, opts), item_break(delimiter, col));
    assert(t + Seq::<char>::empty() =~= t);
}

/// The one-line case of the column budget. With indentation off, or where
/// the one-line layout written at `col` ends within the column limit, a
/// parameter list is rendered as that line and nothing else, and the printer
/// then stands at the column behind it; a column beyond the largest machine
/// word is counted as that word.
pub proof fn lemma_one_line(
    members: Seq<MemberModel>,
    delimiter: char,
    col: usize,
    opts: DecompileOptions,
)
    requires
        opts.indent == 0 || col + width(params_line(members, delimiter)) <= opts.max_col,
    ensures
        params_render(JsonModel::Object(members), delimiter, col, opts).text == params_line(
            members,
            delimiter,
        ),
        col + width(params_line(members, delimiter)) <= usize::MAX ==> params_render(
            JsonModel::Object(members),
            delimiter,
            col,
            opts,
        ).col == col + width(params_line(members, delimiter)),
        col + width(params_line(members, delimiter)) > usize::MAX ==> params_render(
            JsonModel::Object(members),
            delimiter,
            col,
            opts,
        ).col == usize::MAX,
{
}

/// Prints key/value lists within the column budget.
pub struct ParamFormatter<'a> {
    pub inputs: &'a JsonValue,
    pub delimiter: char,
}

/// `a + (b + c)` is `a + b + c`.
pub proof fn lemma_append3(a: Seq<char>, b: Seq<char>, c: Seq<char>)
    ensures
        a + (b + c) == a + b + c,
{
    assert(a + (b + c) =~= a + b + c);
}

impl<'a> ParamFormatter<'a> {
    pub fn new(inputs: &'a JsonValue, delimiter: char) -> (r: Self)
        ensures
            r.inputs == inputs,
            r.delimiter == delimiter,
    {
        ParamFormatter { inputs, delimiter }
    }

    /// Appends the list to `buffer`, starting at column `col`, and returns the
    /// column reached.
    pub fn format(&self, buffer: &mut String, col: usize, opts: &DecompileOptions) -> (r: usize)
        ensures
            final(buffer)@ == old(buffer)@ + params_render(
                self.inputs@,
                self.delimiter,
                col,
                *opts,
            ).text,
            r == params_render(self.inputs@, self.delimiter, col, *opts).col,
    {
        match self.inputs.as_object() {
            Some(members) => {
                let ghost mm = members_view(members@);
                let strings = self.param_strings(members);
                let mut d = String::new();
                d.push(self.delimiter);
                assert(d@ =~= seq![self.delimiter]);
                let candidate = join(&strings, d.as_str());
                if add_col(col, text_width(candidate.as_str())) > opts.max_col && opts.indent > 0 {
                    let mut current_col = col;
                    let mut i: usize = 0;
                    assert(buffer@ =~= old(buffer)@ + params_wrapped(
                        mm,
                        self.delimiter,
                        col,
                        *opts,
                        0,
                    ).text);
                    while i < members.len()
                        invariant
                            i <= members.len(),
                            strings@.len() == members.len(),
                            mm == members_view(members@),
                            texts(strings@) == param_items(mm),
                            buffer@ == old(buffer)@ + params_wrapped(
                                mm,
                                self.delimiter,
                                col,
                                *opts,
                                i as int,
                            ).text,
                            current_col == params_wrapped(
                                mm,
                                self.delimiter,
                                col,
                                *opts,
                                i as int,
                            ).col,
                        decreases members.len() - i,
                    {
                        let ghost prev = params_wrapped(mm, self.delimiter, col, *opts, i as int);
                        assert(strings@[i as int]@ == param_item(mm[i as int])) by {
                            assert(texts(strings@)[i as int] == strings@[i as int]@);
                        }
                        let mut piece = String::new();
                        current_col =
                        self.param_piece(
                            &mut piece,
                            members,
                            i,
                            strings[i].as_str(),
                            col,
                            current_col,
                            opts,
                        );
                        if i < members.len() - 1 {
                            piece.push(self.delimiter);
                            indent(&mut piece, col);
                        }
                        assert(piece@ =~= wrapped_piece(mm, col, *opts, prev.col, i as int).text + (
                        if i + 1 < members.len() {
                            item_break(self.delimiter, col)
                        } else {
                            Seq::<char>::empty()
                        }));
                        buffer.append(piece.as_str());
                        i += 1;
                        proof {
                            let next = params_wrapped(mm, self.delimiter, col, *opts, i as int);
                            assert(next.text =~= prev.text + piece@);
                            lemma_append3(old(buffer)@, prev.text, piece@);
                        }
                    }
                    current_col
                } else {
                    buffer.append(candidate.as_str());
                    add_col(col, text_width(candidate.as_str()))
                }
            },
            None => {
                assert(buffer@ =~= old(buffer)@ + Seq::<char>::empty());
                col
            },
        }
    }

    /// The items of the list as they stand on one line.
    fn param_strings(&self, members: &Vec<JsonMember>) -> (strings: Vec<String>)
        ensures
            texts(strings@) == param_items(members_view(members@)),
            strings@.len() == members@.len(),
    {
        let ghost mm = members_view(members@);
        let mut strings: Vec<String> = Vec::new();
        let mut i: usize = 0;
        while i < members.len()
            invariant
                i <= members.len(),
                strings@.len() == i,
                mm == members_view(members@),
                forall|j: int| 0 <= j < i ==> strings@[j]@ == param_item(mm[j]),
            decreases members.len() - i,
        {
            let mut s = members[i].key.clone();
            s.append("=");
            let v = self.format_value(&members[i].value);
            s.append(v.as_str());
            strings.push(s);
            i += 1;
        }
        assert(texts(strings@) =~= param_items(mm));
        strings
    }

    /// Appends the `i`-th item of a wrapped list, the printer standing at
    /// column `at`.
    fn param_piece(
        &self,
        buffer: &mut String,
        members: &Vec<JsonMember>,
        i: usize,
        item: &str,
        col: usize,
        at: usize,
        opts: &DecompileOptions,
    ) -> (r: usize)
        requires
            i < members.len(),
            item@ == param_item(members_view(members@)[i as int]),
        ensures
            final(buffer)@ == old(buffer)@ + wrapped_piece(
                members_view(members@),
                col,
                *opts,
                at,
                i as int,
            ).text,
            r == wrapped_piece(members_view(members@), col, *opts, at, i as int).col,
    {
        let current_col = add_col(add_col(at, text_width(item)), 1);
        if current_col > opts.max_col {
            let mut key = members[i].key.clone();
            key.append("=");
            let mut piece = key.clone();
            let r = self.dfs(
                &mut piece,
                &members[i].value,
                add_col(col, text_width(key.as_str())),
                opts,
            );
            buffer.append(piece.as_str());
            r
        } else {
            buffer.append(item);
            current_col
        }
    }

    /// Appends a value at column `col` and returns the column reached.
    pub fn dfs(&self, buffer: &mut String, input: &JsonValue, col: usize, opts: &DecompileOptions) -> (r:
        usize)
        ensures
            final(buffer)@ == old(buffer)@ + dfs_render(input@, col, *opts).text,
            r == dfs_render(input@, col, *opts).col,
        decreases input, 0nat, 3nat,
    {
        match input {
            JsonValue::Object(members) => {
                proof {
                    lemma_object_view(*members);
                }
                self.dict(buffer, members, col, opts)
            },
            JsonValue::Array(items) => {
                proof {
                    lemma_array_view(*items);
                }
                self.list(buffer, items, col, opts)
            },
            _ => {
                let formatted = self.format_value(input);
                buffer.append(formatted.as_str());
                add_col(col, text_width(formatted.as_str()))
            },
        }
    }

    /// The members of an object as they stand on one line.
    fn dict_strings(&self, inputs: &Vec<JsonMember>) -> (strings: Vec<String>)
        ensures
            texts(strings@) == dict_items(members_view(inputs@)),
            strings@.len() == inputs@.len(),
    {
        let ghost mm = members_view(inputs@);
        let mut strings: Vec<String> = Vec::new();
        let mut i: usize = 0;
        while i < inputs.len()
            invariant
                i <= inputs.len(),
                strings@.len() == i,
                mm == members_view(inputs@),
                forall|j: int| 0 <= j < i ==> strings@[j]@ == dict_item(mm[j]),
            decreases inputs.len() - i,
        {
            let mut s = inputs[i].key.clone();
            s.append(": ");
            let v = self.format_value(&inputs[i].value);
            s.append(v.as_str());
            strings.push(s);
            i += 1;
        }
        assert(texts(strings@) =~= dict_items(mm));
        strings
    }

    /// Appends the `i`-th member of a wrapped object.
    fn dict_member(
        &self,
        buffer: &mut String,
        inputs: &Vec<JsonMember>,
        i: usize,
        item: &str,
        col: usize,
        opts: &DecompileOptions,
    ) -> (r: usize)
        requires
            i < inputs.len(),
            item@ == dict_item(members_view(inputs@)[i as int]),
        ensures
            final(buffer)@ == old(buffer)@ + dict_piece(
                members_view(inputs@),
                col,
                *opts,
                i as int,
            ).text,
            r == dict_piece(members_view(inputs@), col, *opts, i as int).col,
        decreases inputs, i, 0nat,
    {
        let base = add_col(col, opts.indent);
        let mut piece = String::new();
        indent(&mut piece, base);
        let mut current_col = add_col(add_col(base, text_width(item)), 1);
        if current_col > opts.max_col {
            let mut key = inputs[i].key.clone();
            key.append(": ");
            piece.append(key.as_str());
            current_col =
            self.dfs(&mut piece, &inputs[i].value, add_col(base, text_width(key.as_str())), opts);
        } else {
            piece.append(item);
        }
        if i < inputs.len() - 1 {
            piece.append(",");
        }
        assert(piece@ =~= dict_piece(members_view(inputs@), col, *opts, i as int).text);
        buffer.append(piece.as_str());
        current_col
    }

    /// Appends an object at column `col` and returns the column reached.
    pub fn dict(
        &self,
        buffer: &mut String,
        inputs: &Vec<JsonMember>,
        col: usize,
        opts: &DecompileOptions,
    ) -> (r: usize)
        ensures
            final(buffer)@ == old(buffer)@ + dict_render(members_view(inputs@), col, *opts).text,
            r == dict_render(members_view(inputs@), col, *opts).col,
        decreases inputs, inputs@.len() + 1, 2nat,
    {
        let ghost mm = members_view(inputs@);
        let strings = self.dict_strings(inputs);
        let candidate = join(&strings, ",");
        let mut out = "{".to_owned();
        let mut current_col = add_col(col, 1);
        if add_col(current_col, text_width(candidate.as_str())) > opts.max_col && opts.indent > 0 {
            let mut i: usize = 0;
            assert(out@ =~= "{"@ + dict_wrapped(mm, col, *opts, 0).text);
            while i < inputs.len()
                invariant
                    i <= inputs.len(),
                    strings@.len() == inputs.len(),
                    mm == members_view(inputs@),
                    texts(strings@) == dict_items(mm),
                    out@ == "{"@ + dict_wrapped(mm, col, *opts, i as int).text,
                    current_col == dict_wrapped(mm, col, *opts, i as int).col,
                decreases inputs.len() - i,
            {
                let ghost prev = dict_wrapped(mm, col, *opts, i as int);
                assert(strings@[i as int]@ == dict_item(mm[i as int])) by {
                    assert(texts(strings@)[i as int] == strings@[i as int]@);
                }
                current_col = self.dict_member(&mut out, inputs, i, strings[i].as_str(), col, opts);
                i += 1;
                proof {
                    lemma_append3("{"@, prev.text, dict_piece(mm, col, *opts, i - 1).text);
                }
            }
            indent(&mut out, sub_col(col, 1));
        } else {
            out.append(candidate.as_str());
            current_col = add_col(col, text_width(candidate.as_str()));
        }
        out.append("}");
        assert(out@ == dict_render(mm, col, *opts).text);
        buffer.append(out.as_str());
        add_col(current_col, 1)
    }

    /// The items of an array as they stand on one line.
    fn list_strings(&self, inputs: &Vec<JsonValue>) -> (strings: Vec<String>)
        ensures
            texts(strings@) == value_texts(values_view(inputs@)),
            strings@.len() == inputs@.len(),
    {
        let ghost vv = values_view(inputs@);
        let mut strings: Vec<String> = Vec::new();
        let mut i: usize = 0;
        while i < inputs.len()
            invariant
                i <= inputs.len(),
                strings@.len() == i,
                vv == values_view(inputs@),
                forall|j: int| 0 <= j < i ==> strings@[j]@ == value_text(vv[j]),
            decreases inputs.len() - i,
        {
            let v = self.format_value(&inputs[i]);
            strings.push(v);
            i += 1;
        }
        assert(texts(strings@) =~= value_texts(vv));
        strings
    }

    /// Appends the `i`-th item of a wrapped array, the printer standing at
    /// column `at`.
    fn list_item(
        &self,
        buffer: &mut String,
        inputs: &Vec<JsonValue>,
        i: usize,
        item: &str,
        col: usize,
        at: usize,
        opts: &DecompileOptions,
    ) -> (r: usize)
        requires
            i < inputs.len(),
            item@ == value_text(values_view(inputs@)[i as int]),
        ensures
            final(buffer)@ == old(buffer)@ + list_piece(
                values_view(inputs@),
                col,
                *opts,
                at,
                i as int,
            ).text,
            r == list_piece(values_view(inputs@), col, *opts, at, i as int).col,
        decreases inputs, i, 0nat,
    {
        let mut piece = String::new();
        let mut current_col = add_col(add_col(at, text_width(item)), 1);
        if current_col > opts.max_col {
            indent(&mut piece, col);
            current_col = self.dfs(&mut piece, &inputs[i], col, opts);
        } else {
            piece.append(item);
        }
        if i < inputs.len() - 1 {
            piece.append(",");
        }
        assert(piece@ =~= list_piece(values_view(inputs@), col, *opts, at, i as int).text);
        buffer.append(piece.as_str());
        current_col
    }

    /// Appends an array at column `col` and returns the column reached.
    pub fn list(
        &self,
        buffer: &mut String,
        inputs: &Vec<JsonValue>,
        col: usize,
        opts: &DecompileOptions,
    ) -> (r: usize)
        ensures
            final(buffer)@ == old(buffer)@ + list_render(values_view(inputs@), col, *opts).text,
            r == list_render(values_view(inputs@), col, *opts).col,
        decreases inputs, inputs@.len() + 1, 2nat,
    {
        let ghost vv = values_view(inputs@);
        let strings = self.list_strings(inputs);
        let candidate = join(&strings, ",");
        let mut out = "[".to_owned();
        let mut current_col = add_col(col, 1);
        if add_col(current_col, text_width(candidate.as_str())) > opts.max_col && opts.indent > 0 {
            let mut i: usize = 0;
            assert(out@ =~= "["@ + list_wrapped(vv, col, *opts, 0).text);
            while i < inputs.len()
                invariant
                    i <= inputs.len(),
                    strings@.len() == inputs.len(),
                    vv == values_view(inputs@),
                    texts(strings@) == value_texts(vv),
                    out@ == "["@ + list_wrapped(vv, col, *opts, i as int).text,
                    current_col == list_wrapped(vv, col, *opts, i as int).col,
                decreases inputs.len() - i,
            {
                let ghost prev = list_wrapped(vv, col, *opts, i as int);
                assert(strings@[i as int]@ == value_text(vv[i as int])) by {
                    assert(texts(strings@)[i as int] == strings@[i as int]@);
                }
                current_col =
                self.list_item(&mut out, inputs, i, strings[i].as_str(), col, current_col, opts);
                i += 1;
                proof {
                    lemma_append3("["@, prev.text, list_piece(vv, col, *opts, prev.col, i - 1).text);
                }
            }
        } else {
            out.append(candidate.as_str());
            current_col = add_col(col, text_width(candidate.as_str()));
        }
        out.append("]");
        assert(out@ == list_render(vv, col, *opts).text);
        buffer.append(out.as_str());
        add_col(current_col, 1)
    }

    /// A value as it stands in source text.
    pub fn format_value(&self, value: &JsonValue) -> (r: String)
        ensures
            r@ == value_text(value@),
    {
        value_string(value)
    }
}

/// A value as it stands in source text.
pub fn value_string(value: &JsonValue) -> (r: String)
    ensures
        r@ == value_text(value@),
{
    match value {
        JsonValue::Text(s) => {
            let mut out = "'".to_owned();
            push_escaped_quotes(&mut out, s.as_str());
            out.append("'");
            out
        },
        _ => value.json_text(),
    }
}

/// The items of an array in compact JSON notation with commas between; a
/// single item stands alone, several stand between parentheses.
pub open spec fn input_text(v: JsonModel) -> Seq<char> {
    match v {
        JsonModel::Array(items) => if items.len() == 1 {
            items[0].text()
        } else {
            "("@ + array_text(items, items.len() as int) + ")"@
        },
        _ => v.text(),
    }
}

} // verus!
