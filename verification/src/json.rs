//! The JSON-shaped data that the intermediate representation is made of.
//!
//! Objects keep their members in the order in which they were written. A
//! lookup returns the first member with the key, so a list of members with a
//! repeated key still has one meaning.

use crate::text::{digit_char, i64_text, int_text, str_eq};
use vstd::prelude::*;

verus! {

/// The mathematical value of a piece of JSON data.
pub enum JsonModel {
    Null,
    Bool(bool),
    /// A number that is a 64-bit signed integer.
    Int(int),
    /// Any other number, by its JSON notation.
    Real(Seq<char>),
    Text(Seq<char>),
    Array(Seq<JsonModel>),
    Object(Seq<MemberModel>),
}

/// The mathematical value of one member of an object.
pub struct MemberModel {
    pub key: Seq<char>,
    pub value: JsonModel,
}

/// A piece of JSON data.
#[derive(Debug, PartialEq)]
pub enum JsonValue {
    Null,
    Bool(bool),
    /// A number that is a 64-bit signed integer.
    Int(i64),
    /// Any other number (a fraction, an exponent, an integer beyond 64 signed
    /// bits), held by its JSON notation.
    Real(String),
    Text(String),
    Array(Vec<JsonValue>),
    Object(Vec<JsonMember>),
}

/// One member of a JSON object.
#[derive(Debug, PartialEq)]
pub struct JsonMember {
    pub key: String,
    pub value: JsonValue,
}

/// The members of a JSON object, in order.
pub type JsonObject = Vec<JsonMember>;

/// The values of a sequence of JSON data.
pub open spec fn values_view(items: Seq<JsonValue>) -> Seq<JsonModel> {
    Seq::new(items.len(), |i: int| items[i]@)
}

/// The members of an object, each key with the value of its datum.
pub open spec fn members_view(members: Seq<JsonMember>) -> Seq<MemberModel> {
    Seq::new(members.len(), |i: int| MemberModel { key: members[i].key@, value: members[i].value@ })
}

impl View for JsonValue {
    type V = JsonModel;

    open spec fn view(&self) -> JsonModel
        decreases self,
    {
        match self {
            JsonValue::Null => JsonModel::Null,
            JsonValue::Bool(b) => JsonModel::Bool(*b),
            JsonValue::Int(n) => JsonModel::Int(*n as int),
            JsonValue::Real(t) => JsonModel::Real(t@),
            JsonValue::Text(s) => JsonModel::Text(s@),
            JsonValue::Array(items) => JsonModel::Array(
                Seq::new(
                    items@.len(),
                    |i: int|
                        if 0 <= i < items@.len() {
                            items@[i]@
                        } else {
                            JsonModel::Null
                        },
                ),
            ),
            JsonValue::Object(members) => JsonModel::Object(
                Seq::new(
                    members@.len(),
                    |i: int|
                        if 0 <= i < members@.len() {
                            MemberModel { key: members@[i].key@, value: members@[i].value@ }
                        } else {
                            MemberModel { key: Seq::empty(), value: JsonModel::Null }
                        },
                ),
            ),
        }
    }
}

/// The value of the first member with the key, looking from index `i` on.
pub open spec fn lookup_from(members: Seq<MemberModel>, key: Seq<char>, i: int) -> Option<
    JsonModel,
>
    decreases members.len() - i,
{
    if i < 0 || i >= members.len() {
        None
    } else if members[i].key == key {
        Some(members[i].value)
    } else {
        lookup_from(members, key, i + 1)
    }
}

/// The value of the first member with the key.
pub open spec fn lookup(members: Seq<MemberModel>, key: Seq<char>) -> Option<JsonModel> {
    lookup_from(members, key, 0)
}

/// The first `n` values, each in compact notation, with commas between.
pub open spec fn array_text(items: Seq<JsonModel>, n: int) -> Seq<char>
    decreases items, n,
{
    if n <= 0 || n > items.len() {
        Seq::empty()
    } else if n == 1 {
        items[0].text()
    } else {
        array_text(items, n - 1) + ","@ + items[n - 1].text()
    }
}

/// The first `n` members in compact notation, with commas between.
pub open spec fn object_text(members: Seq<MemberModel>, n: int) -> Seq<char>
    decreases members, n,
{
    if n <= 0 || n > members.len() {
        Seq::empty()
    } else if n == 1 {
        json_quoted(members[0].key) + ":"@ + members[0].value.text()
    } else {
        object_text(members, n - 1) + ","@ + json_quoted(members[n - 1].key) + ":"@ + members[n
            - 1].value.text()
    }
}

impl JsonModel {
    /// The member of an object with this key; `None` for anything else.
    pub open spec fn get(self, key: Seq<char>) -> Option<JsonModel> {
        match self {
            JsonModel::Object(members) => lookup(members, key),
            _ => None,
        }
    }

    /// The characters of a string; `None` for anything else.
    pub open spec fn as_text(self) -> Option<Seq<char>> {
        match self {
            JsonModel::Text(s) => Some(s),
            _ => None,
        }
    }

    /// The string member with this key.
    pub open spec fn get_text(self, key: Seq<char>) -> Option<Seq<char>> {
        match self.get(key) {
            Some(v) => v.as_text(),
            None => None,
        }
    }

    /// The items of an array; `None` for anything else.
    pub open spec fn as_items(self) -> Option<Seq<JsonModel>> {
        match self {
            JsonModel::Array(items) => Some(items),
            _ => None,
        }
    }

    /// The number, where it is a 64-bit signed integer.
    pub open spec fn as_int(self) -> Option<int> {
        match self {
            JsonModel::Int(n) => Some(n),
            _ => None,
        }
    }

    /// The truth value; `None` for anything else.
    pub open spec fn as_bool(self) -> Option<bool> {
        match self {
            JsonModel::Bool(b) => Some(b),
            _ => None,
        }
    }

    /// The value without quotes: the characters of a string, anything else
    /// in compact notation.
    pub open spec fn plain(self) -> Seq<char> {
        match self {
            JsonModel::Text(s) => s,
            _ => self.text(),
        }
    }

    /// Compact JSON notation: no white space, members in their order.
    pub open spec fn text(self) -> Seq<char>
        decreases self,
    {
        match self {
            JsonModel::Null => "null"@,
            JsonModel::Bool(b) => if b {
                "true"@
            } else {
                "false"@
            },
            JsonModel::Int(n) => int_text(n),
            JsonModel::Real(t) => t,
            JsonModel::Text(s) => json_quoted(s),
            JsonModel::Array(items) => "["@ + array_text(items, items.len() as int) + "]"@,
            JsonModel::Object(members) => "{"@ + object_text(members, members.len() as int) + "}"@,
        }
    }
}

/// A hexadecimal digit in lower case.
pub open spec fn hex_digit(d: int) -> char {
    if d == 10 {
        'a'
    } else if d == 11 {
        'b'
    } else if d == 12 {
        'c'
    } else if d == 13 {
        'd'
    } else if d == 14 {
        'e'
    } else if d == 15 {
        'f'
    } else {
        digit_char(d)
    }
}

/// One character of a string as JSON writes it: `"` and `\` behind a
/// backslash, the short escapes for backspace, tab, line feed, form feed and
/// carriage return, `\u00` and two hexadecimal digits for any other
/// character below the space, and every other character as it is.
pub open spec fn json_escaped(c: char) -> Seq<char> {
    if c == '"' {
        seq!['\\', '"']
    } else if c == '\\' {
        seq!['\\', '\\']
    } else if c == '\u{8}' {
        seq!['\\', 'b']
    } else if c == '\t' {
        seq!['\\', 't']
    } else if c == '\n' {
        seq!['\\', 'n']
    } else if c == '\u{c}' {
        seq!['\\', 'f']
    } else if c == '\r' {
        seq!['\\', 'r']
    } else if (c as u32) < 0x20 {
        seq!['\\', 'u', '0', '0', hex_digit((c as u32 / 16) as int), hex_digit((c as u32 % 16) as int)]
    } else {
        seq![c]
    }
}

/// The characters of a string from index `i` on, each as JSON writes it.
pub open spec fn json_escaped_from(s: Seq<char>, i: int) -> Seq<char>
    decreases s.len() - i,
{
    if i < 0 || i >= s.len() {
        Seq::empty()
    } else {
        json_escaped(s[i]) + json_escaped_from(s, i + 1)
    }
}

/// A string in JSON notation: its characters, each as JSON writes it,
/// between double quotes.
pub open spec fn json_quoted(s: Seq<char>) -> Seq<char> {
    seq!['"'] + json_escaped_from(s, 0) + seq!['"']
}

/// Calls the `Display` of `serde_json::Value` on a JSON string, which writes
/// it in compact notation. The contract states what `serde_json` writes:
/// the string between double quotes with its escapes.
#[verifier::external_body]
fn quote_json(s: &str) -> (r: String)
    ensures
        r@ == json_quoted(s@),
{
    serde_json::Value::String(s.to_owned()).to_string()
}

/// What stands behind an optional reference to a datum.
pub open spec fn opt_view(r: Option<&JsonValue>) -> Option<JsonModel> {
    match r {
        Some(v) => Some(v@),
        None => None,
    }
}

/// What stands behind an optional string slice.
pub open spec fn opt_text(r: Option<&str>) -> Option<Seq<char>> {
    match r {
        Some(s) => Some(s@),
        None => None,
    }
}

/// The first member with the key, among those of a list of members.
pub fn find_member<'a>(members: &'a Vec<JsonMember>, key: &str) -> (r: Option<
    &'a JsonValue,
>)
    ensures
        opt_view(r) == lookup(members_view(members@), key@),
{
    let mut i: usize = 0;
    while i < members.len()
        invariant
            i <= members.len(),
            lookup_from(members_view(members@), key@, i as int) == lookup(
                members_view(members@),
                key@,
            ),
        decreases members.len() - i,
    {
        if str_eq(members[i].key.as_str(), key) {
            return Some(&members[i].value);
        }
        i += 1;
    }
    None
}

impl JsonValue {
    /// The member of an object with this key; `None` for anything else.
    pub fn get<'a>(&'a self, key: &str) -> (r: Option<&'a JsonValue>)
        ensures
            opt_view(r) == self@.get(key@),
    {
        match self {
            JsonValue::Object(members) => {
                proof {
                    lemma_object_view(*members);
                }
                find_member(members, key)
            },
            _ => None,
        }
    }

    /// The characters of a string; `None` for anything else.
    pub fn as_str<'a>(&'a self) -> (r: Option<&'a str>)
        ensures
            opt_text(r) == self@.as_text(),
    {
        match self {
            JsonValue::Text(s) => Some(s.as_str()),
            _ => None,
        }
    }

    /// The string member with this key.
    pub fn get_str<'a>(&'a self, key: &str) -> (r: Option<&'a str>)
        ensures
            opt_text(r) == self@.get_text(key@),
    {
        match self.get(key) {
            Some(v) => v.as_str(),
            None => None,
        }
    }

    /// The items of an array; `None` for anything else.
    pub fn as_array<'a>(&'a self) -> (r: Option<&'a Vec<JsonValue>>)
        ensures
            match r {
                Some(items) => self@ == JsonModel::Array(values_view(items@)),
                None => !(self@ is Array),
            },
    {
        match self {
            JsonValue::Array(items) => {
                proof {
                    lemma_array_view(*items);
                }
                Some(items)
            },
            _ => None,
        }
    }

    /// The members of an object; `None` for anything else.
    pub fn as_object<'a>(&'a self) -> (r: Option<&'a Vec<JsonMember>>)
        ensures
            match r {
                Some(members) => self@ == JsonModel::Object(members_view(members@)),
                None => !(self@ is Object),
            },
    {
        match self {
            JsonValue::Object(members) => {
                proof {
                    lemma_object_view(*members);
                }
                Some(members)
            },
            _ => None,
        }
    }

    /// Whether this is an object.
    pub fn is_object(&self) -> (r: bool)
        ensures
            r == (self@ is Object),
    {
        match self {
            JsonValue::Object(_) => true,
            _ => false,
        }
    }

    /// The number, where it is a 64-bit signed integer.
    pub fn as_i64(&self) -> (r: Option<i64>)
        ensures
            match r {
                Some(n) => self@.as_int() == Some(n as int),
                None => self@.as_int() is None,
            },
    {
        match self {
            JsonValue::Int(n) => Some(*n),
            _ => None,
        }
    }

    /// The value without quotes: the characters of a string, anything else
    /// in compact notation.
    pub fn plain_text(&self) -> (r: String)
        ensures
            r@ == self@.plain(),
    {
        match self {
            JsonValue::Text(s) => s.clone(),
            _ => self.json_text(),
        }
    }

    /// Compact JSON notation: no white space, members in their order.
    pub fn json_text(&self) -> (r: String)
        ensures
            r@ == self@.text(),
        decreases self,
    {
        match self {
            JsonValue::Null => "null".to_owned(),
            JsonValue::Bool(b) => if *b {
                "true".to_owned()
            } else {
                "false".to_owned()
            },
            JsonValue::Int(n) => i64_text(*n),
            JsonValue::Real(t) => t.clone(),
            JsonValue::Text(s) => quote_json(s.as_str()),
            JsonValue::Array(items) => {
                proof {
                    lemma_array_view(*items);
                }
                items_json_text(items)
            },
            JsonValue::Object(members) => {
                proof {
                    lemma_object_view(*members);
                }
                members_json_text(members)
            },
        }
    }

    /// A copy with the same value.
    pub fn deep_copy(&self) -> (r: JsonValue)
        ensures
            r@ == self@,
        decreases self,
    {
        match self {
            JsonValue::Null => JsonValue::Null,
            JsonValue::Bool(b) => JsonValue::Bool(*b),
            JsonValue::Int(n) => JsonValue::Int(*n),
            JsonValue::Real(t) => JsonValue::Real(t.clone()),
            JsonValue::Text(s) => JsonValue::Text(s.clone()),
            JsonValue::Array(items) => {
                let out = copy_items(items);
                proof {
                    lemma_array_view(*items);
                    lemma_array_view(out);
                }
                JsonValue::Array(out)
            },
            JsonValue::Object(members) => {
                let out = copy_members(members);
                proof {
                    lemma_object_view(*members);
                    lemma_object_view(out);
                }
                JsonValue::Object(out)
            },
        }
    }
}

impl Clone for JsonValue {
    fn clone(&self) -> (r: Self)
        ensures
            r@ == self@,
    {
        self.deep_copy()
    }
}

impl Clone for JsonMember {
    fn clone(&self) -> (r: Self)
        ensures
            r.key@ == self.key@,
            r.value@ == self.value@,
    {
        JsonMember { key: self.key.clone(), value: self.value.deep_copy() }
    }
}

/// An array's value is made of the values of its items.
pub proof fn lemma_array_view(items: Vec<JsonValue>)
    ensures
        JsonValue::Array(items)@ == JsonModel::Array(values_view(items@)),
{
    assert(JsonValue::Array(items)@.as_items().unwrap() =~= values_view(items@));
}

/// An object's value is made of its keys and the values of its members.
pub proof fn lemma_object_view(members: Vec<JsonMember>)
    ensures
        JsonValue::Object(members)@ == JsonModel::Object(members_view(members@)),
{
    let a = JsonValue::Object(members)@->Object_0;
    let b = members_view(members@);
    assert(a =~= b);
}

/// An array in compact notation.
pub fn items_json_text(items: &Vec<JsonValue>) -> (r: String)
    ensures
        r@ == "["@ + array_text(values_view(items@), items@.len() as int) + "]"@,
    decreases items,
{
    let mut out = "[".to_owned();
    let mut i: usize = 0;
    while i < items.len()
        invariant
            i <= items.len(),
            out@ == "["@ + array_text(values_view(items@), i as int),
        decreases items.len() - i,
    {
        if i > 0 {
            out.append(",");
        }
        let t = items[i].json_text();
        out.append(t.as_str());
        i += 1;
    }
    out.append("]");
    out
}

/// An object in compact notation.
pub fn members_json_text(members: &Vec<JsonMember>) -> (r: String)
    ensures
        r@ == "{"@ + object_text(members_view(members@), members@.len() as int) + "}"@,
    decreases members,
{
    let mut out = "{".to_owned();
    let mut i: usize = 0;
    while i < members.len()
        invariant
            i <= members.len(),
            out@ == "{"@ + object_text(members_view(members@), i as int),
        decreases members.len() - i,
    {
        if i > 0 {
            out.append(",");
        }
        let k = quote_json(members[i].key.as_str());
        out.append(k.as_str());
        out.append(":");
        let t = members[i].value.json_text();
        out.append(t.as_str());
        i += 1;
    }
    out.append("}");
    out
}

/// A copy of a list of data, with the same values.
pub fn copy_items(items: &Vec<JsonValue>) -> (r: Vec<JsonValue>)
    ensures
        values_view(r@) == values_view(items@),
    decreases items,
{
    let mut out: Vec<JsonValue> = Vec::new();
    let mut i: usize = 0;
    while i < items.len()
        invariant
            i <= items.len(),
            out@.len() == i,
            forall|j: int| 0 <= j < i ==> out@[j]@ == items@[j]@,
        decreases items.len() - i,
    {
        let c = items[i].deep_copy();
        out.push(c);
        i += 1;
    }
    assert(values_view(out@) =~= values_view(items@));
    out
}

/// A copy of a list of members, with the same keys and values.
pub fn copy_members(members: &Vec<JsonMember>) -> (r: Vec<JsonMember>)
    ensures
        members_view(r@) == members_view(members@),
    decreases members,
{
    let mut out: Vec<JsonMember> = Vec::new();
    let mut i: usize = 0;
    while i < members.len()
        invariant
            i <= members.len(),
            out@.len() == i,
            forall|j: int|
                0 <= j < i ==> out@[j].key@ == members@[j].key@ && out@[j].value@ == members@[j].value@,
        decreases members.len() - i,
    {
        let c = members[i].value.deep_copy();
        out.push(JsonMember { key: members[i].key.clone(), value: c });
        i += 1;
    }
    assert(members_view(out@) =~= members_view(members@));
    out
}

/// The index of the first member with the key among the first `n`; `n` where
/// there is none.
pub open spec fn key_index(members: Seq<MemberModel>, key: Seq<char>, n: int) -> int
    decreases n,
{
    if n <= 0 {
        0
    } else {
        let before = key_index(members, key, n - 1);
        if before < n - 1 {
            before
        } else if members[n - 1].key == key {
            n - 1
        } else {
            n
        }
    }
}

/// The members after `key` is set to `value`: the first member with the key
/// gets the value and keeps its place; without one, a member is added at the
/// end.
pub open spec fn with_member(
    members: Seq<MemberModel>,
    key: Seq<char>,
    value: JsonModel,
) -> Seq<MemberModel> {
    let at = key_index(members, key, members.len() as int);
    if at < members.len() {
        members.update(at, MemberModel { key, value })
    } else {
        members.push(MemberModel { key, value })
    }
}

/// Sets `key` to `value`: the last write wins, and a key keeps the place of
/// its first write.
pub fn set_member(members: &mut Vec<JsonMember>, key: String, value: JsonValue)
    ensures
        members_view(final(members)@) == with_member(members_view(old(members)@), key@, value@),
{
    let ghost before = members_view(members@);
    let at = member_index(members, key.as_str());
    if at < members.len() {
        members.set(at, JsonMember { key, value });
    } else {
        members.push(JsonMember { key, value });
    }
    assert(members_view(members@) =~= with_member(before, key@, value@));
}

/// The index of the first member with the key; the number of members where
/// there is none.
pub fn member_index(members: &Vec<JsonMember>, key: &str) -> (at: usize)
    ensures
        at == key_index(members_view(members@), key@, members@.len() as int),
        at <= members@.len(),
{
    let mut i: usize = 0;
    while i < members.len()
        invariant
            i <= members.len(),
            key_index(members_view(members@), key@, i as int) == i,
        decreases members.len() - i,
    {
        if str_eq(members[i].key.as_str(), key) {
            proof {
                lemma_key_index_stays(
                    members_view(members@),
                    key@,
                    i as int + 1,
                    members@.len() as int,
                );
            }
            return i;
        }
        i += 1;
    }
    i
}

pub proof fn lemma_key_index_stays(
    members: Seq<MemberModel>,
    key: Seq<char>,
    n: int,
    m: int,
)
    requires
        0 < n <= m <= members.len(),
        key_index(members, key, n) < n,
    ensures
        key_index(members, key, m) == key_index(members, key, n),
    decreases m - n,
{
    if n < m {
        lemma_key_index_stays(members, key, n, m - 1);
    }
}

} // verus!
