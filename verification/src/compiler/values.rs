//! Literals and collections of the tree as JSON data, and the substitution
//! of variables.

use crate::ast::model::{
    dict_items_view, nodes_view, DictItemModel, ListStatementModel, NodeModel,
};
use crate::ast::{AstNodeEnum, DictItem};
use crate::json::{
    find_member, lemma_array_view, lemma_object_view, lookup, members_view,
    set_member, values_view, with_member, JsonMember, JsonModel, JsonValue, MemberModel,
};
use crate::text::{nat_text, push_nat};
use vstd::prelude::*;

verus! {

/// The place of a node's kind in the list of all kinds, counted from 0.
pub open spec fn variant_index(node: NodeModel) -> nat {
    match node {
        NodeModel::Module(_) => 0,
        NodeModel::Comment(_) => 1,
        NodeModel::Symbol(_) => 2,
        NodeModel::StringLiteral(_) => 3,
        NodeModel::MultiLineStringLiteral(_) => 4,
        NodeModel::NumberLiteral(_) => 5,
        NodeModel::FloatLiteral(_) => 6,
        NodeModel::BoolLiteral(_) => 7,
        NodeModel::DateTimeLiteral(_) => 8,
        NodeModel::DateLiteral(_) => 9,
        NodeModel::NullLiteral(_) => 10,
        NodeModel::DictStatement(_) => 11,
        NodeModel::DictItem(_) => 12,
        NodeModel::ListStatement(_) => 13,
        NodeModel::TupleStatement(_) => 14,
        NodeModel::SetStatement(_) => 15,
        NodeModel::Import(_) => 16,
        NodeModel::ImportItem(_) => 17,
        NodeModel::AttrDef(_) => 18,
        NodeModel::RefDef(_) => 19,
        NodeModel::VarDef(_) => 20,
        NodeModel::GraphDef(_) => 21,
        NodeModel::NodeDef(_) => 22,
        NodeModel::NodeBlock(_) => 23,
        NodeModel::NodeInputTuple(_) => 24,
        NodeModel::NodeInputKeyDef(_) => 25,
        NodeModel::NodeInputKeyItem(_) => 26,
        NodeModel::NodeInputValues(_) => 27,
        NodeModel::NodeAttr(_) => 28,
        NodeModel::ConditionDef(_) => 29,
        NodeModel::ConditionBlock(_) => 30,
        NodeModel::ConditionStatement(_) => 31,
        NodeModel::ForLoopBlock(_) => 32,
        NodeModel::OpDef(_) => 33,
        NodeModel::OpMeta(_) => 34,
        NodeModel::OpInput(_) => 35,
        NodeModel::OpOutput(_) => 36,
        NodeModel::OpConfig(_) => 37,
        NodeModel::OpSpec(_) => 38,
        NodeModel::OpSpecItem(_) => 39,
        NodeModel::ClosedInterval(_) => 40,
        NodeModel::MixInterval(_) => 41,
    }
}

/// The place of a node's kind in the list of all kinds, counted from 0.
pub fn variant_index_of(node: &AstNodeEnum) -> (r: u64)
    ensures
        r == variant_index(node.model()),
{
    match node {
        AstNodeEnum::Module(_) => 0,
        AstNodeEnum::Comment(_) => 1,
        AstNodeEnum::Symbol(_) => 2,
        AstNodeEnum::StringLiteral(_) => 3,
        AstNodeEnum::MultiLineStringLiteral(_) => 4,
        AstNodeEnum::NumberLiteral(_) => 5,
        AstNodeEnum::FloatLiteral(_) => 6,
        AstNodeEnum::BoolLiteral(_) => 7,
        AstNodeEnum::DateTimeLiteral(_) => 8,
        AstNodeEnum::DateLiteral(_) => 9,
        AstNodeEnum::NullLiteral(_) => 10,
        AstNodeEnum::DictStatement(_) => 11,
        AstNodeEnum::DictItem(_) => 12,
        AstNodeEnum::ListStatement(_) => 13,
        AstNodeEnum::TupleStatement(_) => 14,
        AstNodeEnum::SetStatement(_) => 15,
        AstNodeEnum::Import(_) => 16,
        AstNodeEnum::ImportItem(_) => 17,
        AstNodeEnum::AttrDef(_) => 18,
        AstNodeEnum::RefDef(_) => 19,
        AstNodeEnum::VarDef(_) => 20,
        AstNodeEnum::GraphDef(_) => 21,
        AstNodeEnum::NodeDef(_) => 22,
        AstNodeEnum::NodeBlock(_) => 23,
        AstNodeEnum::NodeInputTuple(_) => 24,
        AstNodeEnum::NodeInputKeyDef(_) => 25,
        AstNodeEnum::NodeInputKeyItem(_) => 26,
        AstNodeEnum::NodeInputValues(_) => 27,
        AstNodeEnum::NodeAttr(_) => 28,
        AstNodeEnum::ConditionDef(_) => 29,
        AstNodeEnum::ConditionBlock(_) => 30,
        AstNodeEnum::ConditionStatement(_) => 31,
        AstNodeEnum::ForLoopBlock(_) => 32,
        AstNodeEnum::OpDef(_) => 33,
        AstNodeEnum::OpMeta(_) => 34,
        AstNodeEnum::OpInput(_) => 35,
        AstNodeEnum::OpOutput(_) => 36,
        AstNodeEnum::OpConfig(_) => 37,
        AstNodeEnum::OpSpec(_) => 38,
        AstNodeEnum::OpSpecItem(_) => 39,
        AstNodeEnum::ClosedInterval(_) => 40,
        AstNodeEnum::MixInterval(_) => 41,
    }
}

/// The string that stands for a node that has no value: it names the kind
/// of the node by its index.
pub open spec fn placeholder(node: NodeModel) -> Seq<char> {
    "unsupported_ast_node_Discriminant("@ + nat_text(variant_index(node)) + ")"@
}

/// The values of a sequence of nodes.
pub open spec fn node_values(items: Seq<NodeModel>) -> Seq<JsonModel> {
    Seq::new(items.len(), |i: int| value_of(items[i]))
}

/// The members that the first `n` pairs of a dictionary make: each pair
/// sets its key, which is the plain text of the key's value.
pub open spec fn dict_members(items: Seq<DictItemModel>, n: int) -> Seq<MemberModel>
    decreases items, n,
{
    if n <= 0 || n > items.len() {
        Seq::empty()
    } else {
        with_member(
            dict_members(items, n - 1),
            value_of(*items[n - 1].key).plain(),
            value_of(*items[n - 1].value),
        )
    }
}

/// The value of a node: strings, integers, booleans and `null` as such, a
/// float by its notation, a symbol as the string of its name, a list as an
/// array, a dictionary as an object. Any other node has the placeholder
/// string for a value.
pub open spec fn value_of(node: NodeModel) -> JsonModel
    decreases node,
{
    match node {
        NodeModel::StringLiteral(s) => JsonModel::Text(s.value),
        NodeModel::MultiLineStringLiteral(s) => JsonModel::Text(s.value),
        NodeModel::NumberLiteral(n) => JsonModel::Int(n.value as int),
        NodeModel::FloatLiteral(f) => JsonModel::Real(f.raw),
        NodeModel::BoolLiteral(b) => JsonModel::Bool(b.value),
        NodeModel::NullLiteral(_) => JsonModel::Null,
        NodeModel::Symbol(s) => JsonModel::Text(s.name),
        NodeModel::ListStatement(list) => JsonModel::Array(
            Seq::new(
                list.items.len(),
                |i: int|
                    if 0 <= i < list.items.len() {
                        value_of(list.items[i])
                    } else {
                        JsonModel::Null
                    },
            ),
        ),
        NodeModel::DictStatement(dict) => JsonModel::Object(
            dict_members(dict.items, dict.items.len() as int),
        ),
        _ => JsonModel::Text(placeholder(node)),
    }
}

/// The value of a list is the array of the values of its items.
pub proof fn lemma_list_value(list: ListStatementModel)
    ensures
        value_of(NodeModel::ListStatement(list)) == JsonModel::Array(node_values(list.items)),
{
    assert(value_of(NodeModel::ListStatement(list))->Array_0 =~= node_values(list.items));
}

/// The value with every string that is a key of the variable table replaced
/// by what the table holds for it; arrays and objects are gone through item
/// by item. Only a whole string is looked up.
pub open spec fn resolved(v: JsonModel, vars: Seq<MemberModel>) -> JsonModel
    decreases v,
{
    match v {
        JsonModel::Text(s) => match lookup(vars, s) {
            Some(x) => x,
            None => v,
        },
        JsonModel::Array(items) => JsonModel::Array(
            Seq::new(
                items.len(),
                |i: int|
                    if 0 <= i < items.len() {
                        resolved(items[i], vars)
                    } else {
                        JsonModel::Null
                    },
            ),
        ),
        JsonModel::Object(members) => JsonModel::Object(
            Seq::new(
                members.len(),
                |i: int|
                    if 0 <= i < members.len() {
                        MemberModel { key: members[i].key, value: resolved(members[i].value, vars) }
                    } else {
                        MemberModel { key: Seq::empty(), value: JsonModel::Null }
                    },
            ),
        ),
        _ => v,
    }
}

/// The value of a node.
pub fn convert_value(node: &AstNodeEnum) -> (r: JsonValue)
    ensures
        r@ == value_of(node.model()),
    decreases node,
{
    match node {
        AstNodeEnum::StringLiteral(s) => JsonValue::Text(s.value.clone()),
        AstNodeEnum::MultiLineStringLiteral(s) => JsonValue::Text(s.value.clone()),
        AstNodeEnum::NumberLiteral(n) => JsonValue::Int(n.value),
        AstNodeEnum::FloatLiteral(f) => JsonValue::Real(f.raw.clone()),
        AstNodeEnum::BoolLiteral(b) => JsonValue::Bool(b.value),
        AstNodeEnum::NullLiteral(_) => JsonValue::Null,
        AstNodeEnum::Symbol(s) => JsonValue::Text(s.name.clone()),
        AstNodeEnum::ListStatement(list) => {
            let out = convert_values(&list.items);
            proof {
                lemma_list_value(list.model());
                lemma_array_view(out);
            }
            JsonValue::Array(out)
        },
        AstNodeEnum::DictStatement(dict) => {
            let out = convert_dict(&dict.items);
            proof {
                lemma_object_view(out);
            }
            JsonValue::Object(out)
        },
        _ => {
            let mut s = "unsupported_ast_node_Discriminant(".to_owned();
            push_nat(&mut s, variant_index_of(node));
            s.append(")");
            JsonValue::Text(s)
        },
    }
}

/// The values of a list of nodes.
pub fn convert_values(items: &Vec<AstNodeEnum>) -> (r: Vec<JsonValue>)
    ensures
        values_view(r@) == node_values(nodes_view(items@)),
    decreases items,
{
    let mut out: Vec<JsonValue> = Vec::new();
    let mut i: usize = 0;
    while i < items.len()
        invariant
            i <= items.len(),
            out@.len() == i,
            forall|j: int| 0 <= j < i ==> out@[j]@ == value_of(items@[j].model()),
        decreases items.len() - i,
    {
        let v = convert_value(&items[i]);
        out.push(v);
        i += 1;
    }
    assert(values_view(out@) =~= node_values(nodes_view(items@)));
    out
}

/// The members that the pairs of a dictionary make.
pub fn convert_dict(items: &Vec<DictItem>) -> (r: Vec<JsonMember>)
    ensures
        members_view(r@) == dict_members(dict_items_view(items@), items@.len() as int),
    decreases items,
{
    let mut out: Vec<JsonMember> = Vec::new();
    let mut i: usize = 0;
    assert(members_view(out@) =~= dict_members(dict_items_view(items@), 0));
    while i < items.len()
        invariant
            i <= items.len(),
            members_view(out@) == dict_members(dict_items_view(items@), i as int),
        decreases items.len() - i,
    {
        let k = convert_value(&*items[i].key);
        let key = k.plain_text();
        let value = convert_value(&*items[i].value);
        set_member(&mut out, key, value);
        i += 1;
    }
    out
}

/// The value with the variables of the table put in.
pub fn resolve_value(value: &JsonValue, vars: &Vec<JsonMember>) -> (r: JsonValue)
    ensures
        r@ == resolved(value@, members_view(vars@)),
    decreases value,
{
    match value {
        JsonValue::Text(s) => match find_member(vars, s.as_str()) {
            Some(x) => x.deep_copy(),
            None => value.deep_copy(),
        },
        JsonValue::Array(items) => {
            let out = resolve_items(items, vars);
            proof {
                lemma_array_view(*items);
                lemma_array_view(out);
                assert(values_view(out@) =~= resolved(value@, members_view(vars@))->Array_0);
            }
            JsonValue::Array(out)
        },
        JsonValue::Object(members) => {
            let out = resolve_members(members, vars);
            proof {
                lemma_object_view(*members);
                lemma_object_view(out);
                assert(members_view(out@) =~= resolved(value@, members_view(vars@))->Object_0);
            }
            JsonValue::Object(out)
        },
        _ => value.deep_copy(),
    }
}

fn resolve_items(items: &Vec<JsonValue>, vars: &Vec<JsonMember>) -> (r: Vec<JsonValue>)
    ensures
        r@.len() == items@.len(),
        forall|j: int|
            0 <= j < items@.len() ==> r@[j]@ == resolved(items@[j]@, members_view(vars@)),
    decreases items,
{
    let mut out: Vec<JsonValue> = Vec::new();
    let mut i: usize = 0;
    while i < items.len()
        invariant
            i <= items.len(),
            out@.len() == i,
            forall|j: int| 0 <= j < i ==> out@[j]@ == resolved(items@[j]@, members_view(vars@)),
        decreases items.len() - i,
    {
        let c = resolve_value(&items[i], vars);
        out.push(c);
        i += 1;
    }
    out
}

fn resolve_members(members: &Vec<JsonMember>, vars: &Vec<JsonMember>) -> (r: Vec<JsonMember>)
    ensures
        r@.len() == members@.len(),
        forall|j: int|
            0 <= j < members@.len() ==> r@[j].key@ == members@[j].key@ && r@[j].value@ == resolved(
                members@[j].value@,
                members_view(vars@),
            ),
    decreases members,
{
    let mut out: Vec<JsonMember> = Vec::new();
    let mut i: usize = 0;
    while i < members.len()
        invariant
            i <= members.len(),
            out@.len() == i,
            forall|j: int|
                0 <= j < i ==> out@[j].key@ == members@[j].key@ && out@[j].value@ == resolved(
                    members@[j].value@,
                    members_view(vars@),
                ),
        decreases members.len() - i,
    {
        let c = resolve_value(&members[i].value, vars);
        out.push(JsonMember { key: members[i].key.clone(), value: c });
        i += 1;
    }
    out
}

/// The value of a node with the variables of the table put in.
pub open spec fn resolved_value(node: NodeModel, vars: Seq<MemberModel>) -> JsonModel {
    resolved(value_of(node), vars)
}

/// The value of a node with the variables of the table put in.
pub fn convert_resolved(node: &AstNodeEnum, vars: &Vec<JsonMember>) -> (r: JsonValue)
    ensures
        r@ == resolved_value(node.model(), members_view(vars@)),
{
    let v = convert_value(node);
    resolve_value(&v, vars)
}

} // verus!
