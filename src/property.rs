//! Schema description: the shape of a sample document as a tree of properties.
use vstd::prelude::*;

use crate::flatten::JsonParser;
use crate::json::{fields_of, json_of, jsons_of, lemma_fields_of, lemma_jsons_of, Json, JsonValue};

verus! {

/// Type name of a null value.
pub const NULL: &'static str = "null";

/// Type name of a boolean.
pub const BOOLEAN: &'static str = "boolean";

/// Type name of a number.
pub const NUMBER: &'static str = "number";

/// Type name of a string.
pub const STRING: &'static str = "string";

/// Type name of an array.
pub const ARRAY: &'static str = "array";

/// Type name of an object.
pub const OBJECT: &'static str = "object";

/// The type name of a value.
pub open spec fn kind_name(v: Json) -> Seq<char> {
    match v {
        Json::Null => NULL@,
        Json::Bool(_) => BOOLEAN@,
        Json::Number(_) => NUMBER@,
        Json::Str(_) => STRING@,
        Json::Array(_) => ARRAY@,
        Json::Object(_) => OBJECT@,
    }
}

/// What an editor may do with a property.
#[derive(Debug, Clone, Copy, PartialEq, Eq, Structural)]
pub enum PropertyItemOp {
    /// Keep the property.
    Keep,
    /// Keep an array or object whole.
    Fold,
    /// Drop the property.
    Ignore,
}

/// The name of an operation.
pub open spec fn op_name(op: PropertyItemOp) -> Seq<char> {
    match op {
        PropertyItemOp::Keep => "keep"@,
        PropertyItemOp::Fold => "fold"@,
        PropertyItemOp::Ignore => "ignore"@,
    }
}

impl PropertyItemOp {
    /// The name of the operation.
    pub fn get_value(&self) -> (r: String)
        ensures
            r@ == op_name(*self),
    {
        match *self {
            PropertyItemOp::Fold => "fold".to_owned(),
            PropertyItemOp::Keep => "keep".to_owned(),
            PropertyItemOp::Ignore => "ignore".to_owned(),
        }
    }
}

/// The mathematical model of a property node.
pub struct Prop {
    pub node_name: Seq<char>,
    pub value_type: Seq<char>,
    pub props: Seq<Prop>,
    pub op: Seq<char>,
}

/// One node of a property tree: a name, a type name, child nodes and an operation.
#[derive(Debug, PartialEq)]
pub struct PropertyItem {
    node_name: String,
    value_type: String,
    props: Vec<PropertyItem>,
    op: String,
}

pub closed spec fn prop_of(p: PropertyItem) -> Prop
    decreases p, 1nat,
{
    Prop {
        node_name: p.node_name@,
        value_type: p.value_type@,
        props: props_of(p.props@),
        op: p.op@,
    }
}

pub closed spec fn props_of(s: Seq<PropertyItem>) -> Seq<Prop>
    decreases s, 0nat,
{
    if s.len() == 0 {
        Seq::empty()
    } else {
        props_of(s.subrange(0, s.len() - 1)).push(prop_of(s[s.len() - 1]))
    }
}

proof fn lemma_props_of(s: Seq<PropertyItem>)
    ensures
        props_of(s).len() == s.len(),
        forall|i: int| 0 <= i < s.len() ==> #[trigger] props_of(s)[i] == prop_of(s[i]),
    decreases s.len(),
{
    if s.len() > 0 {
        lemma_props_of(s.subrange(0, s.len() - 1));
    }
}

impl View for PropertyItem {
    type V = Prop;

    closed spec fn view(&self) -> Prop {
        prop_of(*self)
    }
}

/// The description of a value under `name`: arrays are described by their
/// first element only, objects by each field.
pub open spec fn describe(name: Seq<char>, v: Json) -> Prop
    decreases v, 1nat,
{
    Prop {
        node_name: name,
        value_type: kind_name(v),
        props: match v {
            Json::Array(a) => if a.len() == 0 {
                Seq::empty()
            } else {
                seq![describe(Seq::empty(), a[0])]
            },
            Json::Object(f) => describe_fields(f),
            _ => Seq::empty(),
        },
        op: "keep"@,
    }
}

/// The descriptions of the fields of an object, in order.
pub open spec fn describe_fields(f: Seq<(Seq<char>, Json)>) -> Seq<Prop>
    decreases f, 0nat,
{
    if f.len() == 0 {
        Seq::empty()
    } else {
        describe_fields(f.subrange(0, f.len() - 1)).push(
            describe(f[f.len() - 1].0, f[f.len() - 1].1),
        )
    }
}

proof fn lemma_describe_fields(f: Seq<(Seq<char>, Json)>)
    ensures
        describe_fields(f).len() == f.len(),
        forall|i: int| 0 <= i < f.len() ==> #[trigger] describe_fields(f)[i] == describe(f[i].0, f[i].1),
    decreases f.len(),
{
    if f.len() > 0 {
        lemma_describe_fields(f.subrange(0, f.len() - 1));
    }
}

impl Default for PropertyItem {
    /// A node with empty name, type name and operation, and no children.
    fn default() -> (r: PropertyItem)
        ensures
            r@ == (Prop {
                node_name: Seq::empty(),
                value_type: Seq::empty(),
                props: Seq::empty(),
                op: Seq::empty(),
            }),
    {
        let r = PropertyItem {
            node_name: String::new(),
            value_type: String::new(),
            props: Vec::new(),
            op: String::new(),
        };
        proof {
            assert(props_of(r.props@) =~= Seq::<Prop>::empty());
        }
        r
    }
}

impl PropertyItem {
    /// A node to keep, with the given name, type name and children.
    pub fn new(node_name: String, value_type: String, props: Vec<PropertyItem>) -> (r: PropertyItem)
        ensures
            r@ == (Prop {
                node_name: node_name@,
                value_type: value_type@,
                props: props_of(props@),
                op: "keep"@,
            }),
    {
        PropertyItem { node_name, value_type, props, op: PropertyItemOp::Keep.get_value() }
    }

    /// The same node with another operation.
    pub fn with_op(self, op: PropertyItemOp) -> (r: PropertyItem)
        ensures
            r@ == (Prop { op: op_name(op), ..self@ }),
    {
        PropertyItem { op: op.get_value(), ..self }
    }

    /// The node's name.
    pub fn node_name(&self) -> (r: &String)
        ensures
            r@ == self@.node_name,
    {
        &self.node_name
    }

    /// The node's type name.
    pub fn value_type(&self) -> (r: &String)
        ensures
            r@ == self@.value_type,
    {
        &self.value_type
    }

    /// The node's children.
    pub fn props(&self) -> (r: &Vec<PropertyItem>)
        ensures
            props_of(r@) == self@.props,
    {
        &self.props
    }

    /// The node's operation.
    pub fn op(&self) -> (r: &String)
        ensures
            r@ == self@.op,
    {
        &self.op
    }
}

/// A sample document with its separator and its property tree.
#[derive(Debug)]
pub struct Property {
    sep: String,
    value: JsonValue,
    item: PropertyItem,
}

impl View for Property {
    /// The separator, the sample document and the property tree.
    type V = (Seq<char>, Json, Prop);

    closed spec fn view(&self) -> (Seq<char>, Json, Prop) {
        (self.sep@, self.value@, self.item@)
    }
}

impl Property {
    /// A sample document with its separator and property tree.
    pub fn new(sep: String, value: JsonValue, item: PropertyItem) -> (r: Property)
        ensures
            r@ == (sep@, value@, item@),
    {
        Property { sep, value, item }
    }

    /// The separator.
    pub fn sep(&self) -> (r: &String)
        ensures
            r@ == self@.0,
    {
        &self.sep
    }

    /// The sample document.
    pub fn value(&self) -> (r: &JsonValue)
        ensures
            r@ == self@.1,
    {
        &self.value
    }

    /// The property tree.
    pub fn item(&self) -> (r: &PropertyItem)
        ensures
            r@ == self@.2,
    {
        &self.item
    }
}

impl JsonParser {
    /// The type name of a value.
    pub fn value_type(&self, val: &JsonValue) -> (r: &'static str)
        ensures
            r@ == kind_name(val@),
    {
        match val {
            JsonValue::Null => NULL,
            JsonValue::Bool(_) => BOOLEAN,
            JsonValue::Number(_) => NUMBER,
            JsonValue::Str(_) => STRING,
            JsonValue::Array(_) => ARRAY,
            JsonValue::Object(_) => OBJECT,
        }
    }

    fn property_node(&self, name: String, val: &JsonValue) -> (r: PropertyItem)
        ensures
            r@ == describe(name@, val@),
        decreases val,
    {
        let value_type = self.value_type(val);
        let props = match val {
            JsonValue::Object(obj) => {
                assert(decreases_to!(*val => (*val)->Object_0));
                self.property_object(obj)
            },
            JsonValue::Array(arr) => {
                assert(decreases_to!(*val => (*val)->Array_0));
                proof {
                    lemma_jsons_of(arr@);
                }
                self.property_arr(arr)
            },
            _ => Vec::new(),
        };
        proof {
            lemma_props_of(props@);
        }
        let r = PropertyItem::new(name, value_type.to_owned(), props);
        proof {
            assert(r@.props =~= describe(name@, val@).props);
        }
        r
    }

    fn property_object(&self, obj: &Vec<(String, JsonValue)>) -> (r: Vec<PropertyItem>)
        ensures
            props_of(r@) == describe_fields(fields_of(obj@)),
        decreases obj,
    {
        let ghost fields = fields_of(obj@);
        proof {
            lemma_fields_of(obj@);
            lemma_describe_fields(fields);
        }
        let mut res: Vec<PropertyItem> = Vec::new();
        let mut i: usize = 0;
        while i < obj.len()
            invariant
                i <= obj@.len(),
                res@.len() == i,
                fields == fields_of(obj@),
                fields.len() == obj@.len(),
                describe_fields(fields).len() == fields.len(),
                forall|j: int|
                    0 <= j < obj@.len() ==> #[trigger] fields[j] == (obj@[j].0@, json_of(obj@[j].1)),
                forall|j: int|
                    0 <= j < fields.len() ==> #[trigger] describe_fields(fields)[j] == describe(
                        fields[j].0,
                        fields[j].1,
                    ),
                forall|j: int| 0 <= j < i ==> prop_of(#[trigger] res@[j]) == describe_fields(fields)[j],
            decreases obj@.len() - i,
        {
            assert(decreases_to!(obj@ => obj@[i as int]));
            let item = self.property_node(obj[i].0.clone(), &obj[i].1);
            res.push(item);
            i += 1;
        }
        proof {
            lemma_props_of(res@);
            assert(props_of(res@) =~= describe_fields(fields));
        }
        res
    }

    fn property_arr(&self, arr: &Vec<JsonValue>) -> (r: Vec<PropertyItem>)
        ensures
            props_of(r@) == (if arr@.len() == 0 {
                Seq::<Prop>::empty()
            } else {
                seq![describe(Seq::empty(), arr@[0]@)]
            }),
        decreases arr,
    {
        let mut res: Vec<PropertyItem> = Vec::new();
        if arr.len() > 0 {
            assert(decreases_to!(arr@ => arr@[0]));
            let item = self.property_node(String::new(), &arr[0]);
            res.push(item);
        }
        proof {
            lemma_props_of(res@);
            if arr@.len() > 0 {
                assert(props_of(res@) =~= seq![describe(Seq::empty(), arr@[0]@)]);
            } else {
                assert(props_of(res@) =~= Seq::<Prop>::empty());
            }
        }
        res
    }

    /// The property tree of a sample document, with the engine's separator.
    pub fn property(&self, val: &JsonValue) -> (r: Property)
        ensures
            r@ == (self.0@.sep, val@, describe(Seq::empty(), val@)),
    {
        let item = self.property_node(String::new(), val);
        let sep = self.0.get_sep().to_owned();
        Property::new(sep, val.deep_copy(), item)
    }
}

} // verus!
