//! The in-memory data model: schema nodes (fields, models, enums) and the
//! directives attached to them, together with their mathematical views.

use vstd::prelude::*;

verus! {

/// A literal value carried by a directive argument.
#[derive(Debug, PartialEq, Eq)]
pub enum Value {
    Int(i64),
    Str(String),
    Bool(bool),
}

/// Mathematical view of `Value`.
#[verifier::ext_equal]
pub enum ValueV {
    Int(int),
    Str(Seq<char>),
    Bool(bool),
}

impl View for Value {
    type V = ValueV;

    open spec fn view(&self) -> ValueV {
        match self {
            Value::Int(i) => ValueV::Int(*i as int),
            Value::Str(s) => ValueV::Str(s@),
            Value::Bool(b) => ValueV::Bool(*b),
        }
    }
}

impl Clone for Value {
    fn clone(&self) -> (r: Self)
        ensures
            r@ == self@,
    {
        match self {
            Value::Int(i) => Value::Int(*i),
            Value::Str(s) => Value::Str(s.clone()),
            Value::Bool(b) => Value::Bool(*b),
        }
    }
}

/// The character sequence held by a string value; empty for the other kinds.
pub open spec fn value_str(v: ValueV) -> Seq<char> {
    match v {
        ValueV::Str(s) => s,
        _ => Seq::empty(),
    }
}

/// Whether the value is a string literal.
pub fn value_is_str(v: &Value) -> (r: bool)
    ensures
        r == (v@ is Str),
{
    match v {
        Value::Str(_) => true,
        _ => false,
    }
}

/// The string held by a string value.
pub fn value_str_clone(v: &Value) -> (r: String)
    requires
        v@ is Str,
    ensures
        r@ == value_str(v@),
{
    match v {
        Value::Str(s) => s.clone(),
        _ => {
            proof {
                assert(false);
            }
            String::new()
        },
    }
}

/// One argument of a directive: an optional keyword and a value.
#[derive(Debug, PartialEq, Eq)]
pub struct Argument {
    pub name: Option<String>,
    pub value: Value,
}

/// Mathematical view of `Argument`.
#[verifier::ext_equal]
pub struct ArgumentV {
    pub name: Option<Seq<char>>,
    pub value: ValueV,
}

impl View for Argument {
    type V = ArgumentV;

    open spec fn view(&self) -> ArgumentV {
        ArgumentV {
            name: match &self.name {
                Some(n) => Some(n@),
                None => None,
            },
            value: self.value@,
        }
    }
}

impl Clone for Argument {
    fn clone(&self) -> (r: Self)
        ensures
            r@ == self@,
    {
        Argument {
            name: match &self.name {
                Some(n) => Some(n.clone()),
                None => None,
            },
            value: self.value.clone(),
        }
    }
}

/// A parsed annotation attached to a schema node: a name and an ordered
/// argument list. Directives are immutable once parsed; validators read them
/// and may only attach derived state to the owning node.
#[derive(Debug, PartialEq, Eq)]
pub struct Directive {
    pub name: String,
    pub arguments: Vec<Argument>,
}

/// Mathematical view of `Directive`.
#[verifier::ext_equal]
pub struct DirectiveV {
    pub name: Seq<char>,
    pub arguments: Seq<ArgumentV>,
}

impl View for Directive {
    type V = DirectiveV;

    open spec fn view(&self) -> DirectiveV {
        DirectiveV {
            name: self.name@,
            arguments: self.arguments@.map_values(|a: Argument| a@),
        }
    }
}

impl Clone for Directive {
    fn clone(&self) -> (r: Self)
        ensures
            r@ == self@,
    {
        let mut arguments: Vec<Argument> = Vec::new();
        let n = self.arguments.len();
        let mut i: usize = 0;
        while i < n
            invariant
                i <= n,
                n == self.arguments.len(),
                arguments@.len() == i as int,
                forall|j: int| 0 <= j < i as int ==> arguments@[j]@ == self.arguments@[j]@,
            decreases n - i,
        {
            arguments.push(self.arguments[i].clone());
            i += 1;
        }
        let r = Directive { name: self.name.clone(), arguments };
        proof {
            assert(r@.arguments =~= self@.arguments);
        }
        r
    }
}

/// A field of a model, together with the state that directive enrichment
/// derives for it.
#[derive(Clone, Debug, PartialEq, Eq)]
pub struct Field {
    pub name: String,
    pub directives: Vec<Directive>,
    pub is_id: bool,
    pub is_unique: bool,
    pub is_auto_increment: bool,
    pub database_name: Option<String>,
    pub default_value: Option<Value>,
    pub scalar_list_strategy: Option<String>,
    pub relation_target: Option<String>,
    pub on_delete_strategy: Option<String>,
}

/// Mathematical view of `Field`.
#[verifier::ext_equal]
pub struct FieldV {
    pub name: Seq<char>,
    pub directives: Seq<DirectiveV>,
    pub is_id: bool,
    pub is_unique: bool,
    pub is_auto_increment: bool,
    pub database_name: Option<Seq<char>>,
    pub default_value: Option<ValueV>,
    pub scalar_list_strategy: Option<Seq<char>>,
    pub relation_target: Option<Seq<char>>,
    pub on_delete_strategy: Option<Seq<char>>,
}

pub open spec fn view_opt_string(s: Option<String>) -> Option<Seq<char>> {
    match s {
        Some(x) => Some(x@),
        None => None,
    }
}

pub open spec fn view_opt_value(v: Option<Value>) -> Option<ValueV> {
    match v {
        Some(x) => Some(x@),
        None => None,
    }
}

impl View for Field {
    type V = FieldV;

    open spec fn view(&self) -> FieldV {
        FieldV {
            name: self.name@,
            directives: self.directives@.map_values(|d: Directive| d@),
            is_id: self.is_id,
            is_unique: self.is_unique,
            is_auto_increment: self.is_auto_increment,
            database_name: view_opt_string(self.database_name),
            default_value: view_opt_value(self.default_value),
            scalar_list_strategy: view_opt_string(self.scalar_list_strategy),
            relation_target: view_opt_string(self.relation_target),
            on_delete_strategy: view_opt_string(self.on_delete_strategy),
        }
    }
}

impl Field {
    /// A freshly parsed field: a name, its directives, and no derived state.
    pub fn new(name: String, directives: Vec<Directive>) -> (r: Field)
        ensures
            r@ == (FieldV {
                name: name@,
                directives: directives@.map_values(|d: Directive| d@),
                is_id: false,
                is_unique: false,
                is_auto_increment: false,
                database_name: None,
                default_value: None,
                scalar_list_strategy: None,
                relation_target: None,
                on_delete_strategy: None,
            }),
    {
        Field {
            name,
            directives,
            is_id: false,
            is_unique: false,
            is_auto_increment: false,
            database_name: None,
            default_value: None,
            scalar_list_strategy: None,
            relation_target: None,
            on_delete_strategy: None,
        }
    }
}

/// A model of the schema, with the state that directive enrichment derives.
#[derive(Debug, PartialEq, Eq)]
pub struct Model {
    pub name: String,
    pub directives: Vec<Directive>,
    pub is_embedded: bool,
    pub database_name: Option<String>,
}

/// Mathematical view of `Model`.
#[verifier::ext_equal]
pub struct ModelV {
    pub name: Seq<char>,
    pub directives: Seq<DirectiveV>,
    pub is_embedded: bool,
    pub database_name: Option<Seq<char>>,
}

impl View for Model {
    type V = ModelV;

    open spec fn view(&self) -> ModelV {
        ModelV {
            name: self.name@,
            directives: self.directives@.map_values(|d: Directive| d@),
            is_embedded: self.is_embedded,
            database_name: view_opt_string(self.database_name),
        }
    }
}

impl Model {
    /// A freshly parsed model: a name, its directives, and no derived state.
    pub fn new(name: String, directives: Vec<Directive>) -> (r: Model)
        ensures
            r@ == (ModelV {
                name: name@,
                directives: directives@.map_values(|d: Directive| d@),
                is_embedded: false,
                database_name: None,
            }),
    {
        Model { name, directives, is_embedded: false, database_name: None }
    }
}

/// An enum of the schema. No enum-level directive is defined today, so no
/// enrichment state is derived for it yet.
#[derive(Debug, PartialEq, Eq)]
pub struct Enum {
    pub name: String,
    pub values: Vec<String>,
    pub directives: Vec<Directive>,
}

/// Mathematical view of `Enum`.
#[verifier::ext_equal]
pub struct EnumV {
    pub name: Seq<char>,
    pub values: Seq<Seq<char>>,
    pub directives: Seq<DirectiveV>,
}

impl View for Enum {
    type V = EnumV;

    open spec fn view(&self) -> EnumV {
        EnumV {
            name: self.name@,
            values: self.values@.map_values(|v: String| v@),
            directives: self.directives@.map_values(|d: Directive| d@),
        }
    }
}

impl Enum {
    /// A freshly parsed enum: a name, its values and its directives.
    pub fn new(name: String, values: Vec<String>, directives: Vec<Directive>) -> (r: Enum)
        ensures
            r@ == (EnumV {
                name: name@,
                values: values@.map_values(|v: String| v@),
                directives: directives@.map_values(|d: Directive| d@),
            }),
    {
        Enum { name, values, directives }
    }
}

/// The capability a schema node offers to the validation pass: access to its
/// attached directives and to its name, both at the executable level and on
/// the node's view.
pub trait WithDirectives: View {
    /// The directives attached to the node, read off its view.
    spec fn spec_directives(v: Self::V) -> Seq<DirectiveV>;

    /// The node's name, read off its view.
    spec fn spec_node_name(v: Self::V) -> Seq<char>;

    /// The directives attached to the node.
    fn directives(&self) -> (r: &Vec<Directive>)
        ensures
            r@.map_values(|d: Directive| d@) == Self::spec_directives(self@),
    ;

    /// The node's name, for error reporting.
    fn node_name(&self) -> (r: &String)
        ensures
            r@ == Self::spec_node_name(self@),
    ;
}

impl WithDirectives for Field {
    open spec fn spec_directives(v: FieldV) -> Seq<DirectiveV> {
        v.directives
    }

    open spec fn spec_node_name(v: FieldV) -> Seq<char> {
        v.name
    }

    fn directives(&self) -> (r: &Vec<Directive>) {
        &self.directives
    }

    fn node_name(&self) -> (r: &String) {
        &self.name
    }
}

impl WithDirectives for Model {
    open spec fn spec_directives(v: ModelV) -> Seq<DirectiveV> {
        v.directives
    }

    open spec fn spec_node_name(v: ModelV) -> Seq<char> {
        v.name
    }

    fn directives(&self) -> (r: &Vec<Directive>) {
        &self.directives
    }

    fn node_name(&self) -> (r: &String) {
        &self.name
    }
}

impl WithDirectives for Enum {
    open spec fn spec_directives(v: EnumV) -> Seq<DirectiveV> {
        v.directives
    }

    open spec fn spec_node_name(v: EnumV) -> Seq<char> {
        v.name
    }

    fn directives(&self) -> (r: &Vec<Directive>) {
        &self.directives
    }

    fn node_name(&self) -> (r: &String) {
        &self.name
    }
}

} // verus!
