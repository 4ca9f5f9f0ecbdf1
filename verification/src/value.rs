//! What a script hands back, as far as the library reads it.
//!
//! The interpreter's own value type cannot be looked into from verified
//! code, so a result is taken down once, as plain data: which kind of value
//! it is, what it holds where the rules read that, and the text the
//! interpreter prints for it.

use vstd::prelude::*;

verus! {

/// One element of a sequence that a script handed back.
#[derive(Clone, Debug, PartialEq)]
pub enum ArrayItem {
    /// An integer.
    Int(i64),
    /// A text.
    Text(String),
    /// Anything else.
    Other,
}

/// The kind of a value that a script handed back, with what it holds.
#[derive(Clone, Debug, PartialEq)]
pub enum ScriptKind {
    /// The unit value: a script that ends without an expression.
    Unit,
    /// A truth value.
    Bool(bool),
    /// An integer.
    Int(i64),
    /// A number with a fractional part, as its binary64 pattern.
    Float(u64),
    /// A text.
    Text(String),
    /// A sequence.
    Array(Vec<ArrayItem>),
    /// Anything else: a character, a table, a function, a host type.
    Other,
}

/// A value that a script handed back.
#[derive(Clone, Debug, PartialEq)]
pub struct ScriptValue {
    /// What kind of value it is.
    pub kind: ScriptKind,
    /// The text that the interpreter prints for it.
    pub text: String,
}

/// What an `ArrayItem` holds, as mathematics sees it.
pub enum Item {
    Int(i64),
    Text(Seq<char>),
    Other,
}

/// What a `ScriptKind` holds, as mathematics sees it.
pub enum Kind {
    Unit,
    Bool(bool),
    Int(i64),
    Float(u64),
    Text(Seq<char>),
    Array(Seq<Item>),
    Other,
}

/// What a `ScriptValue` holds, as mathematics sees it.
pub struct Observation {
    pub kind: Kind,
    pub text: Seq<char>,
}

impl View for ArrayItem {
    type V = Item;

    open spec fn view(&self) -> Item {
        match *self {
            ArrayItem::Int(n) => Item::Int(n),
            ArrayItem::Text(s) => Item::Text(s@),
            ArrayItem::Other => Item::Other,
        }
    }
}

impl View for ScriptKind {
    type V = Kind;

    open spec fn view(&self) -> Kind {
        match *self {
            ScriptKind::Unit => Kind::Unit,
            ScriptKind::Bool(b) => Kind::Bool(b),
            ScriptKind::Int(n) => Kind::Int(n),
            ScriptKind::Float(bits) => Kind::Float(bits),
            ScriptKind::Text(s) => Kind::Text(s@),
            ScriptKind::Array(items) => Kind::Array(items@.map_values(|item: ArrayItem| item@)),
            ScriptKind::Other => Kind::Other,
        }
    }
}

impl View for ScriptValue {
    type V = Observation;

    open spec fn view(&self) -> Observation {
        Observation { kind: self.kind@, text: self.text@ }
    }
}

/// What a value of the interpreter holds, all the way down.
pub enum Content {
    Unit,
    Bool(bool),
    Int(i64),
    /// A number with a fractional part, as its binary64 pattern.
    Float(u64),
    Text(Seq<char>),
    Array(Seq<Content>),
    /// A table: one value for each key.
    Table(Map<Seq<char>, Content>),
    /// Anything else: a character, a function, a host type.
    Other,
}

/// The element that a value is when it stands in a sequence.
pub open spec fn item_of(content: Content) -> Item {
    match content {
        Content::Int(n) => Item::Int(n),
        Content::Text(s) => Item::Text(s),
        _ => Item::Other,
    }
}

/// The kind of a value, with what the coercion rules read of it.
pub open spec fn kind_of(content: Content) -> Kind {
    match content {
        Content::Unit => Kind::Unit,
        Content::Bool(b) => Kind::Bool(b),
        Content::Int(n) => Kind::Int(n),
        Content::Float(bits) => Kind::Float(bits),
        Content::Text(s) => Kind::Text(s),
        Content::Array(items) => Kind::Array(items.map_values(|c: Content| item_of(c))),
        _ => Kind::Other,
    }
}

/// Why a run produced no value: the interpreter's diagnostic, as it prints it.
#[derive(Clone, Debug, PartialEq)]
pub enum ScriptFailure {
    /// The script does not parse.
    Syntax(String),
    /// The script stopped while it ran.
    Runtime(String),
}

/// A value that the host builds for a script: what a decoded JSON document
/// becomes inside the interpreter.
#[derive(Debug, PartialEq)]
pub enum DynamicValue {
    /// The unit value.
    Unit,
    /// A truth value.
    Bool(bool),
    /// An integer.
    Int(i64),
    /// A number with a fractional part, as its binary64 pattern.
    Float(u64),
    /// A text.
    Text(String),
    /// A sequence.
    Array(Vec<DynamicValue>),
    /// A table from keys to values. The interpreter keeps one value for each
    /// key, the last given, and orders the keys itself.
    Object(Vec<(String, DynamicValue)>),
}

/// What the interpreter's value for a value of the host holds.
pub open spec fn built(value: DynamicValue) -> Content
    decreases value,
{
    match value {
        DynamicValue::Unit => Content::Unit,
        DynamicValue::Bool(b) => Content::Bool(b),
        DynamicValue::Int(n) => Content::Int(n),
        DynamicValue::Float(bits) => Content::Float(bits),
        DynamicValue::Text(s) => Content::Text(s@),
        DynamicValue::Array(items) => Content::Array(built_items(items@, 0)),
        DynamicValue::Object(members) => Content::Table(
            built_table(members@, members@.len() as int),
        ),
    }
}

/// What the elements from `from` on are built into, in their order.
pub open spec fn built_items(items: Seq<DynamicValue>, from: int) -> Seq<Content>
    decreases items, items.len() - from,
{
    if 0 <= from < items.len() {
        seq![built(items[from])] + built_items(items, from + 1)
    } else {
        Seq::empty()
    }
}

/// The table that the first `upto` members are built into: each member is
/// put under its key in turn, so that of two members with one key the later
/// stays.
pub open spec fn built_table(members: Seq<(String, DynamicValue)>, upto: int) -> Map<
    Seq<char>,
    Content,
>
    decreases members, upto,
{
    if 0 < upto <= members.len() {
        built_table(members, upto - 1).insert(members[upto - 1].0@, built(members[upto - 1].1))
    } else {
        Map::empty()
    }
}

/// The elements from `from` on are built one by one.
pub proof fn lemma_built_items(items: Seq<DynamicValue>, from: int)
    requires
        0 <= from <= items.len(),
    ensures
        built_items(items, from).len() == items.len() - from,
        forall|k: int|
            0 <= k < items.len() - from ==> #[trigger] built_items(items, from)[k] == built(
                items[from + k],
            ),
    decreases items.len() - from,
{
    if from < items.len() {
        lemma_built_items(items, from + 1);
        let rest = built_items(items, from + 1);
        assert forall|k: int| 0 <= k < items.len() - from implies #[trigger] built_items(
            items,
            from,
        )[k] == built(items[from + k]) by {
            if k > 0 {
                assert(built_items(items, from)[k] == rest[k - 1]);
            }
        }
    }
}

} // verus!
