//! The interpreter: a fresh Rhai engine for every run, made without a
//! module resolver and with `eval` disabled, with the standard and the
//! string package and the host functions registered in it.
//!
//! `rhai` is reached through the trusted functions of this module. Its
//! values and its engine are opaque to verified code. What a value holds and
//! what the interpreter prints for it are known by two names, `content` and
//! `printed`; the accessors and constructors below say over these names what
//! the crate's own accessors and constructors do. Which functions an engine
//! has in its own namespace, whether it resolves imports and which symbols
//! it refuses are known by three more names, `registered`,
//! `resolves_imports` and `disabled`. What a script evaluates to is the
//! interpreter's to say: of that nothing is claimed.

use crate::host::{
    err, error_of, fetch_json, fetch_json_yields, http_get, http_get_json, http_get_string,
    is_err, is_failure, is_ok, join, joined, opened, parse_json, parse_json_dynamic, parse_yields,
    plain_text, texts, to_string, unwrap, unwrap_string, unwrapped_parse_yields, unwrapped_text,
    FetchOutcome,
};
use crate::value::{
    built, built_items, built_table, item_of, kind_of, lemma_built_items, ArrayItem, Content,
    DynamicValue, Observation, ScriptFailure, ScriptKind, ScriptValue,
};
use rhai::packages::Package;
use vstd::prelude::*;

verus! {

/// A value of the interpreter.
#[verifier::external_type_specification]
#[verifier::external_body]
pub struct ExDynamic(rhai::Dynamic);

/// The interpreter.
#[verifier::external_type_specification]
#[verifier::external_body]
pub struct ExEngine(rhai::Engine);

/// What a value of the interpreter holds. A value that is shared holds what
/// the value it shares holds.
pub uninterp spec fn content(value: rhai::Dynamic) -> Content;

/// The text that the interpreter prints for a value.
pub uninterp spec fn printed(value: rhai::Dynamic) -> Seq<char>;

/// A value of the interpreter as plain data: its kind, with what the
/// coercion rules read of it, and its printed text.
pub open spec fn observation(value: rhai::Dynamic) -> Observation {
    Observation { kind: kind_of(content(value)), text: printed(value) }
}

/// What each of some values holds.
pub open spec fn contents(values: Seq<rhai::Dynamic>) -> Seq<Content> {
    values.map_values(|value: rhai::Dynamic| content(value))
}

/// The printed text of each of some values.
pub open spec fn printed_all(values: Seq<rhai::Dynamic>) -> Seq<Seq<char>> {
    values.map_values(|value: rhai::Dynamic| printed(value))
}

/// The table that the first `upto` members make: each is put under its key
/// in turn, so that of two members with one key the later stays.
pub open spec fn table_of(members: Seq<(String, rhai::Dynamic)>, upto: int) -> Map<
    Seq<char>,
    Content,
>
    decreases upto,
{
    if 0 < upto <= members.len() {
        table_of(members, upto - 1).insert(members[upto - 1].0@, content(members[upto - 1].1))
    } else {
        Map::empty()
    }
}

/// `Display` of a `rhai::Dynamic`: the text the interpreter prints for it,
/// known by its name only.
#[verifier::external_body]
fn dynamic_text(value: &rhai::Dynamic) -> (r: String)
    ensures
        r@ == printed(*value),
{
    value.to_string()
}

/// `Dynamic::is_unit`. Believed: it tells whether the value holds unit.
#[verifier::external_body]
fn dynamic_is_unit(value: &rhai::Dynamic) -> (b: bool)
    ensures
        b == (content(*value) is Unit),
{
    value.is_unit()
}

/// `Dynamic::as_bool`. Believed: it gives the truth value where the value
/// holds one, and fails on every other value.
#[verifier::external_body]
fn dynamic_as_bool(value: &rhai::Dynamic) -> (r: Option<bool>)
    ensures
        r == (match content(*value) {
            Content::Bool(b) => Some(b),
            _ => None,
        }),
{
    value.as_bool().ok()
}

/// `Dynamic::as_int`. Believed: it gives the integer where the value holds
/// one, and fails on every other value.
#[verifier::external_body]
fn dynamic_as_int(value: &rhai::Dynamic) -> (r: Option<i64>)
    ensures
        r == (match content(*value) {
            Content::Int(n) => Some(n),
            _ => None,
        }),
{
    value.as_int().ok()
}

/// `Dynamic::as_float`. Believed: it gives the number, here as its binary64
/// pattern, where the value holds a number with a fractional part, and fails
/// on every other value.
#[verifier::external_body]
fn dynamic_as_bits(value: &rhai::Dynamic) -> (r: Option<u64>)
    ensures
        r == (match content(*value) {
            Content::Float(bits) => Some(bits),
            _ => None,
        }),
{
    value.as_float().ok().map(|x| x.to_bits())
}

/// `Dynamic::into_string` on a copy. Believed: it gives the text where the
/// value holds one, and fails on every other value.
#[verifier::external_body]
fn dynamic_as_string(value: &rhai::Dynamic) -> (r: Option<String>)
    ensures
        match content(*value) {
            Content::Text(s) => r matches Some(t) && t@ == s,
            _ => r is None,
        },
{
    value.clone().into_string().ok()
}

/// `Dynamic::try_cast` to `rhai::Array` on a copy. Believed: it gives the
/// elements in their order where the value holds a sequence, and fails on
/// every other value.
#[verifier::external_body]
fn dynamic_items(value: &rhai::Dynamic) -> (r: Option<Vec<rhai::Dynamic>>)
    ensures
        match content(*value) {
            Content::Array(items) => r matches Some(v) && contents(v@) == items,
            _ => r is None,
        },
{
    value.clone().try_cast::<rhai::Array>()
}

/// `Clone` of a `rhai::Dynamic`. Believed: the copy holds and prints what
/// the value does.
#[verifier::external_body]
fn dynamic_clone(value: &rhai::Dynamic) -> (r: rhai::Dynamic)
    ensures
        content(r) == content(*value),
        printed(r) == printed(*value),
{
    value.clone()
}

/// `Dynamic::UNIT`: the value that holds unit.
#[verifier::external_body]
fn dynamic_unit() -> (r: rhai::Dynamic)
    ensures
        content(r) is Unit,
{
    rhai::Dynamic::UNIT
}

/// `Dynamic::from` a truth value. Believed: the result holds it.
#[verifier::external_body]
fn dynamic_from_bool(value: bool) -> (r: rhai::Dynamic)
    ensures
        content(r) == Content::Bool(value),
{
    rhai::Dynamic::from(value)
}

/// `Dynamic::from` an integer. Believed: the result holds it.
#[verifier::external_body]
fn dynamic_from_int(value: i64) -> (r: rhai::Dynamic)
    ensures
        content(r) == Content::Int(value),
{
    rhai::Dynamic::from(value)
}

/// `Dynamic::from` the number in double precision with the given pattern.
/// Believed: the result holds that number, pattern for pattern.
#[verifier::external_body]
fn dynamic_from_bits(bits: u64) -> (r: rhai::Dynamic)
    ensures
        content(r) == Content::Float(bits),
{
    rhai::Dynamic::from(rhai::FLOAT::from_bits(bits))
}

/// `Dynamic::from` a text. Believed: the result holds it.
#[verifier::external_body]
fn dynamic_from_text(text: String) -> (r: rhai::Dynamic)
    ensures
        content(r) == Content::Text(text@),
{
    rhai::Dynamic::from(text)
}

/// `Dynamic::from` a sequence. Believed: the result holds the elements in
/// their order.
#[verifier::external_body]
fn dynamic_from_items(items: Vec<rhai::Dynamic>) -> (r: rhai::Dynamic)
    ensures
        content(r) == Content::Array(contents(items@)),
{
    rhai::Dynamic::from(items)
}

/// `Dynamic::from` a `rhai::Map` into which the members are inserted in
/// their order. Believed: the result holds the table in which each member
/// stands under its key, the later of two members with one key.
#[verifier::external_body]
fn dynamic_from_members(members: Vec<(String, rhai::Dynamic)>) -> (r: rhai::Dynamic)
    ensures
        content(r) == Content::Table(table_of(members@, members@.len() as int)),
{
    let mut table = rhai::Map::new();
    for (key, value) in members {
        table.insert(key.into(), value);
    }
    rhai::Dynamic::from(table)
}

/// The names under which functions stand in an engine's own namespace,
/// which is where `Engine::register_fn` puts them. The functions of a
/// package stand in the package's module, not there.
pub uninterp spec fn registered(engine: rhai::Engine) -> Set<Seq<char>>;

/// Whether an engine has a module resolver, that is, whether a script's
/// `import` can load anything. Without one, every `import` finds nothing.
pub uninterp spec fn resolves_imports(engine: rhai::Engine) -> bool;

/// The keywords and operators that an engine refuses to parse.
pub uninterp spec fn disabled(engine: rhai::Engine) -> Set<Seq<char>>;

/// Whether two engines are held to the same bounds: the same resolving of
/// imports and the same disabled symbols.
pub open spec fn same_bounds(a: rhai::Engine, b: rhai::Engine) -> bool {
    resolves_imports(a) == resolves_imports(b) && disabled(a) == disabled(b)
}

/// The names of the fetch functions.
pub open spec fn fetch_functions() -> Set<Seq<char>> {
    set!["http_get_string"@, "http_get"@, "http_get_json"@, "fetch_json"@]
}

/// The names of the JSON decoder and of the helpers that read two-outcome
/// values.
pub open spec fn helper_functions() -> Set<Seq<char>> {
    set!["parse_json"@, "is_err"@, "is_ok"@, "unwrap"@, "unwrap_string"@, "err"@]
}

/// The names of the conveniences.
pub open spec fn convenience_functions() -> Set<Seq<char>> {
    set!["join"@, "contains_key"@, "to_string"@, "error"@, "debug_print"@]
}

/// The names of all the functions that the host offers a script.
pub open spec fn host_functions() -> Set<Seq<char>> {
    convenience_functions().union(fetch_functions()).union(helper_functions())
}

/// `Engine::new_raw`: an engine with no package, no module resolver and no
/// output. Believed: nothing stands in the new engine's own namespace, it
/// resolves no import, and no symbol is disabled in it.
#[verifier::external_body]
fn engine_new() -> (r: rhai::Engine)
    ensures
        registered(r) == Set::<Seq<char>>::empty(),
        !resolves_imports(r),
        disabled(r) == Set::<Seq<char>>::empty(),
{
    rhai::Engine::new_raw()
}

/// `Engine::disable_symbol` for `eval`. Believed: `eval` joins the disabled
/// symbols, so that a script that uses it does not parse; the rest of the
/// engine stays as it is.
#[verifier::external_body]
fn disable_eval(engine: &mut rhai::Engine)
    ensures
        disabled(*final(engine)) == disabled(*old(engine)).insert("eval"@),
        resolves_imports(*final(engine)) == resolves_imports(*old(engine)),
        registered(*final(engine)) == registered(*old(engine)),
{
    engine.disable_symbol("eval");
}

/// `Engine::register_global_module` with the crate's standard package and
/// its basic string package. Believed: the engine's own namespace and its
/// bounds stay as they are.
#[verifier::external_body]
fn load_packages(engine: &mut rhai::Engine)
    ensures
        registered(*final(engine)) == registered(*old(engine)),
        same_bounds(*final(engine), *old(engine)),
{
    engine.register_global_module(rhai::packages::StandardPackage::new().as_shared_module());
    engine.register_global_module(rhai::packages::BasicStringPackage::new().as_shared_module());
}

/// `Engine::register_fn` for the four fetch functions. Each hands the URL
/// to `fetch` and what comes back to the library's function of that name.
/// Believed: their names join the engine's own namespace; its bounds stay
/// as they are.
#[verifier::external_body]
fn register_fetch<F: Fn(&str) -> FetchOutcome + Clone + 'static>(
    engine: &mut rhai::Engine,
    fetch: F,
)
    ensures
        registered(*final(engine)) == registered(*old(engine)).union(fetch_functions()),
        same_bounds(*final(engine), *old(engine)),
{
    let (first, second, third) = (fetch.clone(), fetch.clone(), fetch.clone());
    engine.register_fn("http_get_string", move |url: &str| http_get_string(first(url)));
    engine.register_fn("http_get", move |url: &str| http_get(second(url)));
    engine.register_fn("http_get_json", move |url: &str| http_get_json(url, third(url)));
    engine.register_fn("fetch_json", move |url: &str| host_fetch_json(url, fetch(url)));
}

/// `Engine::register_fn` for the JSON decoder, once for a text and once for
/// any value, and for the helpers that read two-outcome values. Believed:
/// their names join the engine's own namespace; its bounds stay as they are.
#[verifier::external_body]
fn register_helpers(engine: &mut rhai::Engine)
    ensures
        registered(*final(engine)) == registered(*old(engine)).union(helper_functions()),
        same_bounds(*final(engine), *old(engine)),
{
    engine.register_fn("parse_json", host_parse_json);
    engine.register_fn("parse_json", host_parse_json_dynamic);
    engine.register_fn("is_err", host_is_err);
    engine.register_fn("is_ok", host_is_ok);
    engine.register_fn("unwrap", host_unwrap);
    engine.register_fn("unwrap_string", host_unwrap_string);
    engine.register_fn("err", host_err);
}

/// `Engine::register_fn` for the conveniences: `join` on sequences,
/// `contains_key` on tables (the table's own lookup), `to_string` on any
/// value, and `error` and `debug_print`, which take a message and drop it.
/// Believed: their names join the engine's own namespace; its bounds stay
/// as they are.
#[verifier::external_body]
fn register_conveniences(engine: &mut rhai::Engine)
    ensures
        registered(*final(engine)) == registered(*old(engine)).union(convenience_functions()),
        same_bounds(*final(engine), *old(engine)),
{
    engine.register_fn("join", host_join);
    engine.register_fn("contains_key", |table: &mut rhai::Map, key: &str| table.contains_key(key));
    engine.register_fn("to_string", host_to_string);
    engine.register_fn("error", |_message: &str| ());
    engine.register_fn("debug_print", |_message: &str| ());
}

/// `Engine::eval_with_scope` with a new, empty `Scope`: runs the script once
/// as a whole program. Returns its last value, or the interpreter's
/// diagnostic as it prints it: as a syntax failure where the interpreter
/// reports `ErrorParsing`, as a failure of the run for all else. A script
/// that never ends keeps the call from returning.
#[verifier::external_body]
fn eval(engine: &rhai::Engine, code: &str) -> Result<rhai::Dynamic, ScriptFailure> {
    let mut scope = rhai::Scope::new();
    match engine.eval_with_scope::<rhai::Dynamic>(&mut scope, code) {
        Ok(value) => Ok(value),
        Err(e) => match &*e {
            rhai::EvalAltResult::ErrorParsing(..) => Err(ScriptFailure::Syntax(e.to_string())),
            _ => Err(ScriptFailure::Runtime(e.to_string())),
        },
    }
}

/// Takes down one element of a sequence.
fn observe_item(value: &rhai::Dynamic) -> (r: ArrayItem)
    ensures
        r@ == item_of(content(*value)),
{
    match dynamic_as_int(value) {
        Some(n) => ArrayItem::Int(n),
        None => match dynamic_as_string(value) {
            Some(s) => ArrayItem::Text(s),
            None => ArrayItem::Other,
        },
    }
}

/// Takes down the elements of a sequence.
fn observe_items(items: &Vec<rhai::Dynamic>) -> (r: Vec<ArrayItem>)
    ensures
        r@.len() == items@.len(),
        forall|k: int| 0 <= k < items@.len() ==> (#[trigger] r@[k])@ == item_of(content(items@[k])),
{
    let mut out: Vec<ArrayItem> = Vec::new();
    let mut i: usize = 0;
    while i < items.len()
        invariant
            i <= items.len(),
            out@.len() == i,
            forall|k: int| 0 <= k < i ==> (#[trigger] out@[k])@ == item_of(content(items@[k])),
        decreases items.len() - i,
    {
        out.push(observe_item(&items[i]));
        i = i + 1;
    }
    out
}

/// Takes down the kind of a value, with what it holds.
fn observe_kind(value: &rhai::Dynamic) -> (r: ScriptKind)
    ensures
        r@ == kind_of(content(*value)),
{
    if dynamic_is_unit(value) {
        return ScriptKind::Unit;
    }
    if let Some(b) = dynamic_as_bool(value) {
        return ScriptKind::Bool(b);
    }
    if let Some(n) = dynamic_as_int(value) {
        return ScriptKind::Int(n);
    }
    if let Some(bits) = dynamic_as_bits(value) {
        return ScriptKind::Float(bits);
    }
    if let Some(s) = dynamic_as_string(value) {
        return ScriptKind::Text(s);
    }
    match dynamic_items(value) {
        Some(items) => {
            let taken = observe_items(&items);
            assert(taken@.map_values(|item: ArrayItem| item@) =~= contents(items@).map_values(
                |c: Content| item_of(c),
            ));
            ScriptKind::Array(taken)
        },
        None => ScriptKind::Other,
    }
}

/// Takes a value of the interpreter down as plain data.
pub(crate) fn observe(value: &rhai::Dynamic) -> (r: ScriptValue)
    ensures
        r@ == observation(*value),
{
    ScriptValue { kind: observe_kind(value), text: dynamic_text(value) }
}

/// The members built so far make the table of the members they were built
/// from.
proof fn lemma_table_built(
    made: Seq<(String, rhai::Dynamic)>,
    members: Seq<(String, DynamicValue)>,
    upto: int,
)
    requires
        0 <= upto <= made.len(),
        upto <= members.len(),
        forall|k: int|
            0 <= k < upto ==> (#[trigger] made[k]).0@ == members[k].0@ && content(made[k].1)
                == built(members[k].1),
    ensures
        table_of(made, upto) == built_table(members, upto),
    decreases upto,
{
    if upto > 0 {
        lemma_table_built(made, members, upto - 1);
        assert(made[upto - 1].0@ == members[upto - 1].0@);
    }
}

/// Builds the interpreter's value for a value of the host.
pub(crate) fn to_dynamic(value: &DynamicValue) -> (r: rhai::Dynamic)
    ensures
        content(r) == built(*value),
    decreases value,
{
    match value {
        DynamicValue::Unit => dynamic_unit(),
        DynamicValue::Bool(b) => dynamic_from_bool(*b),
        DynamicValue::Int(n) => dynamic_from_int(*n),
        DynamicValue::Float(bits) => dynamic_from_bits(*bits),
        DynamicValue::Text(s) => dynamic_from_text(s.clone()),
        DynamicValue::Array(items) => {
            let mut made: Vec<rhai::Dynamic> = Vec::new();
            let mut i: usize = 0;
            while i < items.len()
                invariant
                    i <= items.len(),
                    made@.len() == i,
                    *value matches DynamicValue::Array(v) && v == *items,
                    forall|k: int| 0 <= k < i ==> content(#[trigger] made@[k]) == built(items@[k]),
                decreases items.len() - i,
            {
                assert(decreases_to!(*items => items[i as int]));
                made.push(to_dynamic(&items[i]));
                i = i + 1;
            }
            proof {
                lemma_built_items(items@, 0);
                assert(contents(made@) =~= built_items(items@, 0));
            }
            dynamic_from_items(made)
        },
        DynamicValue::Object(members) => {
            let mut made: Vec<(String, rhai::Dynamic)> = Vec::new();
            let mut i: usize = 0;
            while i < members.len()
                invariant
                    i <= members.len(),
                    made@.len() == i,
                    *value matches DynamicValue::Object(v) && v == *members,
                    forall|k: int|
                        0 <= k < i ==> (#[trigger] made@[k]).0@ == members@[k].0@ && content(
                            made@[k].1,
                        ) == built(members@[k].1),
                decreases members.len() - i,
            {
                assert(decreases_to!(*members => members[i as int]));
                made.push((members[i].0.clone(), to_dynamic(&members[i].1)));
                i = i + 1;
            }
            proof {
                lemma_table_built(made@, members@, members@.len() as int);
            }
            dynamic_from_members(made)
        },
    }
}

/// `fetch_json`, for the interpreter: the value built holds what the fetch
/// decodes to.
fn host_fetch_json(url: &str, outcome: FetchOutcome) -> (r: rhai::Dynamic)
    ensures
        exists|out: DynamicValue|
            fetch_json_yields(url@, outcome, out) && #[trigger] built(out) == content(r),
{
    let out = fetch_json(url, outcome);
    let r = to_dynamic(&out);
    assert(fetch_json_yields(url@, outcome, out) && built(out) == content(r));
    r
}

/// `parse_json` on a text, for the interpreter: the value built holds what
/// the text decodes to.
fn host_parse_json(text: &str) -> (r: rhai::Dynamic)
    ensures
        exists|out: DynamicValue| parse_yields(text@, out) && #[trigger] built(out) == content(r),
{
    let out = parse_json(text);
    let r = to_dynamic(&out);
    assert(parse_yields(text@, out) && built(out) == content(r));
    r
}

/// `parse_json` on any value, for the interpreter: the value built holds
/// what the text inside the given value decodes to. The given value stays
/// as it is.
fn host_parse_json_dynamic(value: &mut rhai::Dynamic) -> (r: rhai::Dynamic)
    ensures
        *final(value) == *old(value),
        exists|out: DynamicValue|
            unwrapped_parse_yields(observation(*old(value)), out) && #[trigger] built(out)
                == content(r),
{
    let out = parse_json_dynamic(&observe(value));
    let r = to_dynamic(&out);
    assert(unwrapped_parse_yields(observation(*old(value)), out) && built(out) == content(r));
    r
}

/// `is_err`, for the interpreter: whether the printed text of the value
/// reports a failure. The value stays as it is.
fn host_is_err(value: &mut rhai::Dynamic) -> (b: bool)
    ensures
        *final(value) == *old(value),
        b == is_failure(printed(*old(value))),
{
    is_err(&observe(value))
}

/// `is_ok`, for the interpreter: whether the printed text of the value
/// reports no failure. The value stays as it is.
fn host_is_ok(value: &mut rhai::Dynamic) -> (b: bool)
    ensures
        *final(value) == *old(value),
        b == !is_failure(printed(*old(value))),
{
    is_ok(&observe(value))
}

/// `unwrap`, for the interpreter: the text that the printed text of the
/// value opens up to, and for a value that is no two-outcome value a copy of
/// it. The value stays as it is.
fn host_unwrap(value: &mut rhai::Dynamic) -> (r: rhai::Dynamic)
    ensures
        *final(value) == *old(value),
        match opened(printed(*old(value))) {
            Some(inside) => content(r) == Content::Text(inside),
            None => content(r) == content(*old(value)) && printed(r) == printed(*old(value)),
        },
{
    match unwrap(&observe(value)) {
        Some(text) => dynamic_from_text(text),
        None => dynamic_clone(value),
    }
}

/// `unwrap_string`, for the interpreter: the text inside the value. The
/// value stays as it is.
fn host_unwrap_string(value: &mut rhai::Dynamic) -> (r: String)
    ensures
        *final(value) == *old(value),
        r@ == unwrapped_text(observation(*old(value))),
{
    unwrap_string(&observe(value))
}

/// `err`, for the interpreter: the message of an `Err(..)` as a text, unit
/// for any other value. The value stays as it is.
fn host_err(value: &mut rhai::Dynamic) -> (r: rhai::Dynamic)
    ensures
        *final(value) == *old(value),
        match error_of(printed(*old(value))) {
            Some(message) => content(r) == Content::Text(message),
            None => content(r) is Unit,
        },
{
    match err(&observe(value)) {
        Some(text) => dynamic_from_text(text),
        None => dynamic_unit(),
    }
}

/// `to_string`, for the interpreter: the text the value holds where it is
/// one, its printed text where it is not. The value stays as it is.
fn host_to_string(value: &mut rhai::Dynamic) -> (r: String)
    ensures
        *final(value) == *old(value),
        r@ == plain_text(observation(*old(value))),
{
    to_string(&observe(value))
}

/// `join`, for the interpreter: the printed texts of the elements with the
/// separator between each two.
fn host_join(parts: Vec<rhai::Dynamic>, separator: &str) -> (r: String)
    ensures
        r@ == joined(printed_all(parts@), separator@),
{
    let mut printed_parts: Vec<String> = Vec::new();
    let mut i: usize = 0;
    while i < parts.len()
        invariant
            i <= parts.len(),
            printed_parts@.len() == i,
            forall|k: int| 0 <= k < i ==> (#[trigger] printed_parts@[k])@ == printed(parts@[k]),
        decreases parts.len() - i,
    {
        printed_parts.push(dynamic_text(&parts[i]));
        i = i + 1;
    }
    assert(texts(printed_parts@) =~= printed_all(parts@));
    join(&printed_parts, separator)
}

/// A new interpreter with the standard and the string package and the host
/// functions. `fetch` performs the GET requests of the fetch functions. In
/// the engine's own namespace stand the host functions and nothing else; an
/// `import` loads nothing, and `eval` does not parse.
pub(crate) fn setup_rhai_engine<F: Fn(&str) -> FetchOutcome + Clone + 'static>(fetch: F) -> (r:
    rhai::Engine)
    ensures
        registered(r) == host_functions(),
        !resolves_imports(r),
        disabled(r) == set!["eval"@],
{
    let mut engine = engine_new();
    disable_eval(&mut engine);
    load_packages(&mut engine);
    register_conveniences(&mut engine);
    register_fetch(&mut engine, fetch);
    register_helpers(&mut engine);
    assert(registered(engine) =~= host_functions());
    assert(disabled(engine) =~= set!["eval"@]);
    engine
}

/// Runs a script once, as a whole program, in an interpreter of its own.
/// Returns its last value taken down as plain data, or the interpreter's
/// diagnostic. Nothing of the interpreter outlives the call.
///
/// Which value or diagnostic comes out is the interpreter's to say. A value
/// that comes out is what an interpreter value holds and prints.
pub fn evaluate<F: Fn(&str) -> FetchOutcome + Clone + 'static>(code: &str, fetch: F) -> (r: Result<
    ScriptValue,
    ScriptFailure,
>)
    ensures
        r matches Ok(v) ==> exists|d: rhai::Dynamic| #[trigger] observation(d) == v@,
{
    let engine = setup_rhai_engine(fetch);
    match eval(&engine, code) {
        Ok(value) => {
            let taken = observe(&value);
            assert(observation(value) == taken@);
            Ok(taken)
        },
        Err(failure) => Err(failure),
    }
}

} // verus!
