use mlua_bridge::bridge::{mlua_bridge, BridgeOutput};
use mlua_bridge::config::{AttrArg, AttrValue};
use mlua_bridge::model::{ConstDecl, FnArg, FnDecl, ImplBlock, Member, Param, TyShape};
use mlua_bridge::render::render_trait_impl;

fn kv(key: &str, value: &str) -> AttrArg {
    AttrArg { key: String::from(key), value: AttrValue::Str(String::from(value)) }
}

fn path_ty(last: &str) -> Option<TyShape> {
    Some(TyShape::Path { last: String::from(last), text: String::from(last) })
}

fn shared_self() -> FnArg {
    FnArg::Receiver { mutable: false }
}

fn mut_self() -> FnArg {
    FnArg::Receiver { mutable: true }
}

fn val(pat: &str, ty: &str) -> FnArg {
    FnArg::Typed(Param {
        pat: String::from(pat),
        ty: TyShape::Path { last: String::from(ty), text: String::from(ty) },
    })
}

fn reference(pat: &str, elem: &str, mutable: bool) -> FnArg {
    FnArg::Typed(Param {
        pat: String::from(pat),
        ty: TyShape::Ref { mutable, elem: String::from(elem) },
    })
}

fn func(name: &str, inputs: Vec<FnArg>, output: Option<TyShape>) -> Member {
    Member::Func(FnDecl { name: String::from(name), is_pub: true, inputs, output })
}

fn run(attr: Vec<AttrArg>, members: Vec<Member>) -> BridgeOutput {
    mlua_bridge(&attr, &ImplBlock { self_ty: String::from("Foo"), members }).unwrap()
}

#[test]
fn renders_an_empty_block() {
    let text = render_trait_impl(&run(vec![], vec![]));
    assert_eq!(
        text,
        "impl ::mlua::UserData for Foo \
         { fn add_methods<M: ::mlua::UserDataMethods<Self>>(methods: &mut M) {  } \
         fn add_fields<F: mlua::UserDataFields<Self>>(fields: &mut F) {  } }"
    );
}

#[test]
fn renders_a_field_getter_statement() {
    let text = render_trait_impl(&run(
        vec![],
        vec![func("get_bar", vec![shared_self()], path_ty("u32"))],
    ));
    assert!(text.contains(
        "fields.add_field_method_get(\"bar\", |_lua, s| { Ok(s.get_bar()) });"
    ));
}

#[test]
fn renders_a_field_setter_statement() {
    let text = render_trait_impl(&run(
        vec![],
        vec![func("set_bar", vec![mut_self(), val("v", "u32")], None)],
    ));
    assert!(text.contains(
        "fields.add_field_method_set(\"bar\", |_lua, s, v| { Ok(s.set_bar(v)) });"
    ));
}

#[test]
fn renders_a_static_callable_statement() {
    let text = render_trait_impl(&run(vec![], vec![func("func_test", vec![], path_ty("u32"))]));
    assert!(text.contains(
        "methods.add_function_mut(\"func_test\", |_lua, (): ()| { Ok(Self::func_test()) });"
    ));
}

#[test]
fn missing_context_entry_resolves_to_a_catchable_error() {
    let text = render_trait_impl(&run(
        vec![],
        vec![func(
            "custom_log",
            vec![
                shared_self(),
                val("msg", "String"),
                reference("baz", "Baz", true),
                reference("context", "Bar", false),
            ],
            None,
        )],
    ));
    // Each context-sourced parameter is fetched with `ok_or`, so a missing
    // entry surfaces as a catchable runtime error, never a panic.
    assert!(text.contains(
        "let baz = &mut *_lua.app_data_mut::<Baz>()\
         .ok_or(mlua::Error::external(\"AppData not set\"))?; "
    ));
    assert!(text.contains(
        "let context = &*_lua.app_data_ref::<Bar>()\
         .ok_or(mlua::Error::external(\"AppData not set\"))?; "
    ));
    assert!(text.contains("Ok(s.custom_log(msg, baz, context))"));
    assert!(text.contains("(msg): (String)"));
}

#[test]
fn renders_failure_propagation() {
    let text = render_trait_impl(&run(
        vec![],
        vec![
            func("may_fail", vec![shared_self()], path_ty("Result")),
            func("plain", vec![shared_self()], path_ty("u32")),
        ],
    ));
    assert!(text.contains("methods.add_method(\"may_fail\", |_lua, s, (): ()| { Ok(s.may_fail()?) });"));
    assert!(text.contains("methods.add_method(\"plain\", |_lua, s, (): ()| { Ok(s.plain()) });"));
}

#[test]
fn renders_a_constant_accessor() {
    let text = render_trait_impl(&run(
        vec![kv("rename_fields", "camelCase")],
        vec![Member::Constant(ConstDecl { name: String::from("X") })],
    ));
    assert!(text.contains(
        "fields.add_field_function_get(stringify!(X), |_lua, _| Ok(Self::X));"
    ));
}

#[test]
fn renders_renamed_public_name_with_original_target() {
    let text = render_trait_impl(&run(
        vec![kv("rename_funcs", "PascalCase")],
        vec![func("func_test", vec![], path_ty("u32"))],
    ));
    assert!(text.contains("methods.add_function_mut(\"FuncTest\""));
    assert!(text.contains("Ok(Self::func_test())"));
}
