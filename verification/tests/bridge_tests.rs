use mlua_bridge::assemble::RegKind;
use mlua_bridge::bridge::{mlua_bridge, names_renameable, BridgeOutput};
use mlua_bridge::config::{parse_config, AttrArg, AttrValue, Config, RenameRule};
use mlua_bridge::model::{ConstDecl, FnArg, FnDecl, ImplBlock, Member, Param, TyShape};

fn word(key: &str) -> AttrArg {
    AttrArg { key: String::from(key), value: AttrValue::Word }
}

fn kv(key: &str, value: &str) -> AttrArg {
    AttrArg { key: String::from(key), value: AttrValue::Str(String::from(value)) }
}

fn path_ty(last: &str) -> Option<TyShape> {
    Some(TyShape::Path { last: String::from(last), text: String::from(last) })
}

fn shared_self() -> FnArg {
    FnArg::Receiver { mutable: false }
}

fn mut_self() -> FnArg {
    FnArg::Receiver { mutable: true }
}

fn val(pat: &str, ty: &str) -> FnArg {
    FnArg::Typed(Param {
        pat: String::from(pat),
        ty: TyShape::Path { last: String::from(ty), text: String::from(ty) },
    })
}

fn reference(pat: &str, elem: &str, mutable: bool) -> FnArg {
    FnArg::Typed(Param {
        pat: String::from(pat),
        ty: TyShape::Ref { mutable, elem: String::from(elem) },
    })
}

fn func(name: &str, is_pub: bool, inputs: Vec<FnArg>, output: Option<TyShape>) -> Member {
    Member::Func(FnDecl { name: String::from(name), is_pub, inputs, output })
}

fn block(members: Vec<Member>) -> ImplBlock {
    ImplBlock { self_ty: String::from("Foo"), members }
}

fn run(attr: Vec<AttrArg>, members: Vec<Member>) -> BridgeOutput {
    mlua_bridge(&attr, &block(members)).unwrap()
}

#[test]
fn getter_under_default_config() {
    let out = run(vec![], vec![func("get_bar", true, vec![shared_self()], path_ty("u32"))]);
    assert_eq!(out.self_ty, "Foo");
    assert_eq!(out.methods.len(), 0);
    assert_eq!(out.fields.len(), 1);
    let f = &out.fields[0];
    assert!(!f.is_set);
    assert!(!f.is_static);
    assert_eq!(f.public_name, "bar");
    assert_eq!(f.target, "get_bar");
    assert_eq!(f.value_pat, "");
    assert!(f.app_data.is_empty());
    assert!(f.call_args.is_empty());
    assert!(!f.propagate);
    assert!(f.use_self);
}

#[test]
fn setter_under_default_config() {
    let out = run(
        vec![],
        vec![func("set_bar", true, vec![mut_self(), val("v", "u32")], None)],
    );
    assert_eq!(out.methods.len(), 0);
    assert_eq!(out.fields.len(), 1);
    let f = &out.fields[0];
    assert!(f.is_set);
    assert!(!f.is_static);
    assert_eq!(f.public_name, "bar");
    assert_eq!(f.target, "set_bar");
    assert_eq!(f.value_pat, "v");
    assert_eq!(f.call_args, vec![String::from("v")]);
    assert!(f.use_self);
}

#[test]
fn static_callable_without_receiver() {
    let out = run(vec![], vec![func("func_test", true, vec![], path_ty("u32"))]);
    assert_eq!(out.fields.len(), 0);
    assert_eq!(out.methods.len(), 1);
    let m = &out.methods[0];
    assert_eq!(m.kind, RegKind::FunctionMut);
    assert_eq!(m.public_name, "func_test");
    assert_eq!(m.target, "func_test");
    assert!(!m.use_self);
    assert!(!m.propagate);
    assert!(m.lua_args.is_empty());
    assert!(m.app_data.is_empty());
}

#[test]
fn receiver_shape_selects_registration_kind() {
    let out = run(
        vec![],
        vec![
            func("alpha", true, vec![], None),
            func("beta", true, vec![shared_self()], None),
            func("gamma", true, vec![mut_self()], None),
        ],
    );
    assert_eq!(out.methods.len(), 3);
    assert_eq!(out.methods[0].kind, RegKind::FunctionMut);
    assert_eq!(out.methods[1].kind, RegKind::Method);
    assert_eq!(out.methods[2].kind, RegKind::MethodMut);
}

#[test]
fn context_sourced_parameters_are_partitioned() {
    let out = run(
        vec![],
        vec![func(
            "custom_log",
            true,
            vec![
                shared_self(),
                val("msg", "String"),
                reference("baz", "Baz", true),
                reference("context", "Bar", false),
            ],
            None,
        )],
    );
    assert_eq!(out.methods.len(), 1);
    let m = &out.methods[0];
    assert_eq!(m.lua_args.len(), 1);
    assert_eq!(m.lua_args[0].pat, "msg");
    assert_eq!(m.app_data.len(), 2);
    assert_eq!(m.app_data[0].pat, "baz");
    assert_eq!(m.app_data[0].ty, "Baz");
    assert!(m.app_data[0].mutable);
    assert_eq!(m.app_data[1].pat, "context");
    assert_eq!(m.app_data[1].ty, "Bar");
    assert!(!m.app_data[1].mutable);
    // The call keeps the declared interleaving of both partitions.
    assert_eq!(
        m.call_args,
        vec![String::from("msg"), String::from("baz"), String::from("context")]
    );
}

#[test]
fn prefix_with_wrong_value_count_demotes_to_callable() {
    let out = run(
        vec![],
        vec![
            func(
                "get_invalid",
                true,
                vec![reference("x", "Incompatible", false), val("v", "u32")],
                path_ty("u32"),
            ),
            func(
                "set_invalid",
                true,
                vec![reference("x", "Incompatible", false)],
                path_ty("u32"),
            ),
        ],
    );
    assert_eq!(out.fields.len(), 0);
    assert_eq!(out.methods.len(), 2);
    assert_eq!(out.methods[0].public_name, "get_invalid");
    assert_eq!(out.methods[1].public_name, "set_invalid");
}

#[test]
fn bare_prefix_name_is_a_callable() {
    let out = run(vec![], vec![func("get_", true, vec![shared_self()], path_ty("u32"))]);
    assert_eq!(out.fields.len(), 0);
    assert_eq!(out.methods.len(), 1);
    assert_eq!(out.methods[0].public_name, "get_");
}

#[test]
fn no_auto_fields_suppresses_inference() {
    let out = run(
        vec![word("no_auto_fields")],
        vec![func("get_bar", true, vec![shared_self()], path_ty("u32"))],
    );
    assert_eq!(out.fields.len(), 0);
    assert_eq!(out.methods.len(), 1);
    assert_eq!(out.methods[0].public_name, "get_bar");
}

#[test]
fn fallible_return_propagates_plain_does_not() {
    let out = run(
        vec![],
        vec![
            func("may_fail", true, vec![shared_self()], path_ty("Result")),
            func("plain", true, vec![shared_self()], path_ty("u32")),
            func("void", true, vec![shared_self()], None),
            func("get_checked", true, vec![shared_self()], path_ty("Result")),
        ],
    );
    assert_eq!(out.methods.len(), 3);
    assert!(out.methods[0].propagate);
    assert!(!out.methods[1].propagate);
    assert!(!out.methods[2].propagate);
    assert_eq!(out.fields.len(), 1);
    assert!(out.fields[0].propagate);
}

#[test]
fn pub_only_excludes_private_functions() {
    let out = run(
        vec![word("pub_only")],
        vec![
            func("not_exported", false, vec![shared_self()], None),
            func("exported", true, vec![shared_self()], None),
            func("get_hidden", false, vec![shared_self()], path_ty("u32")),
        ],
    );
    assert_eq!(out.methods.len(), 1);
    assert_eq!(out.methods[0].target, "exported");
    assert_eq!(out.fields.len(), 0);
}

#[test]
fn without_pub_only_private_functions_are_exported() {
    let out = run(
        vec![],
        vec![func("not_exported", false, vec![shared_self()], None)],
    );
    assert_eq!(out.methods.len(), 1);
    assert_eq!(out.methods[0].target, "not_exported");
}

#[test]
fn rename_applies_to_public_name_only() {
    let out = run(
        vec![kv("rename_funcs", "PascalCase")],
        vec![func("func_test", true, vec![], path_ty("u32"))],
    );
    assert_eq!(out.methods.len(), 1);
    assert_eq!(out.methods[0].public_name, "FuncTest");
    assert_eq!(out.methods[0].target, "func_test");
}

#[test]
fn rename_fields_applies_to_stripped_name() {
    let out = run(
        vec![kv("rename_fields", "camelCase")],
        vec![func("get_static_value", true, vec![], path_ty("u32"))],
    );
    assert_eq!(out.fields.len(), 1);
    assert_eq!(out.fields[0].public_name, "staticValue");
    assert_eq!(out.fields[0].target, "get_static_value");
    assert!(out.fields[0].is_static);
}

#[test]
fn identity_rename_is_idempotent_on_names() {
    let out = run(vec![], vec![func("func_test", true, vec![], path_ty("u32"))]);
    let once = out.methods[0].public_name.clone();
    let again = run(vec![], vec![func(&once, true, vec![], path_ty("u32"))]);
    assert_eq!(again.methods[0].public_name, once);
}

#[test]
fn casing_rules_transform_as_documented() {
    let cases = [
        ("lowercase", "very_tasty", "very_tasty"),
        ("PascalCase", "very_tasty", "VeryTasty"),
        ("camelCase", "very_tasty", "veryTasty"),
        ("snake_case", "very_tasty", "very_tasty"),
        ("SCREAMING_SNAKE_CASE", "very_tasty", "VERY_TASTY"),
        ("kebab-case", "very_tasty", "very-tasty"),
    ];
    for (rule, name, expect) in cases {
        let out = run(
            vec![kv("rename_funcs", rule)],
            vec![func(name, true, vec![], path_ty("u32"))],
        );
        assert_eq!(out.methods[0].public_name, expect, "rule {}", rule);
        assert_eq!(out.methods[0].target, name);
    }
}

#[test]
fn constants_become_accessors_under_their_own_name() {
    let out = run(
        vec![kv("rename_fields", "SCREAMING_SNAKE_CASE"), kv("rename_funcs", "camelCase")],
        vec![
            Member::Constant(ConstDecl { name: String::from("X") }),
            Member::Constant(ConstDecl { name: String::from("max_count") }),
        ],
    );
    assert_eq!(out.consts.len(), 2);
    assert_eq!(out.consts[0].name, "X");
    assert_eq!(out.consts[1].name, "max_count");
}

#[test]
fn other_members_are_ignored() {
    let out = run(
        vec![],
        vec![Member::Other, func("ping", true, vec![], None), Member::Other],
    );
    assert_eq!(out.methods.len(), 1);
    assert_eq!(out.fields.len(), 0);
    assert_eq!(out.consts.len(), 0);
}

#[test]
fn malformed_attribute_yields_no_output() {
    let r = mlua_bridge(&vec![word("bogus")], &block(vec![func("ping", true, vec![], None)]));
    assert!(r.is_err());
}

#[test]
fn declaration_order_is_kept_in_each_block() {
    let out = run(
        vec![],
        vec![
            func("one", true, vec![], None),
            func("get_a", true, vec![shared_self()], path_ty("u32")),
            func("two", true, vec![], None),
            func("set_a", true, vec![mut_self(), val("v", "u32")], None),
        ],
    );
    assert_eq!(out.methods.len(), 2);
    assert_eq!(out.methods[0].target, "one");
    assert_eq!(out.methods[1].target, "two");
    assert_eq!(out.fields.len(), 2);
    assert_eq!(out.fields[0].target, "get_a");
    assert_eq!(out.fields[1].target, "set_a");
}

#[test]
fn static_setter_without_receiver() {
    let out = run(
        vec![],
        vec![func("set_static_value", true, vec![val("v", "u32")], None)],
    );
    assert_eq!(out.fields.len(), 1);
    let f = &out.fields[0];
    assert!(f.is_set);
    assert!(f.is_static);
    assert!(!f.use_self);
    assert_eq!(f.public_name, "static_value");
    assert_eq!(f.target, "set_static_value");
    assert_eq!(f.value_pat, "v");
}

#[test]
fn getter_may_take_context_sourced_parameters() {
    let out = run(
        vec![],
        vec![func(
            "get_level",
            true,
            vec![shared_self(), reference("ctx", "Bar", false)],
            path_ty("u32"),
        )],
    );
    assert_eq!(out.fields.len(), 1);
    let f = &out.fields[0];
    assert!(!f.is_set);
    assert_eq!(f.public_name, "level");
    assert_eq!(f.app_data.len(), 1);
    assert_eq!(f.app_data[0].ty, "Bar");
    assert_eq!(f.call_args, vec![String::from("ctx")]);
}

#[test]
fn reference_return_type_is_plain() {
    let out = run(
        vec![],
        vec![Member::Func(FnDecl {
            name: String::from("view_name"),
            is_pub: true,
            inputs: vec![shared_self()],
            output: Some(TyShape::Ref { mutable: false, elem: String::from("str") }),
        })],
    );
    assert_eq!(out.methods.len(), 1);
    assert!(!out.methods[0].propagate);
}

#[test]
fn typed_first_parameter_means_no_receiver() {
    let out = run(vec![], vec![func("twice", true, vec![val("v", "u32")], path_ty("u32"))]);
    assert_eq!(out.methods.len(), 1);
    assert_eq!(out.methods[0].kind, RegKind::FunctionMut);
    assert!(!out.methods[0].use_self);
    assert_eq!(out.methods[0].lua_args.len(), 1);
}

#[test]
fn camel_rule_needs_a_letter_to_capitalize() {
    let cfg = parse_config(&vec![kv("rename_funcs", "camelCase")]).unwrap();
    let good = block(vec![func("func_test", true, vec![], None)]);
    assert!(names_renameable(&cfg, &good));
    let bad = block(vec![func("____", true, vec![], None)]);
    assert!(!names_renameable(&cfg, &bad));
    let other: Config = Config::default();
    assert!(names_renameable(&other, &bad));
}
