use protoc_gen_ts::ast::ImportDecl;
use protoc_gen_ts::ast::ModuleItem;
use protoc_gen_ts::context::Context;
use protoc_gen_ts::context::Syntax;
use protoc_gen_ts::context::descend_if_necessary;
use protoc_gen_ts::context::resolve_relative;
use protoc_gen_ts::descriptor::DescriptorProto;
use protoc_gen_ts::descriptor::EnumDescriptorProto;
use protoc_gen_ts::descriptor::EnumValueDescriptorProto;
use protoc_gen_ts::descriptor::FieldDescriptorProto;
use protoc_gen_ts::descriptor::FieldType;
use protoc_gen_ts::descriptor::FileDescriptorProto;
use protoc_gen_ts::descriptor::Label;
use protoc_gen_ts::options::Options;

fn simple_field(name: &str, number: i32, ft: FieldType) -> FieldDescriptorProto {
    FieldDescriptorProto {
        name: name.to_string(),
        number,
        field_type: ft,
        label: Label::Optional,
        type_ref: String::new(),
        json_name: None,
        oneof_index: None,
    }
}

#[test]
fn syntax_from_str_variants() {
    assert_eq!(Syntax::from_str("proto3"), Ok(Syntax::Proto3));
    assert_eq!(Syntax::from_str("proto2"), Ok(Syntax::Proto2));
    assert_eq!(Syntax::from_str(""), Ok(Syntax::Proto2));
    assert_eq!(Syntax::from_str("proto4"), Err(()));
}

#[test]
fn resolve_relative_same_directory() {
    let r = resolve_relative("foo.proto", "bar.proto");
    assert_eq!(r.as_str(), "./foo.proto");
}

#[test]
fn resolve_relative_sibling_directory() {
    let r = resolve_relative("a/b/foo.proto", "a/c/bar.proto");
    assert_eq!(r.as_str(), "./../b/foo.proto");
}

#[test]
fn resolve_relative_nested_directory() {
    let r = resolve_relative("a/b/foo.proto", "a/bar.proto");
    assert_eq!(r.as_str(), "./b/foo.proto");
}

#[test]
fn calculate_type_name_with_namespace() {
    let ctx = Context::new(Options::new(), Syntax::Proto3);
    let ctx = ctx.descend("pkg".to_string());
    let ctx = ctx.descend("sub".to_string());
    assert_eq!(ctx.calculate_type_name("Msg").as_str(), ".pkg.sub.Msg");
    assert_eq!(ctx.get_namespace().as_str(), "pkg.sub");
}

#[test]
fn calculate_type_name_without_namespace() {
    let ctx = Context::new(Options::new(), Syntax::Proto3);
    assert_eq!(ctx.calculate_type_name("Msg").as_str(), ".Msg");
    assert_eq!(ctx.get_namespace().as_str(), "");
}

#[test]
fn normalize_type_name_short_and_qualified() {
    let ctx = Context::new(Options::new(), Syntax::Proto3);
    assert_eq!(ctx.normalize_type_name(".pkg.sub.Msg").as_str(), "Msg");
    let mut options = Options::new();
    options.with_namespace = true;
    let ctx2 = Context::new(options, Syntax::Proto3);
    assert_eq!(ctx2.normalize_type_name(".pkg.sub.Msg").as_str(), "pkg_sub_Msg");
}

#[test]
fn normalize_name_joins_namespace() {
    let mut options = Options::new();
    options.with_namespace = true;
    let ctx = Context::new(options, Syntax::Proto3);
    let ctx = ctx.descend("pkg".to_string());
    assert_eq!(ctx.normalize_name("Msg").as_str(), "pkg_Msg");
    let ctx2 = Context::new(Options::new(), Syntax::Proto3);
    assert_eq!(ctx2.normalize_name("Msg").as_str(), "Msg");
}

#[test]
fn register_and_find_type_provider() {
    let ctx = Context::new(Options::new(), Syntax::Proto3);
    let mut unit = ctx.fork("pkg/foo.proto".to_string(), Syntax::Proto3);
    unit.register_type_name("Msg");
    let provider = unit.find_type_provider(&".Msg".to_string());
    assert_eq!(provider, Some("pkg/foo.proto".to_string()));
    assert_eq!(unit.find_type_provider(&".Other".to_string()), None);
}

#[test]
fn lazy_type_ref_local_type() {
    let ctx = Context::new(Options::new(), Syntax::Proto3);
    let mut unit = ctx.fork("pkg/foo.proto".to_string(), Syntax::Proto3);
    unit.register_type_name("Msg");
    let ident = unit.lazy_type_ref(".Msg");
    assert_eq!(ident.as_str(), "Msg");
    // A local reference records no import.
    let drained = unit.drain_imports();
    assert!(drained.is_empty());
}

#[test]
fn lazy_type_ref_cross_unit_records_relative_import() {
    let ctx = Context::new(Options::new(), Syntax::Proto3);
    let mut provider = ctx.fork("a/b/dep.proto".to_string(), Syntax::Proto3);
    provider.register_type_name("Dep");
    // The registries are shared: fork the consuming unit from the provider.
    let mut consumer = provider.fork("a/c/main.proto".to_string(), Syntax::Proto3);
    let ident = consumer.lazy_type_ref(".Dep");
    assert_eq!(ident.as_str(), "Dep");
    let drained = consumer.drain_imports();
    assert_eq!(drained.len(), 1);
    match &drained[0] {
        ModuleItem::Import(decl) => {
            assert_eq!(decl.specifier.as_str(), "Dep");
            assert_eq!(decl.src.as_str(), "./../b/dep");
        },
        other => panic!("expected an import, found {:?}", other),
    }
}

#[test]
fn lazy_type_ref_cross_unit_appends_import_suffix() {
    let mut options = Options::new();
    options.import_suffix = ".js".to_string();
    let ctx = Context::new(options, Syntax::Proto3);
    let mut provider = ctx.fork("dep.proto".to_string(), Syntax::Proto3);
    provider.register_type_name("Dep");
    let mut consumer = provider.fork("main.proto".to_string(), Syntax::Proto3);
    consumer.lazy_type_ref(".Dep");
    let drained = consumer.drain_imports();
    assert_eq!(drained.len(), 1);
    match &drained[0] {
        ModuleItem::Import(decl) => assert_eq!(decl.src.as_str(), "./dep.js"),
        other => panic!("expected an import, found {:?}", other),
    }
}

#[test]
fn update_import_deduplicates_names() {
    let mut ctx = Context::new(Options::new(), Syntax::Proto3);
    ctx.update_import("A", "./x");
    ctx.update_import("B", "./x");
    ctx.update_import("A", "./x");
    let drained = ctx.drain_imports();
    assert_eq!(drained.len(), 1);
    match &drained[0] {
        ModuleItem::Import(decl) => {
            assert_eq!(decl.specifier.as_str(), "A, B");
            assert_eq!(decl.src.as_str(), "./x");
        },
        other => panic!("expected an import, found {:?}", other),
    }
}

#[test]
fn runtime_imports_recorded_once() {
    let mut ctx = Context::new(Options::new(), Syntax::Proto3);
    ctx.get_protobuf_import("runtime");
    ctx.get_protobuf_import("runtime");
    ctx.get_base64_import("b64");
    ctx.get_sendable_import("coll");
    let drained = ctx.drain_imports();
    assert_eq!(drained.len(), 3);
    match &drained[0] {
        ModuleItem::Import(decl) => {
            assert_eq!(decl.specifier.as_str(), "BinaryReader, BinaryWriter");
            assert_eq!(decl.src.as_str(), "runtime");
        },
        other => panic!("expected an import, found {:?}", other),
    }
    match &drained[1] {
        ModuleItem::Import(decl) => assert_eq!(decl.specifier.as_str(), "toUint8Array, fromUint8Array"),
        other => panic!("expected an import, found {:?}", other),
    }
    match &drained[2] {
        ModuleItem::Import(decl) => assert_eq!(decl.specifier.as_str(), "collections"),
        other => panic!("expected an import, found {:?}", other),
    }
    // Draining clears the pending state.
    assert!(ctx.drain_imports().is_empty());
}

#[test]
fn get_import_is_fixed_alias() {
    let ctx = Context::new(Options::new(), Syntax::Proto3);
    assert_eq!(ctx.get_import("anything").as_str(), "imp_0");
}

#[test]
fn map_type_registry_round_trip() {
    let mut ctx = Context::new(Options::new(), Syntax::Proto3);
    let entry = DescriptorProto {
        name: "FooEntry".to_string(),
        field: vec![
            simple_field("key", 1, FieldType::Str),
            simple_field("value", 2, FieldType::Int32),
        ],
        options_map_entry: true,
    };
    ctx.register_map_type(&entry);
    let found = ctx.get_map_type(".FooEntry").expect("registered map type");
    assert_eq!(found.name.as_str(), "FooEntry");
    assert_eq!(found.field.len(), 2);
    assert!(ctx.get_map_type(".Missing").is_none());
}

#[test]
fn leading_enum_member_registry() {
    let mut ctx = Context::new(Options::new(), Syntax::Proto2);
    let descriptor = EnumDescriptorProto {
        name: "Status".to_string(),
        value: vec![
            EnumValueDescriptorProto { name: "FIRST".to_string(), number: 5 },
            EnumValueDescriptorProto { name: "SECOND".to_string(), number: 9 },
        ],
    };
    ctx.register_leading_enum_member(&descriptor);
    assert_eq!(ctx.get_leading_enum_member(".Status"), 5);
}

#[test]
fn descend_if_necessary_follows_package() {
    let ctx = Context::new(Options::new(), Syntax::Proto3);
    let with_pkg = FileDescriptorProto {
        name: "a.proto".to_string(),
        package: Some("pkg".to_string()),
    };
    let without_pkg = FileDescriptorProto { name: "b.proto".to_string(), package: None };
    let d1 = descend_if_necessary(&ctx, &with_pkg);
    assert_eq!(d1.get_namespace().as_str(), "pkg");
    let d2 = descend_if_necessary(&ctx, &without_pkg);
    assert_eq!(d2.get_namespace().as_str(), "");
}

#[test]
fn wrap_if_needed_wraps_only_under_namespaces() {
    let mut options = Options::new();
    options.namespaces = true;
    let ctx = Context::new(options, Syntax::Proto3);
    let mut ctx = ctx.descend("pkg".to_string());
    let items = vec![ModuleItem::Import(ImportDecl {
        specifier: "A".to_string(),
        src: "./x".to_string(),
    })];
    let wrapped = ctx.wrap_if_needed(items);
    assert_eq!(wrapped.len(), 1);
    match &wrapped[0] {
        ModuleItem::Namespace(name, inner) => {
            assert_eq!(name.as_str(), "pkg");
            assert_eq!(inner.len(), 1);
        },
        other => panic!("expected a namespace, found {:?}", other),
    }
    let mut plain = Context::new(Options::new(), Syntax::Proto3);
    let items2 = vec![ModuleItem::Import(ImportDecl {
        specifier: "A".to_string(),
        src: "./x".to_string(),
    })];
    let unwrapped = plain.wrap_if_needed(items2);
    assert_eq!(unwrapped.len(), 1);
    assert!(matches!(unwrapped[0], ModuleItem::Import(_)));
}
