use protoc_gen_ts::ast::ClassMember;
use protoc_gen_ts::ast::Expr;
use protoc_gen_ts::ast::Stmt;
use protoc_gen_ts::context::Context;
use protoc_gen_ts::context::Syntax;
use protoc_gen_ts::descriptor::DescriptorProto;
use protoc_gen_ts::descriptor::FieldDescriptorProto;
use protoc_gen_ts::descriptor::FieldType;
use protoc_gen_ts::descriptor::Label;
use protoc_gen_ts::descriptor::MethodDescriptorProto;
use protoc_gen_ts::descriptor::ServiceDescriptorProto;
use protoc_gen_ts::grpc_web::GrpcRuntime;
use protoc_gen_ts::grpc_web::GrpcWebRuntime;
use protoc_gen_ts::json::FieldAccessor;
use protoc_gen_ts::options::Options;
use protoc_gen_ts::serialize::GooglePBRuntime;

fn sfield(name: &str, number: i32, ft: FieldType, label: Label) -> FieldDescriptorProto {
    FieldDescriptorProto {
        name: name.to_string(),
        number,
        field_type: ft,
        label,
        type_ref: String::new(),
        json_name: None,
        oneof_index: None,
    }
}

#[test]
fn rw_function_names_by_kind() {
    let rt = GooglePBRuntime::new();
    let ctx = Context::new(Options::new(), Syntax::Proto3);
    let plain = sfield("a", 1, FieldType::Int32, Label::Optional);
    assert_eq!(rt.rw_function_name("write", &ctx, &plain).as_str(), "writeInt32");
    let packed = sfield("b", 2, FieldType::Int32, Label::Repeated);
    assert_eq!(rt.rw_function_name("write", &ctx, &packed).as_str(), "writePackedInt32");
    let big = sfield("c", 3, FieldType::Int64, Label::Optional);
    assert_eq!(rt.rw_function_name("write", &ctx, &big).as_str(), "writeInt64String");
    let packed_big = sfield("d", 4, FieldType::Uint64, Label::Repeated);
    assert_eq!(rt.rw_function_name("write", &ctx, &packed_big).as_str(), "writePackedUint64String");
    let text = sfield("e", 5, FieldType::Str, Label::Optional);
    assert_eq!(rt.rw_function_name("read", &ctx, &text).as_str(), "readString");
}

#[test]
fn workaround_splits_packed_sfixed64() {
    // The packed 64-bit fixed path writes each value split into 32-bit halves.
    let rt = GooglePBRuntime::new();
    let f = sfield("stamps", 40, FieldType::Sfixed64, Label::Repeated);
    let stmt = rt.serialize_workaround_sfixed64_field_stmt(&f, FieldAccessor::This);
    match stmt {
        Stmt::ExprStmt(Expr::Call(callee, args)) => {
            assert_eq!(
                *callee,
                Expr::Member(
                    Box::new(Expr::Ident("bw".to_string())),
                    "writePackedSplitFixed64".to_string()
                )
            );
            assert_eq!(args.len(), 4);
            assert_eq!(args[0], Expr::NumLit(40));
            assert_eq!(args[2], Expr::Ident("(i) => Number(i & 4294967295n)".to_string()));
            assert_eq!(args[3], Expr::Ident("(i) => Number((i >> 32n) & 4294967295n)".to_string()));
        },
        other => panic!("expected a call statement, found {:?}", other),
    }
}

#[test]
fn setup_inner_selects_workaround_for_packed_sfixed64() {
    let rt = GooglePBRuntime::new();
    let mut ctx = Context::new(Options::new(), Syntax::Proto3);
    let msg = DescriptorProto {
        name: "M".to_string(),
        field: vec![sfield("stamps", 7, FieldType::Sfixed64, Label::Repeated)],
        options_map_entry: false,
    };
    let stmts = rt.serialize_setup_inner(&mut ctx, &msg, FieldAccessor::This, false, false);
    assert_eq!(stmts.len(), 1);
    let printed = format!("{:?}", stmts[0]);
    assert!(printed.contains("writePackedSplitFixed64"));
}

#[test]
fn setup_inner_creates_writer_and_records_runtime_import() {
    let rt = GooglePBRuntime::new();
    let mut options = Options::new();
    options.runtime_package = "pbruntime".to_string();
    let mut ctx = Context::new(options, Syntax::Proto3);
    let msg = DescriptorProto {
        name: "M".to_string(),
        field: vec![sfield("n", 1, FieldType::Int32, Label::Optional)],
        options_map_entry: false,
    };
    let stmts = rt.serialize_setup_inner(&mut ctx, &msg, FieldAccessor::This, true, false);
    assert_eq!(stmts.len(), 2);
    assert!(matches!(&stmts[0], Stmt::ConstDecl(text, _) if text.as_str() == "bw: BinaryWriter"));
    let drained = ctx.drain_imports();
    assert_eq!(drained.len(), 1);
    match &drained[0] {
        protoc_gen_ts::ast::ModuleItem::Import(decl) => {
            assert_eq!(decl.specifier.as_str(), "BinaryReader, BinaryWriter");
            assert_eq!(decl.src.as_str(), "pbruntime");
        },
        other => panic!("expected the runtime import, found {:?}", other),
    }
}

#[test]
fn setup_inner_without_writer_leaves_context_unchanged() {
    let rt = GooglePBRuntime::new();
    let mut ctx = Context::new(Options::new(), Syntax::Proto3);
    let msg = DescriptorProto {
        name: "M".to_string(),
        field: vec![sfield("n", 1, FieldType::Int32, Label::Optional)],
        options_map_entry: false,
    };
    let stmts = rt.serialize_setup_inner(&mut ctx, &msg, FieldAccessor::This, false, false);
    assert_eq!(stmts.len(), 1);
    assert!(ctx.drain_imports().is_empty());
}

#[test]
fn setup_inner_message_field_written_length_delimited() {
    let rt = GooglePBRuntime::new();
    let mut ctx = Context::new(Options::new(), Syntax::Proto3);
    let mut f = sfield("child", 3, FieldType::Message, Label::Optional);
    f.type_ref = ".Child".to_string();
    let msg = DescriptorProto { name: "M".to_string(), field: vec![f], options_map_entry: false };
    let stmts = rt.serialize_setup_inner(&mut ctx, &msg, FieldAccessor::This, false, false);
    let printed = format!("{:?}", stmts[0]);
    assert!(printed.contains("writeBytes"));
    assert!(printed.contains("toBinary"));
}

#[test]
fn setup_inner_repeated_unpacked_wraps_in_loop() {
    let rt = GooglePBRuntime::new();
    let mut ctx = Context::new(Options::new(), Syntax::Proto3);
    let msg = DescriptorProto {
        name: "M".to_string(),
        field: vec![sfield("names", 2, FieldType::Str, Label::Repeated)],
        options_map_entry: false,
    };
    let stmts = rt.serialize_setup_inner(&mut ctx, &msg, FieldAccessor::This, false, false);
    assert!(matches!(&stmts[0], Stmt::ForOf(binding, _, _) if binding.as_str() == "names"));
}

#[test]
fn setup_inner_map_field_wraps_entries_in_sub_message() {
    let rt = GooglePBRuntime::new();
    let mut ctx = Context::new(Options::new(), Syntax::Proto3);
    let entry = DescriptorProto {
        name: "TagsEntry".to_string(),
        field: vec![
            sfield("key", 1, FieldType::Str, Label::Optional),
            sfield("value", 2, FieldType::Int32, Label::Optional),
        ],
        options_map_entry: true,
    };
    ctx.register_map_type(&entry);
    let mut f = sfield("tags", 9, FieldType::Message, Label::Repeated);
    f.type_ref = ".TagsEntry".to_string();
    let msg = DescriptorProto { name: "M".to_string(), field: vec![f], options_map_entry: false };
    let stmts = rt.serialize_setup_inner(&mut ctx, &msg, FieldAccessor::This, false, false);
    match &stmts[0] {
        Stmt::ForOf(binding, iterable, body) => {
            assert_eq!(binding.as_str(), "let entry");
            let it = format!("{:?}", iterable);
            assert!(it.contains("entries()"));
            // begin marker, key/value bindings, two entry writes, end marker
            assert_eq!(body.len(), 6);
            assert!(format!("{:?}", body[0]).contains("beginSubMessage"));
            assert!(format!("{:?}", body[5]).contains("endSubMessage"));
        },
        other => panic!("expected an entry loop, found {:?}", other),
    }
}

#[test]
fn setup_inner_prevent_defaults_gates_each_write() {
    let rt = GooglePBRuntime::new();
    let mut ctx = Context::new(Options::new(), Syntax::Proto3);
    let msg = DescriptorProto {
        name: "M".to_string(),
        field: vec![sfield("n", 1, FieldType::Int32, Label::Optional)],
        options_map_entry: false,
    };
    let stmts = rt.serialize_setup_inner(&mut ctx, &msg, FieldAccessor::This, false, true);
    assert!(matches!(&stmts[0], Stmt::IfStmt(_, _)));
}

#[test]
fn grpc_web_runtime_emits_no_members() {
    let rt = GrpcWebRuntime::new();
    let mut ctx = Context::new(Options::new(), Syntax::Proto3);
    let setup: Vec<ClassMember> = rt.print_setup(&mut ctx);
    assert!(setup.is_empty());
    let method = MethodDescriptorProto {
        name: "Get".to_string(),
        input_type: ".Req".to_string(),
        output_type: ".Res".to_string(),
    };
    let service = ServiceDescriptorProto { name: "Svc".to_string(), method: vec![] };
    let members = rt.print_method(&mut ctx, &method, &service);
    assert!(members.is_empty());
}
