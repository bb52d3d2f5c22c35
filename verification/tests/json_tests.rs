use protoc_gen_ts::ast::BinOp;
use protoc_gen_ts::ast::ClassMember;
use protoc_gen_ts::ast::Expr;
use protoc_gen_ts::ast::Stmt;
use protoc_gen_ts::ast::UnOp;
use protoc_gen_ts::context::Context;
use protoc_gen_ts::context::Syntax;
use protoc_gen_ts::descriptor::DescriptorProto;
use protoc_gen_ts::descriptor::FieldDescriptorProto;
use protoc_gen_ts::descriptor::FieldType;
use protoc_gen_ts::descriptor::Label;
use protoc_gen_ts::json::FieldAccessor;
use protoc_gen_ts::options::Options;

fn field(name: &str, number: i32, ft: FieldType, label: Label) -> FieldDescriptorProto {
    FieldDescriptorProto {
        name: name.to_string(),
        number,
        field_type: ft,
        label,
        type_ref: String::new(),
        json_name: None,
        oneof_index: None,
    }
}

fn ident(s: &str) -> Expr {
    Expr::Ident(s.to_string())
}

fn this_member(name: &str) -> Expr {
    Expr::Member(Box::new(ident("this")), name.to_string())
}

#[test]
fn json_key_name_prefers_explicit_name() {
    let mut f = field("foo_bar", 1, FieldType::Str, Label::Optional);
    assert_eq!(f.json_key_name().as_str(), "foo_bar");
    f.json_name = Some("fooBar".to_string());
    assert_eq!(f.json_key_name().as_str(), "fooBar");
}

#[test]
fn well_known_json_repr_table() {
    let mut f = field("x", 1, FieldType::Message, Label::Optional);
    f.type_ref = ".google.protobuf.Duration".to_string();
    assert_eq!(f.json_repr_for_well_known_type(), "string");
    assert!(f.is_well_known_message());
    f.type_ref = ".google.protobuf.UInt64Value".to_string();
    assert_eq!(f.json_repr_for_well_known_type(), "number|string");
    f.type_ref = ".google.protobuf.Value".to_string();
    assert_eq!(f.json_repr_for_well_known_type(), "unknown");
    f.type_ref = ".google.protobuf.NullValue".to_string();
    assert_eq!(f.json_repr_for_well_known_type(), "null");
    f.type_ref = ".my.own.Msg".to_string();
    assert_eq!(f.json_repr_for_well_known_type(), "object");
    assert!(!f.is_well_known_message());
}

#[test]
fn classification_predicates() {
    let ctx = Context::new(Options::new(), Syntax::Proto3);
    let f64s = field("a", 1, FieldType::Sfixed64, Label::Repeated);
    assert!(f64s.is_bigint());
    assert!(f64s.is_repeated());
    assert!(f64s.is_packed(&ctx));
    assert!(f64s.is_number());
    assert!(!f64s.is_integer());
    let fi = field("b", 2, FieldType::Uint32, Label::Optional);
    assert!(fi.is_integer());
    assert!(!fi.is_bigint());
    let fs = field("c", 3, FieldType::Str, Label::Optional);
    assert!(fs.is_string());
    assert!(!fs.is_packed(&ctx));
    let fm = field("d", 4, FieldType::Message, Label::Optional);
    assert!(fm.is_message());
    assert!(!fm.is_map(&ctx));
}

#[test]
fn proto3_defaults_by_kind() {
    assert_eq!(
        field("a", 1, FieldType::Str, Label::Optional).proto3_default(),
        Some(Expr::StrLit(String::new()))
    );
    assert_eq!(
        field("b", 2, FieldType::Bool, Label::Optional).proto3_default(),
        Some(Expr::BoolLit(false))
    );
    assert_eq!(
        field("c", 3, FieldType::Int64, Label::Optional).proto3_default(),
        Some(Expr::BigIntLit(0))
    );
    assert_eq!(
        field("d", 4, FieldType::Int32, Label::Optional).proto3_default(),
        Some(Expr::NumLit(0))
    );
    assert_eq!(
        field("e", 5, FieldType::Enum, Label::Optional).proto3_default(),
        Some(Expr::NumLit(0))
    );
    assert_eq!(field("f", 6, FieldType::Message, Label::Optional).proto3_default(), None);
    assert_eq!(field("g", 7, FieldType::Bytes, Label::Optional).proto3_default(), None);
}

#[test]
fn default_gate_tests_default_for_plain_field() {
    // A default-valued, non-oneof field is gated on differing from its default.
    let ctx = Context::new(Options::new(), Syntax::Proto3);
    let f = field("age", 1, FieldType::Int32, Label::Optional);
    let gate = f.default_value_bin_expr_for_json(&ctx, FieldAccessor::Bare);
    let presence = Expr::Bin(
        BinOp::And,
        Box::new(Expr::Bin(BinOp::NotEqEq, Box::new(ident("age")), Box::new(ident("null")))),
        Box::new(Expr::Bin(BinOp::NotEqEq, Box::new(ident("age")), Box::new(ident("undefined")))),
    );
    let expected = Expr::Bin(
        BinOp::And,
        Box::new(presence),
        Box::new(Expr::Bin(BinOp::NotEqEq, Box::new(ident("age")), Box::new(Expr::NumLit(0)))),
    );
    assert_eq!(gate, expected);
}

#[test]
fn default_gate_oneof_member_is_presence_only() {
    // The same field forced into a oneof context is gated on presence alone.
    let ctx = Context::new(Options::new(), Syntax::Proto3);
    let mut f = field("age", 1, FieldType::Int32, Label::Optional);
    f.oneof_index = Some(3);
    let gate = f.default_value_bin_expr_for_json(&ctx, FieldAccessor::Bare);
    let expected = Expr::Bin(
        BinOp::And,
        Box::new(Expr::Bin(BinOp::NotEqEq, Box::new(ident("age")), Box::new(ident("null")))),
        Box::new(Expr::Bin(BinOp::NotEqEq, Box::new(ident("age")), Box::new(ident("undefined")))),
    );
    assert_eq!(gate, expected);
}

#[test]
fn map_gate_requires_nonzero_size() {
    // A map field's gate also requires a non-empty container.
    let mut ctx = Context::new(Options::new(), Syntax::Proto3);
    let entry = DescriptorProto {
        name: "TagsEntry".to_string(),
        field: vec![
            field("key", 1, FieldType::Str, Label::Optional),
            field("value", 2, FieldType::Int32, Label::Optional),
        ],
        options_map_entry: true,
    };
    ctx.register_map_type(&entry);
    let mut f = field("tags", 3, FieldType::Message, Label::Repeated);
    f.type_ref = ".TagsEntry".to_string();
    assert!(f.is_map(&ctx));
    let gate = f.default_value_bin_expr_for_json(&ctx, FieldAccessor::This);
    let nn = Expr::Bin(
        BinOp::And,
        Box::new(Expr::Bin(BinOp::NotEqEq, Box::new(this_member("tags")), Box::new(ident("null")))),
        Box::new(Expr::Bin(
            BinOp::NotEqEq,
            Box::new(this_member("tags")),
            Box::new(ident("undefined")),
        )),
    );
    let expected = Expr::Bin(
        BinOp::And,
        Box::new(nn),
        Box::new(Expr::Bin(
            BinOp::NotEqEq,
            Box::new(Expr::Member(Box::new(this_member("tags")), "size".to_string())),
            Box::new(Expr::NumLit(0)),
        )),
    );
    assert_eq!(gate, expected);
}

#[test]
fn value_check_throws_error_naming_json_key() {
    // An out-of-range or ill-shaped value raises the illegal-value error
    // naming the field's JSON key.
    let mut ctx = Context::new(Options::new(), Syntax::Proto3);
    let mut f = field("age", 1, FieldType::Uint32, Label::Optional);
    f.json_name = Some("theAge".to_string());
    let stmt = f.value_check_stmt(&mut ctx, FieldAccessor::Bare);
    match stmt {
        Stmt::IfStmt(test, body) => {
            assert!(matches!(test, Expr::Unary(UnOp::Not, _)));
            match *body {
                Stmt::Throw(Expr::New(callee, args)) => {
                    assert_eq!(*callee, ident("Error"));
                    assert_eq!(args.len(), 1);
                    assert_eq!(args[0], Expr::StrLit("illegal value for theAge".to_string()));
                },
                other => panic!("expected a throw, found {:?}", other),
            }
        },
        other => panic!("expected a guard, found {:?}", other),
    }
}

#[test]
fn value_check_uint32_carries_exact_bounds() {
    let mut ctx = Context::new(Options::new(), Syntax::Proto3);
    let f = field("n", 1, FieldType::Uint32, Label::Optional);
    let stmt = f.value_check_stmt(&mut ctx, FieldAccessor::Bare);
    let printed = format!("{:?}", stmt);
    assert!(printed.contains("+0e0"));
    assert!(printed.contains("+4.294967295e9"));
}

#[test]
fn value_check_uint64_carries_lossless_bounds() {
    let mut ctx = Context::new(Options::new(), Syntax::Proto3);
    let f = field("n", 1, FieldType::Uint64, Label::Optional);
    let stmt = f.value_check_stmt(&mut ctx, FieldAccessor::Bare);
    let printed = format!("{:?}", stmt);
    assert!(printed.contains("18446744073709551615"));
    let g = field("m", 2, FieldType::Int64, Label::Optional);
    let stmt2 = g.value_check_stmt(&mut ctx, FieldAccessor::Bare);
    let printed2 = format!("{:?}", stmt2);
    assert!(printed2.contains("-9223372036854775808"));
    assert!(printed2.contains("9223372036854775807"));
}

#[test]
fn value_check_accepts_nonfinite_sentinels() {
    let mut ctx = Context::new(Options::new(), Syntax::Proto3);
    let f = field("x", 1, FieldType::Double, Label::Optional);
    let stmt = f.value_check_stmt(&mut ctx, FieldAccessor::Bare);
    let printed = format!("{:?}", stmt);
    assert!(printed.contains("NaN"));
    assert!(printed.contains("Infinity"));
    assert!(printed.contains("-Infinity"));
    assert!(printed.contains("-1.7976931348623157e308"));
}

#[test]
fn to_json_transform_by_kind() {
    let ctx = Context::new(Options::new(), Syntax::Proto3);
    let fb = field("big", 1, FieldType::Int64, Label::Optional);
    let e = fb.into_to_json_expr(&ctx, FieldAccessor::This);
    assert_eq!(
        e,
        Expr::Call(
            Box::new(Expr::Member(Box::new(this_member("big")), "toString".to_string())),
            vec![]
        )
    );
    let fe = field("kind", 2, FieldType::Enum, Label::Optional);
    let e2 = fe.into_to_json_expr(&ctx, FieldAccessor::This);
    assert_eq!(
        e2,
        Expr::Call(
            Box::new(Expr::Member(Box::new(this_member("kind")), "valueOf".to_string())),
            vec![]
        )
    );
}

#[test]
fn from_json_transform_by_kind() {
    let mut ctx = Context::new(Options::new(), Syntax::Proto3);
    let fb = field("big", 1, FieldType::Uint64, Label::Optional);
    let e = fb.into_from_json_expr(&mut ctx, FieldAccessor::Bare);
    assert_eq!(e, Expr::Call(Box::new(ident("BigInt")), vec![ident("big")]));
    let fi = field("n", 2, FieldType::Int32, Label::Optional);
    let e2 = fi.into_from_json_expr(&mut ctx, FieldAccessor::Bare);
    assert_eq!(e2, Expr::Call(Box::new(ident("Number")), vec![ident("n")]));
}

#[test]
fn map_key_from_json_boolean_compares_to_true() {
    let mut ctx = Context::new(Options::new(), Syntax::Proto3);
    let f = field("key", 1, FieldType::Bool, Label::Optional);
    let e = f.into_from_json_expr_for_map_key(&mut ctx, FieldAccessor::Bare);
    assert_eq!(
        e,
        Expr::Bin(
            BinOp::EqEqEq,
            Box::new(ident("key")),
            Box::new(Expr::StrLit("true".to_string()))
        )
    );
}

#[test]
fn map_field_descriptor_strings() {
    let msg = DescriptorProto { name: "M".to_string(), field: vec![], options_map_entry: false };
    assert_eq!(msg.get_map_field_descriptor_str(&field("k", 1, FieldType::Str, Label::Optional)), "string");
    assert_eq!(msg.get_map_field_descriptor_str(&field("k", 1, FieldType::Int64, Label::Optional)), "bigint");
    assert_eq!(msg.get_map_field_descriptor_str(&field("k", 1, FieldType::Float, Label::Optional)), "number");
    assert_eq!(msg.get_map_field_descriptor_str(&field("k", 1, FieldType::Bool, Label::Optional)), "boolean");
    assert_eq!(msg.get_map_field_descriptor_str(&field("k", 1, FieldType::Bytes, Label::Optional)), "Uint8Array");
    assert_eq!(msg.get_map_field_descriptor_str(&field("k", 1, FieldType::Message, Label::Optional)), "object");
}

fn many_field_message(n: usize) -> DescriptorProto {
    let mut fields = Vec::new();
    for i in 0..n {
        fields.push(field(&format!("f{}", i), (i + 1) as i32, FieldType::Int32, Label::Optional));
    }
    DescriptorProto { name: "Big".to_string(), field: fields, options_map_entry: false }
}

#[test]
fn to_json_chunks_large_message() {
    // A message with more than thirty fields is split over numbered helpers,
    // and the chunk boundaries do not change the per-field statements.
    let ctx = Context::new(Options::new(), Syntax::Proto3);
    let msg = many_field_message(35);
    let members = msg.print_to_json(&ctx);
    assert_eq!(members.len(), 3);
    let (b0, b1) = match (&members[0], &members[1]) {
        (ClassMember::Method(m0), ClassMember::Method(m1)) => {
            assert_eq!(m0.name.as_str(), "toJson_0");
            assert_eq!(m1.name.as_str(), "toJson_1");
            assert!(!m0.is_static);
            assert_eq!(m0.body.len(), 30);
            assert_eq!(m1.body.len(), 5);
            (&m0.body, &m1.body)
        },
    };
    // The concatenation of the chunk bodies equals one single pass.
    let single = msg.print_to_json_inner(&ctx, 0, 0, 35);
    let ClassMember::Method(whole) = single;
    let mut joined: Vec<&Stmt> = Vec::new();
    joined.extend(b0.iter());
    joined.extend(b1.iter());
    assert_eq!(joined.len(), whole.body.len());
    for (a, b) in joined.iter().zip(whole.body.iter()) {
        assert_eq!(*a, b);
    }
    match &members[2] {
        ClassMember::Method(entry) => {
            assert_eq!(entry.name.as_str(), "toJson");
            assert_eq!(entry.ret_type.as_deref(), Some("Object"));
            // declaration + two helper calls + return
            assert_eq!(entry.body.len(), 4);
        },
    }
}

#[test]
fn to_json_small_message_single_chunk() {
    let ctx = Context::new(Options::new(), Syntax::Proto3);
    let msg = many_field_message(2);
    let members = msg.print_to_json(&ctx);
    assert_eq!(members.len(), 2);
    match &members[0] {
        ClassMember::Method(m) => {
            assert_eq!(m.name.as_str(), "toJson_0");
            assert_eq!(m.body.len(), 2);
            assert_eq!(m.params, vec!["json: object".to_string()]);
        },
    }
}

#[test]
fn from_json_emits_oneof_duplicate_guard() {
    // Two values decoded into the same oneof group raise the duplicate-oneof
    // error: the emitted guard tests the group before assigning.
    let mut ctx = Context::new(Options::new(), Syntax::Proto3);
    let mut f = field("choice", 1, FieldType::Int32, Label::Optional);
    f.oneof_index = Some(2);
    let msg = DescriptorProto {
        name: "M".to_string(),
        field: vec![f],
        options_map_entry: false,
    };
    let members = msg.print_from_json(&mut ctx);
    assert_eq!(members.len(), 2);
    match &members[1] {
        ClassMember::Method(entry) => {
            assert_eq!(entry.name.as_str(), "fromJson");
            assert!(entry.is_static);
            // message decl + oneof set decl + one helper call + return
            assert_eq!(entry.body.len(), 4);
            let printed = format!("{:?}", entry.body[1]);
            assert!(printed.contains("oneof"));
        },
    }
    match &members[0] {
        ClassMember::Method(chunk) => {
            assert_eq!(chunk.name.as_str(), "fromJson_0");
            assert_eq!(chunk.body.len(), 2);
            let printed = format!("{:?}", chunk.body[1]);
            assert!(printed.contains("duplicate oneof field choice"));
            assert!(printed.contains("illegal value for choice"));
        },
    }
}

#[test]
fn from_json_without_oneof_has_no_bookkeeping_set() {
    let mut ctx = Context::new(Options::new(), Syntax::Proto3);
    let msg = many_field_message(1);
    let members = msg.print_from_json(&mut ctx);
    match &members[1] {
        ClassMember::Method(entry) => {
            // message decl + one helper call + return
            assert_eq!(entry.body.len(), 3);
        },
    }
}

#[test]
fn from_json_chunks_large_message() {
    let mut ctx = Context::new(Options::new(), Syntax::Proto3);
    let msg = many_field_message(35);
    let members = msg.print_from_json(&mut ctx);
    assert_eq!(members.len(), 3);
    match (&members[0], &members[1]) {
        (ClassMember::Method(m0), ClassMember::Method(m1)) => {
            assert_eq!(m0.name.as_str(), "fromJson_0");
            assert_eq!(m1.name.as_str(), "fromJson_1");
            assert!(m0.is_static);
            // one binding and one guarded decode per field
            assert_eq!(m0.body.len(), 60);
            assert_eq!(m1.body.len(), 10);
            assert_eq!(m0.params, vec!["json: object".to_string(), "jsonMessage: Big".to_string()]);
        },
    }
    // The chunk bodies concatenated equal one single pass.
    let mut ctx2 = Context::new(Options::new(), Syntax::Proto3);
    let single = msg.print_from_json_inner(&mut ctx2, 0, 0, 35);
    let ClassMember::Method(whole) = single;
    let (b0, b1) = match (&members[0], &members[1]) {
        (ClassMember::Method(m0), ClassMember::Method(m1)) => (&m0.body, &m1.body),
    };
    let mut joined: Vec<&Stmt> = Vec::new();
    joined.extend(b0.iter());
    joined.extend(b1.iter());
    assert_eq!(joined.len(), whole.body.len());
    for (a, b) in joined.iter().zip(whole.body.iter()) {
        assert_eq!(*a, b);
    }
}
