//! The binary wire-codec generator: for each message it emits an encode
//! routine that selects a write operation per field by kind, splits packed
//! 64-bit fixed values into 32-bit halves (the target runtime has no exact
//! 64-bit words), writes sub-messages length-delimited, wraps each map entry
//! in a synthetic sub-message, loops over repeated non-packed fields, and
//! elides default-valued non-oneof fields.

use vstd::prelude::*;
use vstd::string::*;
use crate::ast::Expr;
use crate::ast::ExprV;
use crate::ast::Stmt;
use crate::ast::StmtV;
use crate::ast::ImportDeclV;
use crate::ast::view_stmt;
use crate::ast::view_stmts;
use crate::builders::arrow1;
use crate::builders::call0;
use crate::builders::call1;
use crate::builders::call2;
use crate::builders::ev_call;
use crate::builders::ev_member;
use crate::builders::ev_new;
use crate::builders::ev_non_null;
use crate::builders::ident;
use crate::builders::member;
use crate::builders::member_owned;
use crate::builders::new0;
use crate::builders::non_null;
use crate::builders::stmts1;
use crate::builders::sv_if;
use crate::builders::if_stmt;
use crate::classify::spec_is_bigint;
use crate::classify::spec_is_bytes;
use crate::classify::spec_is_map;
use crate::classify::spec_is_message;
use crate::classify::spec_is_packed;
use crate::classify::spec_is_repeated;
use crate::context::Context;
use crate::context::ContextV;
use crate::registry::inserted;
use crate::registry::lookup;
use crate::descriptor::DescriptorProto;
use crate::descriptor::DescriptorProtoV;
use crate::descriptor::FieldDescriptorProto;
use crate::descriptor::FieldDescriptorProtoV;
use crate::descriptor::FieldType;
use crate::json::FieldAccessor;
use crate::json::spec_access;
use crate::json::spec_default_value_bin_expr;
use crate::json::spec_map_to_string_normalizer;
use crate::json::spec_to_string_normalizer;
use crate::json::access;
use crate::json::map_to_string_normalizer;
use crate::json::to_string_normalizer;

verus! {

/// The binary runtime whose reader and writer the emitted code drives.
#[derive(Clone, Debug)]
pub struct GooglePBRuntime {}

impl GooglePBRuntime {
    /// A fresh runtime handle.
    pub fn new() -> (r: Self) {
        GooglePBRuntime {  }
    }
}

/// A transform applied to a field access before it is written.
#[derive(Clone, Copy, PartialEq, Eq, Structural, Debug)]
pub enum AccessNormalizer {
    /// Render the value as text.
    ToString,
    /// Render every element of a repeated value as text.
    MapToString,
}

/// The given access with the optional normalizer applied.
pub open spec fn spec_apply_normalizer(n: Option<AccessNormalizer>, x: ExprV) -> ExprV {
    match n {
        None => x,
        Some(AccessNormalizer::ToString) => spec_to_string_normalizer(x),
        Some(AccessNormalizer::MapToString) => spec_map_to_string_normalizer(x),
    }
}

/// The writer-method suffix of a field's kind.
pub open spec fn spec_rw_suffix(t: FieldType) -> Seq<char> {
    match t {
        FieldType::Double => "Double"@,
        FieldType::Float => "Float"@,
        FieldType::Int64 => "Int64"@,
        FieldType::Uint64 => "Uint64"@,
        FieldType::Int32 => "Int32"@,
        FieldType::Fixed64 => "Fixed64"@,
        FieldType::Fixed32 => "Fixed32"@,
        FieldType::Bool => "Bool"@,
        FieldType::Str => "String"@,
        FieldType::Message => "Message"@,
        FieldType::Bytes => "Bytes"@,
        FieldType::Uint32 => "Uint32"@,
        FieldType::Enum => "Enum"@,
        FieldType::Sfixed32 => "Sfixed32"@,
        FieldType::Sfixed64 => "Sfixed64"@,
        FieldType::Sint32 => "Sint32"@,
        FieldType::Sint64 => "Sint64"@,
    }
}

/// The name of the reader or writer method a field's values go through: the
/// prefix, a packed marker for packed fields, the kind's suffix, and the
/// text-carrying variant for 64-bit kinds.
pub open spec fn spec_rw_function_name(prefix: Seq<char>, f: FieldDescriptorProtoV) -> Seq<char> {
    prefix + (if spec_is_packed(f) {
        "Packed"@
    } else {
        Seq::<char>::empty()
    }) + spec_rw_suffix(f.field_type) + (if spec_is_bigint(f) {
        "String"@
    } else {
        Seq::<char>::empty()
    })
}

/// The accessor the encode routine reaches a field's value with: repeated
/// non-packed non-map fields are read through their loop binding, everything
/// else on the message instance.
pub open spec fn spec_into_accessor(f: FieldDescriptorProtoV, c: ContextV) -> FieldAccessor {
    if spec_is_repeated(f) && !spec_is_packed(f) && !spec_is_map(f, c.map_type_reg) {
        FieldAccessor::Bare
    } else {
        FieldAccessor::This
    }
}

/// The normalizer a field's access needs before the write: packed 64-bit
/// values element-wise as text, single 64-bit values as text.
pub open spec fn spec_access_normalizer(f: FieldDescriptorProtoV) -> Option<AccessNormalizer> {
    if spec_is_bigint(f) && spec_is_packed(f) {
        Some(AccessNormalizer::MapToString)
    } else if spec_is_bigint(f) {
        Some(AccessNormalizer::ToString)
    } else {
        None
    }
}

/// The emitted write of one packed repeated 64-bit fixed field: each value is
/// split into its low and high 32-bit halves before writing, because the
/// target runtime cannot perform exact 64-bit bit operations.
pub open spec fn spec_workaround_sfixed64_stmt(
    f: FieldDescriptorProtoV,
    acc: FieldAccessor,
) -> StmtV {
    StmtV::ExprStmt(
        ev_call(
            ev_member(ExprV::Ident("bw"@), "writePackedSplitFixed64"@),
            seq![
                ExprV::NumLit(f.number as i64),
                spec_access(acc, f),
                ExprV::Ident("(i) => Number(i & 4294967295n)"@),
                ExprV::Ident("(i) => Number((i >> 32n) & 4294967295n)"@),
            ],
        ),
    )
}

/// The emitted write of one primitive field: the writer method selected by
/// kind, the wire number, and the (normalized) value; under the
/// transferable-isolation mode a byte value is first copied into a plain
/// byte array.
pub open spec fn spec_primitive_stmt(
    f: FieldDescriptorProtoV,
    c: ContextV,
    acc: FieldAccessor,
    n: Option<AccessNormalizer>,
) -> StmtV {
    let access_expr = spec_apply_normalizer(n, spec_access(acc, f));
    let field_params = if c.options.with_sendable && spec_is_bytes(f) {
        ev_call(ev_member(ExprV::Ident("Uint8Array"@), "from"@), seq![access_expr])
    } else {
        access_expr
    };
    StmtV::ExprStmt(
        ev_call(
            ev_member(ExprV::Ident("bw"@), spec_rw_function_name("write"@, f)),
            seq![ExprV::NumLit(f.number as i64), field_params],
        ),
    )
}

/// The emitted write of one message-typed field: the nested message's own
/// encode routine, written length-delimited.
pub open spec fn spec_message_stmt(f: FieldDescriptorProtoV, acc: FieldAccessor) -> StmtV {
    StmtV::ExprStmt(
        ev_call(
            ev_member(ExprV::Ident("bw"@), "writeBytes"@),
            seq![
                ExprV::NumLit(f.number as i64),
                ev_call(
                    ev_member(ev_non_null(spec_access(acc, f)), "toBinary"@),
                    Seq::empty(),
                ),
            ],
        ),
    )
}

/// The emitted write of one non-map field before any repeated-field
/// wrapping: a sub-message write, the split workaround for packed 64-bit
/// fixed fields, or a primitive write.
pub open spec fn spec_plain_stmt(
    f: FieldDescriptorProtoV,
    c: ContextV,
    facc: FieldAccessor,
) -> StmtV {
    if spec_is_message(f) {
        spec_message_stmt(f, facc)
    } else if f.field_type == FieldType::Sfixed64 && spec_is_packed(f) {
        spec_workaround_sfixed64_stmt(f, facc)
    } else {
        spec_primitive_stmt(f, c, facc, spec_access_normalizer(f))
    }
}

/// One field of a synthetic map entry, written inside the per-entry
/// sub-message with its local binding.
pub open spec fn spec_entry_field_stmt(f: FieldDescriptorProtoV, c: ContextV) -> StmtV {
    spec_plain_stmt(f, c, FieldAccessor::Bare)
}

/// The emitted write of one map field: for each entry of the field's map
/// container, a synthetic sub-message bracketed by the begin and end markers,
/// holding the entry's key and value written through the generic field
/// logic.
pub open spec fn spec_map_stmt(f: FieldDescriptorProtoV, c: ContextV) -> StmtV {
    let d = lookup(c.map_type_reg, f.type_ref)->Some_0;
    let body = seq![
        StmtV::ExprStmt(
            ev_call(
                ev_member(ExprV::Ident("bw"@), "beginSubMessage"@),
                seq![ExprV::NumLit(f.number as i64)],
            ),
        ),
        StmtV::ExprStmt(ExprV::Ident("let key = entry[0]"@)),
        StmtV::ExprStmt(ExprV::Ident("let value = entry[1]"@)),
    ] + Seq::new(d.field.len(), |j: int| spec_entry_field_stmt(d.field[j], c)) + seq![
        StmtV::ExprStmt(ev_call(ev_member(ExprV::Ident("bw"@), "endSubMessage"@), Seq::empty())),
    ];
    StmtV::ForOf(
        "let entry"@,
        ev_member(ev_member(ExprV::Ident("this"@), f.name), "entries()"@),
        body,
    )
}

/// The emitted write of one field of a message, wrapped for repetition and
/// gated on the default-elision test when defaults are prevented.
pub open spec fn spec_serialize_field_stmt(
    m: DescriptorProtoV,
    f: FieldDescriptorProtoV,
    c: ContextV,
    acc: FieldAccessor,
    prevent_defaults: bool,
) -> StmtV {
    let facc = if m.options_map_entry {
        acc
    } else {
        spec_into_accessor(f, c)
    };
    let stmt = if spec_is_map(f, c.map_type_reg) {
        spec_map_stmt(f, c)
    } else {
        let inner = spec_plain_stmt(f, c, facc);
        if spec_is_repeated(f) && !spec_is_packed(f) {
            if c.options.with_sendable {
                StmtV::ExprStmt(
                    ev_call(
                        ev_member(spec_access(FieldAccessor::This, f), "forEach"@),
                        seq![ExprV::Arrow(seq![f.name], seq![inner])],
                    ),
                )
            } else {
                StmtV::ForOf(f.name, spec_access(acc, f), seq![inner])
            }
        } else {
            inner
        }
    };
    if prevent_defaults {
        sv_if(spec_default_value_bin_expr(f, c, acc, false), StmtV::Block(seq![stmt]))
    } else {
        stmt
    }
}

/// The emitted encode statements of a message: the writer declaration when
/// one is created here, then one write per field in declaration order.
pub open spec fn spec_serialize_setup_stmts(
    m: DescriptorProtoV,
    c: ContextV,
    acc: FieldAccessor,
    create_bw: bool,
    prevent_defaults: bool,
) -> Seq<StmtV> {
    (if create_bw {
        seq![
            StmtV::ConstDecl(
                "bw: BinaryWriter"@,
                ev_new(ExprV::Ident("BinaryWriter"@), Seq::empty()),
            ),
        ]
    } else {
        Seq::<StmtV>::empty()
    }) + Seq::new(
        m.field.len(),
        |i: int| spec_serialize_field_stmt(m, m.field[i], c, acc, prevent_defaults),
    )
}

/// Contexts that agree on the options, the syntax and the map registry give
/// every field the same emitted write.
proof fn lemma_serialize_field_ro(
    m: DescriptorProtoV,
    f: FieldDescriptorProtoV,
    c1: ContextV,
    c2: ContextV,
    acc: FieldAccessor,
    prevent_defaults: bool,
)
    requires
        c1.options == c2.options,
        c1.syntax == c2.syntax,
        c1.map_type_reg == c2.map_type_reg,
    ensures
        spec_serialize_field_stmt(m, f, c1, acc, prevent_defaults) == spec_serialize_field_stmt(
            m,
            f,
            c2,
            acc,
            prevent_defaults,
        ),
{
    assert(spec_into_accessor(f, c1) == spec_into_accessor(f, c2));
    assert(spec_plain_stmt(f, c1, spec_into_accessor(f, c1)) == spec_plain_stmt(
        f,
        c2,
        spec_into_accessor(f, c2),
    ));
    assert(spec_plain_stmt(f, c1, acc) == spec_plain_stmt(f, c2, acc));
    if spec_is_map(f, c1.map_type_reg) {
        let d = lookup(c1.map_type_reg, f.type_ref)->Some_0;
        assert forall|j: int| 0 <= j < d.field.len() implies spec_entry_field_stmt(
            #[trigger] d.field[j],
            c1,
        ) == spec_entry_field_stmt(d.field[j], c2) by {
            assert(spec_plain_stmt(d.field[j], c1, FieldAccessor::Bare) == spec_plain_stmt(
                d.field[j],
                c2,
                FieldAccessor::Bare,
            ));
        }
        assert(Seq::new(d.field.len(), |j: int| spec_entry_field_stmt(d.field[j], c1)) =~= Seq::new(
            d.field.len(),
            |j: int| spec_entry_field_stmt(d.field[j], c2),
        ));
        assert(spec_map_stmt(f, c1) == spec_map_stmt(f, c2));
    }
    assert(spec_default_value_bin_expr(f, c1, acc, false) == spec_default_value_bin_expr(
        f,
        c2,
        acc,
        false,
    ));
}

/// Every map field of the message resolves to a registered entry message
/// whose own fields are plain (no map among them).
pub open spec fn serialize_map_fields_ok(m: DescriptorProtoV, c: ContextV) -> bool {
    forall|i: int|
        0 <= i < m.field.len() && spec_is_map(#[trigger] m.field[i], c.map_type_reg) ==> {
            let d = lookup(c.map_type_reg, m.field[i].type_ref)->Some_0;
            forall|j: int| 0 <= j < d.field.len() ==> !spec_is_map(#[trigger] d.field[j], c.map_type_reg)
        }
}

impl GooglePBRuntime {
    /// The name of the reader or writer method the field's values go through.
    pub fn rw_function_name(&self, prefix: &str, ctx: &Context, field: &FieldDescriptorProto) -> (r:
        String)
        ensures
            r@ == spec_rw_function_name(prefix@, field@),
    {
        let mut out = prefix.to_owned();
        if field.is_packed(ctx) {
            out.append("Packed");
        }
        let suffix: &str = match field.type_() {
            FieldType::Double => "Double",
            FieldType::Float => "Float",
            FieldType::Int64 => "Int64",
            FieldType::Uint64 => "Uint64",
            FieldType::Int32 => "Int32",
            FieldType::Fixed64 => "Fixed64",
            FieldType::Fixed32 => "Fixed32",
            FieldType::Bool => "Bool",
            FieldType::Str => "String",
            FieldType::Message => "Message",
            FieldType::Bytes => "Bytes",
            FieldType::Uint32 => "Uint32",
            FieldType::Enum => "Enum",
            FieldType::Sfixed32 => "Sfixed32",
            FieldType::Sfixed64 => "Sfixed64",
            FieldType::Sint32 => "Sint32",
            FieldType::Sint64 => "Sint64",
        };
        out.append(suffix);
        if field.is_bigint() {
            out.append("String");
        }
        proof {
            assert(out@ =~= spec_rw_function_name(prefix@, field@));
        }
        out
    }

    /// The emitted write of one packed repeated 64-bit fixed field, through
    /// the split of each value into its 32-bit halves.
    pub fn serialize_workaround_sfixed64_field_stmt(
        &self,
        field: &FieldDescriptorProto,
        field_accessor: FieldAccessor,
    ) -> (s: Stmt)
        ensures
            s@ == spec_workaround_sfixed64_stmt(field@, field_accessor),
    {
        let mut args: Vec<Expr> = Vec::new();
        args.push(Expr::NumLit(field.number() as i64));
        args.push(access(field_accessor, field));
        args.push(ident("(i) => Number(i & 4294967295n)"));
        args.push(ident("(i) => Number((i >> 32n) & 4294967295n)"));
        proof {
            crate::ast::lemma_view_exprs_pointwise(args@);
            assert(crate::ast::view_exprs(args@) =~= seq![
                ExprV::NumLit(field@.number as i64),
                spec_access(field_accessor, field@),
                ExprV::Ident("(i) => Number(i & 4294967295n)"@),
                ExprV::Ident("(i) => Number((i >> 32n) & 4294967295n)"@),
            ]);
        }
        let callee = member(ident("bw"), "writePackedSplitFixed64");
        let call_expr = Expr::Call(Box::new(callee), args);
        proof {
            assert(call_expr@ == ev_call(
                ev_member(ExprV::Ident("bw"@), "writePackedSplitFixed64"@),
                seq![
                    ExprV::NumLit(field@.number as i64),
                    spec_access(field_accessor, field@),
                    ExprV::Ident("(i) => Number(i & 4294967295n)"@),
                    ExprV::Ident("(i) => Number((i >> 32n) & 4294967295n)"@),
                ],
            ));
        }
        Stmt::ExprStmt(call_expr)
    }

    /// The emitted write of one primitive field.
    pub fn serialize_primitive_field_stmt(
        &self,
        ctx: &Context,
        field: &FieldDescriptorProto,
        field_accessor: FieldAccessor,
        access_normalizer: Option<AccessNormalizer>,
    ) -> (s: Stmt)
        ensures
            s@ == spec_primitive_stmt(field@, ctx@, field_accessor, access_normalizer),
    {
        let base = access(field_accessor, field);
        let access_expr: Expr = match access_normalizer {
            Some(AccessNormalizer::ToString) => to_string_normalizer(base),
            Some(AccessNormalizer::MapToString) => map_to_string_normalizer(base),
            None => base,
        };
        let field_params: Expr = if ctx.options().with_sendable && field.is_bytes() {
            call1(member(ident("Uint8Array"), "from"), access_expr)
        } else {
            access_expr
        };
        let name = self.rw_function_name("write", ctx, field);
        Stmt::ExprStmt(
            call2(
                member_owned(ident("bw"), name),
                Expr::NumLit(field.number() as i64),
                field_params,
            ),
        )
    }

    /// The emitted write of one message-typed field.
    pub fn serialize_message_field_stmt(
        &self,
        field: &FieldDescriptorProto,
        field_accessor: FieldAccessor,
    ) -> (s: Stmt)
        ensures
            s@ == spec_message_stmt(field@, field_accessor),
    {
        Stmt::ExprStmt(
            call2(
                member(ident("bw"), "writeBytes"),
                Expr::NumLit(field.number() as i64),
                call0(member(non_null(access(field_accessor, field)), "toBinary")),
            ),
        )
    }

    /// The emitted write of one non-map field before repeated wrapping.
    fn serialize_plain_field_stmt(
        &self,
        ctx: &Context,
        field: &FieldDescriptorProto,
        facc: FieldAccessor,
    ) -> (s: Stmt)
        ensures
            s@ == spec_plain_stmt(field@, ctx@, facc),
    {
        if field.is_message() {
            self.serialize_message_field_stmt(field, facc)
        } else if matches!(field.type_(), FieldType::Sfixed64) && field.is_packed(ctx) {
            self.serialize_workaround_sfixed64_field_stmt(field, facc)
        } else {
            let normalizer: Option<AccessNormalizer> = if field.is_bigint() && field.is_packed(
                ctx,
            ) {
                Some(AccessNormalizer::MapToString)
            } else if field.is_bigint() {
                Some(AccessNormalizer::ToString)
            } else {
                None
            };
            self.serialize_primitive_field_stmt(ctx, field, facc, normalizer)
        }
    }

    /// The emitted write of one map field.
    fn serialize_map_field_stmt(&self, ctx: &Context, field: &FieldDescriptorProto) -> (s: Stmt)
        requires
            spec_is_map(field@, ctx@.map_type_reg),
        ensures
            s@ == spec_map_stmt(field@, ctx@),
    {
        let descriptor = match ctx.get_map_type(field.type_ref()) {
            Some(d) => d,
            None => {
                proof {
                    assert(false);
                }
                DescriptorProto { name: String::new(), field: Vec::new(), options_map_entry: false }
            },
        };
        let mut stmts: Vec<Stmt> = Vec::new();
        stmts.push(
            Stmt::ExprStmt(
                call1(member(ident("bw"), "beginSubMessage"), Expr::NumLit(field.number() as i64)),
            ),
        );
        stmts.push(Stmt::ExprStmt(ident("let key = entry[0]")));
        stmts.push(Stmt::ExprStmt(ident("let value = entry[1]")));
        let ghost head = view_stmts(stmts@);
        proof {
            crate::ast::lemma_view_stmts_pointwise(stmts@);
            assert(head =~= seq![
                StmtV::ExprStmt(
                    ev_call(
                        ev_member(ExprV::Ident("bw"@), "beginSubMessage"@),
                        seq![ExprV::NumLit(field@.number as i64)],
                    ),
                ),
                StmtV::ExprStmt(ExprV::Ident("let key = entry[0]"@)),
                StmtV::ExprStmt(ExprV::Ident("let value = entry[1]"@)),
            ]);
        }
        let mut j: usize = 0;
        while j < descriptor.field.len()
            invariant
                j <= descriptor@.field.len(),
                descriptor@ == lookup(ctx@.map_type_reg, field@.type_ref)->Some_0,
                head =~= seq![
                    StmtV::ExprStmt(
                        ev_call(
                            ev_member(ExprV::Ident("bw"@), "beginSubMessage"@),
                            seq![ExprV::NumLit(field@.number as i64)],
                        ),
                    ),
                    StmtV::ExprStmt(ExprV::Ident("let key = entry[0]"@)),
                    StmtV::ExprStmt(ExprV::Ident("let value = entry[1]"@)),
                ],
                view_stmts(stmts@) == head + Seq::new(
                    j as nat,
                    |k: int| spec_entry_field_stmt(descriptor@.field[k], ctx@),
                ),
            decreases descriptor@.field.len() - j,
        {
            let ghost before = stmts@;
            let entry_field = &descriptor.field[j];
            proof {
                assert(descriptor@.field[j as int] == entry_field@);
            }
            let st = self.serialize_plain_field_stmt(ctx, entry_field, FieldAccessor::Bare);
            stmts.push(st);
            proof {
                assert(stmts@.drop_last() =~= before);
                assert(view_stmts(stmts@) =~= view_stmts(before).push(view_stmt(stmts@.last())));
                assert(view_stmts(stmts@) =~= head + Seq::new(
                    (j + 1) as nat,
                    |k: int| spec_entry_field_stmt(descriptor@.field[k], ctx@),
                ));
            }
            j = j + 1;
        }
        let ghost before_end = stmts@;
        stmts.push(Stmt::ExprStmt(call0(member(ident("bw"), "endSubMessage"))));
        proof {
            assert(stmts@.drop_last() =~= before_end);
            assert(view_stmts(stmts@) =~= view_stmts(before_end).push(view_stmt(stmts@.last())));
            assert(view_stmts(stmts@) =~= head + Seq::new(
                descriptor@.field.len(),
                |k: int| spec_entry_field_stmt(descriptor@.field[k], ctx@),
            ) + seq![
                StmtV::ExprStmt(
                    ev_call(ev_member(ExprV::Ident("bw"@), "endSubMessage"@), Seq::empty()),
                ),
            ]);
        }
        Stmt::ForOf(
            "let entry".to_owned(),
            member(member(ident("this"), field.name()), "entries()"),
            stmts,
        )
    }

    /// The emitted encode statements of a message: the writer declaration
    /// when requested, then one write per field in declaration order, each
    /// gated on the default-elision test when defaults are prevented. When a
    /// writer is created here and the wire runtime's package is not yet in
    /// the import table, its reader-and-writer import is recorded in the
    /// context; in every other case the context is left exactly as it was.
    pub fn serialize_setup_inner(
        &self,
        ctx: &mut Context,
        descriptor: &DescriptorProto,
        accessor: FieldAccessor,
        create_bw: bool,
        prevent_defaults: bool,
    ) -> (r: Vec<Stmt>)
        requires
            serialize_map_fields_ok(descriptor@, old(ctx)@),
        ensures
            view_stmts(r@) == spec_serialize_setup_stmts(
                descriptor@,
                old(ctx)@,
                accessor,
                create_bw,
                prevent_defaults,
            ),
            create_bw && lookup(
                old(ctx)@.import_identifier_map,
                old(ctx)@.options.runtime_package,
            ) is None ==> {
                &&& final(ctx)@.imports == old(ctx)@.imports.push(
                    ImportDeclV {
                        specifier: "BinaryReader, BinaryWriter"@,
                        src: old(ctx)@.options.runtime_package,
                    },
                )
                &&& inserted(
                    old(ctx)@.import_identifier_map,
                    final(ctx)@.import_identifier_map,
                    old(ctx)@.options.runtime_package,
                    Seq::<Seq<char>>::empty(),
                )
                &&& final(ctx)@ == (ContextV {
                    imports: final(ctx)@.imports,
                    import_identifier_map: final(ctx)@.import_identifier_map,
                    ..old(ctx)@
                })
            },
            !(create_bw && lookup(
                old(ctx)@.import_identifier_map,
                old(ctx)@.options.runtime_package,
            ) is None) ==> final(ctx)@ == old(ctx)@,
    {
        let mut stmts: Vec<Stmt> = Vec::new();
        if create_bw {
            let runtime_package = ctx.options().runtime_package.clone();
            ctx.get_protobuf_import(runtime_package.as_str());
            stmts.push(
                Stmt::ConstDecl("bw: BinaryWriter".to_owned(), new0(ident("BinaryWriter"))),
            );
        }
        let ghost ctx_mid = ctx@;
        let ghost head = view_stmts(stmts@);
        proof {
            crate::ast::lemma_view_stmts_pointwise(stmts@);
            assert(head =~= (if create_bw {
                seq![
                    StmtV::ConstDecl(
                        "bw: BinaryWriter"@,
                        ev_new(ExprV::Ident("BinaryWriter"@), Seq::empty()),
                    ),
                ]
            } else {
                Seq::<StmtV>::empty()
            }));
        }
        let mut i: usize = 0;
        while i < descriptor.field.len()
            invariant
                i <= descriptor@.field.len(),
                serialize_map_fields_ok(descriptor@, old(ctx)@),
                ctx@ == ctx_mid,
                ctx_mid == (ContextV {
                    imports: ctx_mid.imports,
                    import_identifier_map: ctx_mid.import_identifier_map,
                    ..old(ctx)@
                }),
                head =~= (if create_bw {
                    seq![
                        StmtV::ConstDecl(
                            "bw: BinaryWriter"@,
                            ev_new(ExprV::Ident("BinaryWriter"@), Seq::empty()),
                        ),
                    ]
                } else {
                    Seq::<StmtV>::empty()
                }),
                view_stmts(stmts@) == head + Seq::new(
                    i as nat,
                    |k: int|
                        spec_serialize_field_stmt(
                            descriptor@,
                            descriptor@.field[k],
                            old(ctx)@,
                            accessor,
                            prevent_defaults,
                        ),
                ),
            decreases descriptor@.field.len() - i,
        {
            let ghost before = stmts@;
            let field = &descriptor.field[i];
            proof {
                assert(descriptor@.field[i as int] == field@);
                assert(ctx@.map_type_reg == old(ctx)@.map_type_reg);
                assert(ctx@.options == old(ctx)@.options);
                assert(ctx@.syntax == old(ctx)@.syntax);
            }
            let field_accessor = if descriptor.map_entry() {
                accessor
            } else {
                if field.is_repeated() && !field.is_packed(ctx) && !field.is_map(ctx) {
                    FieldAccessor::Bare
                } else {
                    FieldAccessor::This
                }
            };
            let mut field_stmt: Stmt;
            if field.is_map(ctx) {
                field_stmt = self.serialize_map_field_stmt(ctx, field);
            } else {
                field_stmt = self.serialize_plain_field_stmt(ctx, field, field_accessor);
                if field.is_repeated() && !field.is_packed(ctx) {
                    if ctx.options().with_sendable {
                        field_stmt = Stmt::ExprStmt(
                            call1(
                                member(access(FieldAccessor::This, field), "forEach"),
                                arrow1(field.name(), stmts1(field_stmt)),
                            ),
                        );
                    } else {
                        field_stmt = Stmt::ForOf(
                            field.name().to_owned(),
                            access(accessor, field),
                            stmts1(field_stmt),
                        );
                    }
                }
            }
            if prevent_defaults {
                let gate = field.default_value_bin_expr(ctx, accessor);
                field_stmt = if_stmt(gate, Stmt::Block(stmts1(field_stmt)));
            }
            proof {
                lemma_serialize_field_ro(
                    descriptor@,
                    field@,
                    ctx@,
                    old(ctx)@,
                    accessor,
                    prevent_defaults,
                );
                assert(field_stmt@ == spec_serialize_field_stmt(
                    descriptor@,
                    field@,
                    old(ctx)@,
                    accessor,
                    prevent_defaults,
                ));
            }
            stmts.push(field_stmt);
            proof {
                assert(stmts@.drop_last() =~= before);
                assert(view_stmts(stmts@) =~= view_stmts(before).push(view_stmt(stmts@.last())));
                assert(view_stmts(stmts@) =~= head + Seq::new(
                    (i + 1) as nat,
                    |k: int|
                        spec_serialize_field_stmt(
                            descriptor@,
                            descriptor@.field[k],
                            old(ctx)@,
                            accessor,
                            prevent_defaults,
                        ),
                ));
            }
            i = i + 1;
        }
        proof {
            assert(view_stmts(stmts@) =~= spec_serialize_setup_stmts(
                descriptor@,
                old(ctx)@,
                accessor,
                create_bw,
                prevent_defaults,
            ));
        }
        stmts
    }
}

} // verus!
