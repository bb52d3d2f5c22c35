//! The JSON mapping generator: for each message it emits a routine that
//! builds the canonical JSON object (present fields only, transformed by
//! kind) and one that reads such an object back, validating every value's
//! shape and range and rejecting duplicate oneof assignments. Both routines
//! are chunked so that no generated method covers more than thirty fields.

use vstd::prelude::*;
use vstd::string::*;
use crate::ast::BinOp;
use crate::ast::Expr;
use crate::ast::ExprV;
use crate::ast::Stmt;
use crate::ast::StmtV;
use crate::ast::UnOp;
use crate::builders::arrow_short1;
use crate::builders::bin;
use crate::builders::call0;
use crate::builders::call1;
use crate::builders::call2;
use crate::builders::cond;
use crate::builders::computed_member;
use crate::builders::ev_arrow_short;
use crate::builders::ev_assign;
use crate::builders::ev_bin;
use crate::builders::ev_call;
use crate::builders::ev_computed;
use crate::builders::ev_cond;
use crate::builders::ev_member;
use crate::builders::ev_new;
use crate::builders::ev_non_null;
use crate::builders::ev_paren;
use crate::builders::ev_typeof;
use crate::builders::ev_unary;
use crate::builders::ident;
use crate::builders::ident_owned;
use crate::builders::if_stmt;
use crate::builders::member;
use crate::builders::member_owned;
use crate::builders::new1;
use crate::builders::non_null;
use crate::builders::paren;
use crate::builders::str_lit;
use crate::builders::str_lit_owned;
use crate::builders::sv_if;
use crate::builders::typeof_check;
use crate::builders::unary;
use crate::classify::spec_is_bigint;
use crate::classify::spec_is_boolean;
use crate::classify::spec_is_bytes;
use crate::classify::spec_is_enum;
use crate::classify::spec_is_integer;
use crate::classify::spec_is_map;
use crate::classify::spec_is_message;
use crate::classify::spec_is_number;
use crate::classify::spec_is_repeated;
use crate::classify::spec_is_string;
use crate::classify::spec_is_well_known_message;
use crate::classify::spec_json_repr_wkt;
use crate::ast::ClassMember;
use crate::ast::ClassMemberV;
use crate::ast::MethodDef;
use crate::ast::MethodDefV;
use crate::ast::view_stmt;
use crate::ast::view_stmts;
use crate::ast::view_strings;
use crate::builders::arrow2;
use crate::builders::assign;
use crate::builders::new0;
use crate::builders::stmts1;
use crate::context::Context;
use crate::context::ContextV;
use crate::context::Syntax;
use crate::context::lazy_pre;
use crate::context::lazy_ref_post;
use crate::context::ro_eq;
use crate::context::spec_lazy_ref_ident;
use crate::context::spec_normalize_name;
use crate::context::spec_normalize_type_name;
use crate::descriptor::DescriptorProto;
use crate::strutil::spec_dec;
use crate::strutil::usize_to_dec;
use crate::descriptor::FieldDescriptorProto;
use crate::descriptor::FieldDescriptorProtoV;
use crate::descriptor::FieldType;
use crate::descriptor::DescriptorProtoV;
use crate::registry::lookup;
use crate::strutil::str_concat;

verus! {

/// How the emitted code reaches a field's value.
#[derive(Clone, Copy, PartialEq, Eq, Structural, Debug)]
pub enum FieldAccessor {
    /// `this.<name>`, on the message instance.
    This,
    /// `<name>`, a local binding of the field's name.
    Bare,
    /// `r`, the element binding inside a repeated-field loop.
    Static,
    /// `json.<json key>`, on the incoming JSON object.
    JsonKeyName,
    /// `json.<name>`, on the incoming JSON object under the declared name.
    JsonName,
}

/// The key under which a field appears in JSON: its explicit wire-JSON name
/// when one was declared, its declared name otherwise.
pub open spec fn spec_json_key_name(f: FieldDescriptorProtoV) -> Seq<char> {
    match f.json_name {
        Some(j) => j,
        None => f.name,
    }
}

/// The expression under which an accessor reaches the field's value.
pub open spec fn spec_access(acc: FieldAccessor, f: FieldDescriptorProtoV) -> ExprV {
    match acc {
        FieldAccessor::This => ev_member(ExprV::Ident("this"@), f.name),
        FieldAccessor::Bare => ExprV::Ident(f.name),
        FieldAccessor::Static => ExprV::Ident("r"@),
        FieldAccessor::JsonKeyName => ev_member(ExprV::Ident("json"@), spec_json_key_name(f)),
        FieldAccessor::JsonName => ev_member(ExprV::Ident("json"@), f.name),
    }
}

/// The call that renders a value as text.
pub open spec fn spec_to_string_normalizer(x: ExprV) -> ExprV {
    ev_call(ev_member(x, "toString"@), Seq::empty())
}

/// The call that renders every element of a repeated value as text.
pub open spec fn spec_map_to_string_normalizer(x: ExprV) -> ExprV {
    ev_call(
        ev_member(x, "map"@),
        seq![
            ev_arrow_short(
                seq!["r"@],
                ev_call(ev_member(ExprV::Ident("r"@), "toString"@), Seq::empty()),
            ),
        ],
    )
}

/// The expression under which the accessor reaches the field's value.
pub fn access(acc: FieldAccessor, f: &FieldDescriptorProto) -> (e: Expr)
    ensures
        e@ == spec_access(acc, f@),
{
    match acc {
        FieldAccessor::This => member(ident("this"), f.name()),
        FieldAccessor::Bare => ident(f.name()),
        FieldAccessor::Static => ident("r"),
        FieldAccessor::JsonKeyName => {
            let k = f.json_key_name();
            member_owned(ident("json"), k)
        },
        FieldAccessor::JsonName => member(ident("json"), f.name()),
    }
}

/// The field's value on the incoming JSON object, under its JSON key.
pub fn json_key_name_field_member(field: &FieldDescriptorProto) -> (e: Expr)
    ensures
        e@ == spec_access(FieldAccessor::JsonKeyName, field@),
{
    access(FieldAccessor::JsonKeyName, field)
}

/// The field's value on the incoming JSON object, under its declared name.
pub fn name_field_member(field: &FieldDescriptorProto) -> (e: Expr)
    ensures
        e@ == spec_access(FieldAccessor::JsonName, field@),
{
    access(FieldAccessor::JsonName, field)
}

/// The call that renders a value as text.
pub fn to_string_normalizer(x: Expr) -> (e: Expr)
    ensures
        e@ == spec_to_string_normalizer(x@),
{
    call0(member(x, "toString"))
}

/// The call that renders every element of a repeated value as text.
pub fn map_to_string_normalizer(x: Expr) -> (e: Expr)
    ensures
        e@ == spec_map_to_string_normalizer(x@),
{
    call1(member(x, "map"), arrow_short1("r", call0(member(ident("r"), "toString"))))
}

/// The shape test for a declared JSON shape: a disjunction of primitive
/// shapes for the unknown kind, number-or-string for the 64-bit kinds, an
/// array test, a null test, or a plain typeof test.
pub open spec fn spec_typeof_expr_for_type(
    f: FieldDescriptorProtoV,
    acc: FieldAccessor,
    typ: Seq<char>,
) -> ExprV {
    let a = spec_access(acc, f);
    if typ == "unknown"@ {
        ev_paren(
            ev_bin(
                BinOp::Or,
                ev_typeof(a, "number"@),
                ev_bin(
                    BinOp::Or,
                    ev_typeof(a, "string"@),
                    ev_bin(
                        BinOp::Or,
                        ev_typeof(a, "boolean"@),
                        ev_bin(
                            BinOp::Or,
                            ev_typeof(a, "object"@),
                            ev_bin(BinOp::EqEqEq, a, ExprV::Ident("null"@)),
                        ),
                    ),
                ),
            ),
        )
    } else if typ == "number|string"@ {
        ev_paren(ev_bin(BinOp::Or, ev_typeof(a, "number"@), ev_typeof(a, "string"@)))
    } else if typ == "array"@ {
        ev_call(ev_member(ExprV::Ident("Array"@), "isArray"@), seq![a])
    } else if typ == "null"@ {
        ev_bin(BinOp::EqEqEq, a, ExprV::Ident("null"@))
    } else {
        ev_typeof(a, typ)
    }
}

impl FieldDescriptorProto {
    /// The key under which the field appears in JSON.
    pub fn json_key_name(&self) -> (r: String)
        ensures
            r@ == spec_json_key_name(self@),
    {
        if self.has_json_name() {
            self.json_name().to_owned()
        } else {
            self.name().to_owned()
        }
    }

    /// The shape test for the declared JSON shape `typ`.
    pub fn typeof_expr_for_type(&self, acc: FieldAccessor, typ: &str) -> (e: Expr)
        ensures
            e@ == spec_typeof_expr_for_type(self@, acc, typ@),
    {
        proof {
            reveal_strlit("unknown");
            reveal_strlit("number|string");
            reveal_strlit("array");
            reveal_strlit("null");
            assert("unknown"@.len() == 7);
            assert("number|string"@.len() == 13);
            assert("array"@.len() == 5);
            assert("null"@.len() == 4);
            assert("unknown"@[0] == 'u');
            assert("number|string"@[0] == 'n');
            assert("array"@[0] == 'a');
            assert("null"@[0] == 'n');
            assert("number|string"@[1] == 'u');
            assert("null"@[1] == 'u');
            assert("number|string"@[2] == 'm');
            assert("null"@[2] == 'l');
        }
        if crate::strutil::str_eq(typ, "unknown") {
            paren(
                bin(
                    BinOp::Or,
                    self.typeof_unary(acc, "number"),
                    bin(
                        BinOp::Or,
                        self.typeof_unary(acc, "string"),
                        bin(
                            BinOp::Or,
                            self.typeof_unary(acc, "boolean"),
                            bin(
                                BinOp::Or,
                                self.typeof_unary(acc, "object"),
                                bin(BinOp::EqEqEq, access(acc, self), ident("null")),
                            ),
                        ),
                    ),
                ),
            )
        } else if crate::strutil::str_eq(typ, "number|string") {
            paren(
                bin(
                    BinOp::Or,
                    self.typeof_unary(acc, "number"),
                    self.typeof_unary(acc, "string"),
                ),
            )
        } else if crate::strutil::str_eq(typ, "array") {
            call1(member(ident("Array"), "isArray"), access(acc, self))
        } else if crate::strutil::str_eq(typ, "null") {
            bin(BinOp::EqEqEq, access(acc, self), ident("null"))
        } else {
            self.typeof_unary(acc, typ)
        }
    }

    /// The plain typeof test of the field's value against `typ`.
    fn typeof_unary(&self, acc: FieldAccessor, typ: &str) -> (e: Expr)
        ensures
            e@ == ev_typeof(spec_access(acc, self@), typ@),
    {
        typeof_check(access(acc, self), typ)
    }

    /// The shape test for the field's well-known wrapper representation.
    pub fn typeof_expr_for_well_known_type(&self, acc: FieldAccessor) -> (e: Expr)
        ensures
            e@ == spec_typeof_expr_for_type(self@, acc, spec_json_repr_wkt(self@.type_ref)),
    {
        let repr = self.json_repr_for_well_known_type();
        self.typeof_expr_for_type(acc, repr)
    }

    /// The test for the three non-finite sentinel strings.
    pub fn infinity_and_nan_check(&self, acc: FieldAccessor) -> (e: Expr)
        ensures
            e@ == spec_infinity_and_nan_check(self@, acc),
    {
        bin(
            BinOp::Or,
            bin(BinOp::EqEqEq, access(acc, self), str_lit("NaN")),
            bin(
                BinOp::Or,
                bin(BinOp::EqEqEq, access(acc, self), str_lit("Infinity")),
                bin(BinOp::EqEqEq, access(acc, self), str_lit("-Infinity")),
            ),
        )
    }

    /// The closed-range test of the field's value between two numeric bound
    /// texts.
    pub fn min_max_check(&self, acc: FieldAccessor, min_text: &str, max_text: &str) -> (e: Expr)
        ensures
            e@ == spec_min_max_check(self@, acc, min_text@, max_text@),
    {
        paren(
            bin(
                BinOp::And,
                bin(BinOp::GtEq, access(acc, self), Expr::NumText(min_text.to_owned())),
                bin(BinOp::LtEq, access(acc, self), Expr::NumText(max_text.to_owned())),
            ),
        )
    }

    /// The closed-range test of the field's value between two 64-bit bounds,
    /// kept lossless as big-integer literals.
    pub fn min_max_check_bigint(&self, acc: FieldAccessor, min: i128, max: i128) -> (e: Expr)
        ensures
            e@ == spec_min_max_check_bigint(self@, acc, min, max),
    {
        paren(
            bin(
                BinOp::And,
                bin(BinOp::GtEq, access(acc, self), Expr::BigIntLit(min)),
                bin(BinOp::LtEq, access(acc, self), Expr::BigIntLit(max)),
            ),
        )
    }
}

/// The test for the three non-finite sentinel strings.
pub open spec fn spec_infinity_and_nan_check(f: FieldDescriptorProtoV, acc: FieldAccessor) -> ExprV {
    let a = spec_access(acc, f);
    ev_bin(
        BinOp::Or,
        ev_bin(BinOp::EqEqEq, a, ExprV::StrLit("NaN"@)),
        ev_bin(
            BinOp::Or,
            ev_bin(BinOp::EqEqEq, a, ExprV::StrLit("Infinity"@)),
            ev_bin(BinOp::EqEqEq, a, ExprV::StrLit("-Infinity"@)),
        ),
    )
}

/// The closed-range test between two numeric bound texts.
pub open spec fn spec_min_max_check(
    f: FieldDescriptorProtoV,
    acc: FieldAccessor,
    min_text: Seq<char>,
    max_text: Seq<char>,
) -> ExprV {
    let a = spec_access(acc, f);
    ev_paren(
        ev_bin(
            BinOp::And,
            ev_bin(BinOp::GtEq, a, ExprV::NumText(min_text)),
            ev_bin(BinOp::LtEq, a, ExprV::NumText(max_text)),
        ),
    )
}

/// The closed-range test between two lossless 64-bit bounds.
pub open spec fn spec_min_max_check_bigint(
    f: FieldDescriptorProtoV,
    acc: FieldAccessor,
    min: i128,
    max: i128,
) -> ExprV {
    let a = spec_access(acc, f);
    ev_paren(
        ev_bin(
            BinOp::And,
            ev_bin(BinOp::GtEq, a, ExprV::BigIntLit(min)),
            ev_bin(BinOp::LtEq, a, ExprV::BigIntLit(max)),
        ),
    )
}

/// The proto3 default value of a field's kind, as an emitted literal: empty
/// text, false, the zero big integer, or the zero number; none for message
/// and byte kinds, whose presence is decided otherwise.
pub open spec fn spec_proto3_default(f: FieldDescriptorProtoV) -> Option<ExprV> {
    if spec_is_string(f) {
        Some(ExprV::StrLit(Seq::empty()))
    } else if spec_is_boolean(f) {
        Some(ExprV::BoolLit(false))
    } else if spec_is_bigint(f) {
        Some(ExprV::BigIntLit(0))
    } else if spec_is_number(f) || spec_is_enum(f) {
        Some(ExprV::NumLit(0))
    } else {
        None
    }
}

/// The not-null-and-not-undefined test; for the unknown JSON kind (whose
/// values include null) only the undefined test, in the JSON direction.
pub open spec fn spec_neq_null_or_undefined(
    f: FieldDescriptorProtoV,
    acc: FieldAccessor,
    json_mode: bool,
) -> ExprV {
    let a = spec_access(acc, f);
    let neq_undefined = ev_bin(BinOp::NotEqEq, a, ExprV::Ident("undefined"@));
    let neq_null = ev_bin(BinOp::NotEqEq, a, ExprV::Ident("null"@));
    if json_mode && spec_json_repr_wkt(f.type_ref) == "unknown"@ {
        neq_undefined
    } else {
        ev_bin(BinOp::And, neq_null, neq_undefined)
    }
}

/// The presence gate of a field: oneof members only need a defined value,
/// maps must also be non-empty by size, repeated fields (and byte fields in
/// the third syntax revision) non-empty by length.
pub open spec fn spec_presence_check(
    f: FieldDescriptorProtoV,
    c: ContextV,
    acc: FieldAccessor,
    json_mode: bool,
) -> ExprV {
    let a = spec_access(acc, f);
    let nn = spec_neq_null_or_undefined(f, acc, json_mode);
    if f.oneof_index is Some {
        nn
    } else if spec_is_map(f, c.map_type_reg) {
        ev_bin(
            BinOp::And,
            nn,
            ev_bin(BinOp::NotEqEq, ev_member(a, "size"@), ExprV::NumLit(0)),
        )
    } else if (spec_is_bytes(f) && c.syntax == Syntax::Proto3) || spec_is_repeated(f) {
        ev_bin(
            BinOp::And,
            nn,
            ev_bin(BinOp::NotEqEq, ev_member(a, "length"@), ExprV::NumLit(0)),
        )
    } else {
        nn
    }
}

/// The whole emission gate of a field: its presence check, and, for a
/// non-oneof field with a proto3 default under the third syntax revision, the
/// test that the value differs from that default. Oneof members are gated on
/// presence alone, even at their default value.
pub open spec fn spec_default_value_bin_expr(
    f: FieldDescriptorProtoV,
    c: ContextV,
    acc: FieldAccessor,
    json_mode: bool,
) -> ExprV {
    let presence = spec_presence_check(f, c, acc, json_mode);
    if spec_proto3_default(f) is Some && c.syntax == Syntax::Proto3 && f.oneof_index is None {
        ev_bin(
            BinOp::And,
            presence,
            ev_bin(BinOp::NotEqEq, spec_access(acc, f), spec_proto3_default(f)->Some_0),
        )
    } else {
        presence
    }
}

/// The exact closed range of a field's declared numeric width, as emitted
/// bound expressions; none for non-numeric kinds.
pub open spec fn spec_min_max_for(f: FieldDescriptorProtoV, acc: FieldAccessor) -> Option<ExprV> {
    match f.field_type {
        FieldType::Float => Some(spec_min_max_check(f, acc, "-3.4028235e38"@, "+3.4028235e38"@)),
        FieldType::Double => Some(
            spec_min_max_check(f, acc, "-1.7976931348623157e308"@, "+1.7976931348623157e308"@),
        ),
        FieldType::Uint32 | FieldType::Fixed32 => Some(
            spec_min_max_check(f, acc, "+0e0"@, "+4.294967295e9"@),
        ),
        FieldType::Uint64 | FieldType::Fixed64 => Some(
            spec_min_max_check_bigint(f, acc, 0i128, 18446744073709551615i128),
        ),
        FieldType::Int32 | FieldType::Sfixed32 | FieldType::Sint32 => Some(
            spec_min_max_check(f, acc, "-2.147483648e9"@, "+2.147483647e9"@),
        ),
        FieldType::Int64 | FieldType::Sfixed64 | FieldType::Sint64 => Some(
            spec_min_max_check_bigint(f, acc, -9223372036854775808i128, 9223372036854775807i128),
        ),
        _ => None,
    }
}

/// The numeric validity test: either a non-finite sentinel string or a value
/// in the declared range.
pub open spec fn spec_num_check(f: FieldDescriptorProtoV, acc: FieldAccessor) -> Option<ExprV> {
    match spec_min_max_for(f, acc) {
        Some(m) => Some(ev_bin(BinOp::Or, spec_infinity_and_nan_check(f, acc), m)),
        None => None,
    }
}

/// The shape test of a field's incoming JSON value, by its kind.
pub open spec fn spec_shape_check(f: FieldDescriptorProtoV, c: ContextV, acc: FieldAccessor) -> ExprV {
    let a = spec_access(acc, f);
    if spec_is_well_known_message(f) {
        spec_typeof_expr_for_type(f, acc, spec_json_repr_wkt(f.type_ref))
    } else if spec_is_string(f) || spec_is_bytes(f) {
        spec_typeof_expr_for_type(f, acc, "string"@)
    } else if spec_is_boolean(f) {
        spec_typeof_expr_for_type(f, acc, "boolean"@)
    } else if spec_is_message(f) {
        spec_typeof_expr_for_type(f, acc, "object"@)
    } else if spec_is_integer(f) {
        ev_bin(
            BinOp::And,
            ev_paren(
                ev_bin(
                    BinOp::Or,
                    spec_typeof_expr_for_type(f, acc, "number"@),
                    ev_bin(
                        BinOp::And,
                        spec_typeof_expr_for_type(f, acc, "string"@),
                        ev_bin(
                            BinOp::EqEqEq,
                            ev_call(ev_member(a, "indexOf"@), seq![ExprV::StrLit(" "@)]),
                            ExprV::NumLit(-1i64),
                        ),
                    ),
                ),
            ),
            ev_call(
                ev_member(ExprV::Ident("Number"@), "isInteger"@),
                seq![ev_unary(UnOp::Plus, a)],
            ),
        )
    } else if spec_is_number(f) {
        spec_typeof_expr_for_type(f, acc, "number|string"@)
    } else if spec_is_enum(f) {
        ev_bin(
            BinOp::Or,
            spec_typeof_expr_for_type(f, acc, "number"@),
            ev_bin(
                BinOp::And,
                spec_typeof_expr_for_type(f, acc, "string"@),
                ev_bin(BinOp::In, a, ExprV::Ident(spec_lazy_ref_ident(c, f.type_ref))),
            ),
        )
    } else {
        spec_typeof_expr_for_type(f, acc, "never!"@)
    }
}

/// The emitted validation of one incoming JSON value: when the value fails
/// its shape test, or a numeric value is neither a non-finite sentinel nor in
/// the declared range, the generated program throws the illegal-value error
/// naming the field's JSON key.
pub open spec fn spec_value_check_stmt(
    f: FieldDescriptorProtoV,
    c: ContextV,
    acc: FieldAccessor,
) -> StmtV {
    let shape = spec_shape_check(f, c, acc);
    let check = match spec_num_check(f, acc) {
        Some(n) => ev_bin(BinOp::And, shape, ev_paren(n)),
        None => shape,
    };
    sv_if(
        ev_unary(UnOp::Not, ev_paren(check)),
        StmtV::Throw(
            ev_new(
                ExprV::Ident("Error"@),
                seq![ExprV::StrLit("illegal value for "@ + spec_json_key_name(f))],
            ),
        ),
    )
}

/// The transform of a field's value into its JSON representation, by kind:
/// enums to their numeric value, bytes through the base64 helper, 64-bit
/// integers to decimal text, other numbers unchanged when finite and as text
/// otherwise, and sub-messages through their own JSON encoder.
pub open spec fn spec_into_to_json_expr(
    f: FieldDescriptorProtoV,
    c: ContextV,
    acc: FieldAccessor,
) -> ExprV {
    let a = spec_access(acc, f);
    if spec_is_enum(f) {
        ev_call(ev_member(a, "valueOf"@), Seq::empty())
    } else if spec_is_bytes(f) {
        ev_call(ev_member(ExprV::Ident("imp_0"@), "fromUint8Array"@), seq![a])
    } else if spec_is_bigint(f) {
        spec_to_string_normalizer(a)
    } else if spec_is_number(f) {
        ev_cond(
            ev_call(ev_member(ExprV::Ident("Number"@), "isFinite"@), seq![a]),
            a,
            spec_to_string_normalizer(a),
        )
    } else if spec_is_message(f) && !spec_is_map(f, c.map_type_reg) {
        ev_call(ev_member(a, "toJson"@), Seq::empty())
    } else {
        a
    }
}

/// The transform of an incoming JSON value back into a field value, by kind:
/// enums accept their number or a name looked up in the enum's table, bytes
/// come through the base64 helper, 64-bit integers through the big-integer
/// constructor, other numbers through numeric coercion, and sub-messages
/// through their own JSON decoder.
pub open spec fn spec_into_from_json_expr(
    f: FieldDescriptorProtoV,
    c: ContextV,
    acc: FieldAccessor,
) -> ExprV {
    let a = spec_access(acc, f);
    if spec_is_enum(f) {
        ev_cond(
            ev_typeof(a, "number"@),
            a,
            ev_computed(ExprV::Ident(spec_lazy_ref_ident(c, f.type_ref)), a),
        )
    } else if spec_is_bytes(f) {
        ev_call(ev_member(ExprV::Ident("imp_0"@), "toUint8Array"@), seq![a])
    } else if spec_is_bigint(f) {
        ev_call(ExprV::Ident("BigInt"@), seq![a])
    } else if spec_is_number(f) {
        ev_call(ExprV::Ident("Number"@), seq![a])
    } else if spec_is_message(f) && !spec_is_map(f, c.map_type_reg) {
        ev_call(
            ev_member(ExprV::Ident(spec_lazy_ref_ident(c, f.type_ref)), "fromJson"@),
            seq![a],
        )
    } else {
        a
    }
}

/// The transform of a map key read back from JSON text: booleans by
/// comparison with the true literal, all other kinds as for any value.
pub open spec fn spec_into_from_json_expr_for_map_key(
    f: FieldDescriptorProtoV,
    c: ContextV,
    acc: FieldAccessor,
) -> ExprV {
    if spec_is_boolean(f) {
        ev_bin(BinOp::EqEqEq, spec_access(acc, f), ExprV::StrLit("true"@))
    } else {
        spec_into_from_json_expr(f, c, acc)
    }
}

/// The transform of a map entry component into its text form for the
/// JSON map container: text stays itself, the key position is rendered as
/// text, and values go through the JSON value transform.
pub open spec fn spec_into_to_stringified_map_expr(f: FieldDescriptorProtoV, c: ContextV) -> ExprV {
    if spec_is_string(f) {
        ExprV::Ident(f.name)
    } else if f.name == "key"@ {
        spec_to_string_normalizer(ExprV::Ident(f.name))
    } else {
        spec_into_to_json_expr(f, c, FieldAccessor::Bare)
    }
}

impl FieldDescriptorProto {
    /// The proto3 default value of the field's kind, as an emitted literal.
    pub fn proto3_default(&self) -> (r: Option<Expr>)
        ensures
            match r {
                Some(e) => spec_proto3_default(self@) == Some(e@),
                None => spec_proto3_default(self@) is None,
            },
    {
        if self.is_string() {
            let e = str_lit("");
            proof {
                reveal_strlit("");
                assert(""@ =~= Seq::<char>::empty());
            }
            Some(e)
        } else if self.is_boolean() {
            Some(Expr::BoolLit(false))
        } else if self.is_bigint() {
            Some(Expr::BigIntLit(0))
        } else if self.is_number() || self.is_enum() {
            Some(Expr::NumLit(0))
        } else {
            None
        }
    }

    /// The emission gate shared by both directions.
    fn default_value_bin_expr_inner(&self, ctx: &Context, acc: FieldAccessor, json_mode: bool) -> (e:
        Expr)
        ensures
            e@ == spec_default_value_bin_expr(self@, ctx@, acc, json_mode),
    {
        let neq_undefined = bin(BinOp::NotEqEq, access(acc, self), ident("undefined"));
        let nn: Expr = if json_mode && crate::strutil::str_eq(
            self.json_repr_for_well_known_type(),
            "unknown",
        ) {
            neq_undefined
        } else {
            let neq_null = bin(BinOp::NotEqEq, access(acc, self), ident("null"));
            bin(BinOp::And, neq_null, neq_undefined)
        };
        let presence: Expr = if self.has_oneof_index() {
            nn
        } else if self.is_map(ctx) {
            bin(
                BinOp::And,
                nn,
                bin(BinOp::NotEqEq, member(access(acc, self), "size"), Expr::NumLit(0)),
            )
        } else if (self.is_bytes() && matches!(ctx.syntax(), Syntax::Proto3)) || self.is_repeated() {
            bin(
                BinOp::And,
                nn,
                bin(BinOp::NotEqEq, member(access(acc, self), "length"), Expr::NumLit(0)),
            )
        } else {
            nn
        };
        let default_expr = self.proto3_default();
        if default_expr.is_some() && matches!(ctx.syntax(), Syntax::Proto3)
            && !self.has_oneof_index() {
            let d = match default_expr {
                Some(d) => d,
                None => {
                    proof {
                        assert(false);
                    }
                    Expr::NumLit(0)
                },
            };
            bin(BinOp::And, presence, bin(BinOp::NotEqEq, access(acc, self), d))
        } else {
            presence
        }
    }

    /// The emission gate of the field in the JSON direction.
    pub fn default_value_bin_expr_for_json(&self, ctx: &Context, acc: FieldAccessor) -> (e: Expr)
        ensures
            e@ == spec_default_value_bin_expr(self@, ctx@, acc, true),
    {
        self.default_value_bin_expr_inner(ctx, acc, true)
    }

    /// The emission gate of the field in the binary direction.
    pub fn default_value_bin_expr(&self, ctx: &Context, acc: FieldAccessor) -> (e: Expr)
        ensures
            e@ == spec_default_value_bin_expr(self@, ctx@, acc, false),
    {
        self.default_value_bin_expr_inner(ctx, acc, false)
    }

    /// The emitted validation of the field's incoming JSON value.
    pub fn value_check_stmt(&self, ctx: &mut Context, acc: FieldAccessor) -> (s: Stmt)
        requires
            spec_is_enum(self@) ==> lazy_pre(old(ctx)@, self@.type_ref),
        ensures
            s@ == spec_value_check_stmt(self@, old(ctx)@, acc),
            if spec_is_enum(self@) {
                lazy_ref_post(old(ctx)@, final(ctx)@, self@.type_ref)
            } else {
                final(ctx)@ == old(ctx)@
            },
    {
        let min_max_check: Option<Expr> = match self.type_() {
            FieldType::Float => Some(self.min_max_check(acc, "-3.4028235e38", "+3.4028235e38")),
            FieldType::Double => Some(
                self.min_max_check(acc, "-1.7976931348623157e308", "+1.7976931348623157e308"),
            ),
            FieldType::Uint32 | FieldType::Fixed32 => Some(
                self.min_max_check(acc, "+0e0", "+4.294967295e9"),
            ),
            FieldType::Uint64 | FieldType::Fixed64 => Some(
                self.min_max_check_bigint(acc, 0, 18446744073709551615),
            ),
            FieldType::Int32 | FieldType::Sfixed32 | FieldType::Sint32 => Some(
                self.min_max_check(acc, "-2.147483648e9", "+2.147483647e9"),
            ),
            FieldType::Int64 | FieldType::Sfixed64 | FieldType::Sint64 => Some(
                self.min_max_check_bigint(acc, -9223372036854775808, 9223372036854775807),
            ),
            _ => None,
        };
        let num_check: Option<Expr> = match min_max_check {
            Some(m) => Some(bin(BinOp::Or, self.infinity_and_nan_check(acc), m)),
            None => None,
        };
        let shape_check: Expr = if self.is_well_known_message() {
            self.typeof_expr_for_well_known_type(acc)
        } else if self.is_string() || self.is_bytes() {
            self.typeof_expr_for_type(acc, "string")
        } else if self.is_boolean() {
            self.typeof_expr_for_type(acc, "boolean")
        } else if self.is_message() {
            self.typeof_expr_for_type(acc, "object")
        } else if self.is_integer() {
            bin(
                BinOp::And,
                paren(
                    bin(
                        BinOp::Or,
                        self.typeof_expr_for_type(acc, "number"),
                        bin(
                            BinOp::And,
                            self.typeof_expr_for_type(acc, "string"),
                            bin(
                                BinOp::EqEqEq,
                                call1(member(access(acc, self), "indexOf"), str_lit(" ")),
                                Expr::NumLit(-1),
                            ),
                        ),
                    ),
                ),
                call1(
                    member(ident("Number"), "isInteger"),
                    unary(UnOp::Plus, access(acc, self)),
                ),
            )
        } else if self.is_number() {
            self.typeof_expr_for_type(acc, "number|string")
        } else if self.is_enum() {
            let lazy = ctx.lazy_type_ref(self.type_ref());
            bin(
                BinOp::Or,
                self.typeof_expr_for_type(acc, "number"),
                bin(
                    BinOp::And,
                    self.typeof_expr_for_type(acc, "string"),
                    bin(BinOp::In, access(acc, self), ident_owned(lazy)),
                ),
            )
        } else {
            self.typeof_expr_for_type(acc, "never!")
        };
        let check: Expr = match num_check {
            Some(n) => bin(BinOp::And, shape_check, paren(n)),
            None => shape_check,
        };
        let msg = str_concat("illegal value for ", self.json_key_name().as_str());
        if_stmt(
            unary(UnOp::Not, paren(check)),
            Stmt::Throw(new1(ident("Error"), str_lit_owned(msg))),
        )
    }

    /// The transform of the field's value into its JSON representation.
    pub fn into_to_json_expr(&self, ctx: &Context, acc: FieldAccessor) -> (e: Expr)
        ensures
            e@ == spec_into_to_json_expr(self@, ctx@, acc),
    {
        if self.is_enum() {
            call0(member(access(acc, self), "valueOf"))
        } else if self.is_bytes() {
            let base64 = ctx.get_import(ctx.options().base64_package.as_str());
            call1(member(ident_owned(base64), "fromUint8Array"), access(acc, self))
        } else if self.is_bigint() {
            to_string_normalizer(access(acc, self))
        } else if self.is_number() {
            cond(
                call1(member(ident("Number"), "isFinite"), access(acc, self)),
                access(acc, self),
                to_string_normalizer(access(acc, self)),
            )
        } else if self.is_message() && !self.is_map(ctx) {
            call0(member(access(acc, self), "toJson"))
        } else {
            access(acc, self)
        }
    }

    /// The transform of the incoming JSON value back into the field's value.
    pub fn into_from_json_expr(&self, ctx: &mut Context, acc: FieldAccessor) -> (e: Expr)
        requires
            spec_is_enum(self@) || (spec_is_message(self@) && !spec_is_map(
                self@,
                old(ctx)@.map_type_reg,
            )) ==> lazy_pre(old(ctx)@, self@.type_ref),
        ensures
            e@ == spec_into_from_json_expr(self@, old(ctx)@, acc),
            if spec_is_enum(self@) || (spec_is_message(self@) && !spec_is_map(
                self@,
                old(ctx)@.map_type_reg,
            )) {
                lazy_ref_post(old(ctx)@, final(ctx)@, self@.type_ref)
            } else {
                final(ctx)@ == old(ctx)@
            },
    {
        if self.is_enum() {
            let lazy = ctx.lazy_type_ref(self.type_ref());
            cond(
                typeof_check(access(acc, self), "number"),
                access(acc, self),
                computed_member(ident_owned(lazy), access(acc, self)),
            )
        } else if self.is_bytes() {
            let base64 = ctx.get_import(ctx.options().base64_package.as_str());
            call1(member(ident_owned(base64), "toUint8Array"), access(acc, self))
        } else if self.is_bigint() {
            call1(ident("BigInt"), access(acc, self))
        } else if self.is_number() {
            call1(ident("Number"), access(acc, self))
        } else if self.is_message() && !self.is_map(ctx) {
            let lazy = ctx.lazy_type_ref(self.type_ref());
            call1(member(ident_owned(lazy), "fromJson"), access(acc, self))
        } else {
            access(acc, self)
        }
    }

    /// The transform of a map key read back from JSON text.
    pub fn into_from_json_expr_for_map_key(&self, ctx: &mut Context, acc: FieldAccessor) -> (e:
        Expr)
        requires
            !spec_is_boolean(self@) && (spec_is_enum(self@) || (spec_is_message(self@)
                && !spec_is_map(self@, old(ctx)@.map_type_reg))) ==> lazy_pre(
                old(ctx)@,
                self@.type_ref,
            ),
        ensures
            e@ == spec_into_from_json_expr_for_map_key(self@, old(ctx)@, acc),
            if !spec_is_boolean(self@) && (spec_is_enum(self@) || (spec_is_message(self@)
                && !spec_is_map(self@, old(ctx)@.map_type_reg))) {
                lazy_ref_post(old(ctx)@, final(ctx)@, self@.type_ref)
            } else {
                final(ctx)@ == old(ctx)@
            },
    {
        if self.is_boolean() {
            bin(BinOp::EqEqEq, access(acc, self), str_lit("true"))
        } else {
            self.into_from_json_expr(ctx, acc)
        }
    }

    /// The transform of a map entry component into its text form.
    pub fn into_to_stringified_map_expr(&self, ctx: &Context) -> (e: Expr)
        ensures
            e@ == spec_into_to_stringified_map_expr(self@, ctx@),
    {
        if self.is_string() {
            ident(self.name())
        } else if crate::strutil::str_eq(self.name(), "key") {
            to_string_normalizer(ident(self.name()))
        } else {
            self.into_to_json_expr(ctx, FieldAccessor::Bare)
        }
    }
}


/// The container type name of a map entry component, from the fixed table.
pub open spec fn spec_map_field_descriptor_str(f: FieldDescriptorProtoV) -> Seq<char> {
    if spec_is_string(f) {
        "string"@
    } else if spec_is_bigint(f) {
        "bigint"@
    } else if spec_is_number(f) {
        "number"@
    } else if spec_is_boolean(f) {
        "boolean"@
    } else if spec_is_bytes(f) {
        "Uint8Array"@
    } else {
        "object"@
    }
}

/// The type annotation of a field's local binding in the decode routine.
pub open spec fn spec_field_descriptor_str(f: FieldDescriptorProtoV, c: ContextV) -> Seq<char> {
    let base: Seq<char> = if spec_is_string(f) {
        ": string"@
    } else if spec_is_bigint(f) {
        ": bigint"@
    } else if spec_is_number(f) || spec_is_enum(f) {
        ": number"@
    } else if spec_is_boolean(f) {
        ": boolean"@
    } else if spec_is_bytes(f) {
        ": string"@
    } else if spec_is_map(f, c.map_type_reg) {
        let d = lookup(c.map_type_reg, f.type_ref)->Some_0;
        ": Map<"@ + spec_map_field_descriptor_str(d.field[0]) + ","@
            + spec_map_field_descriptor_str(d.field[1]) + ">"@
    } else {
        ": object"@
    };
    if spec_is_repeated(f) && !spec_is_map(f, c.map_type_reg) {
        base + "[]"@
    } else {
        base
    }
}

/// Every map field of the message resolves to a registered entry message with
/// its key and value fields.
pub open spec fn map_fields_registered(m: DescriptorProtoV, c: ContextV) -> bool {
    forall|i: int|
        0 <= i < m.field.len() && spec_is_map(#[trigger] m.field[i], c.map_type_reg) ==> lookup(
            c.map_type_reg,
            m.field[i].type_ref,
        )->Some_0.field.len() >= 2
}

/// Every enum field and non-map message field of the message can be resolved.
pub open spec fn ref_fields_resolvable(m: DescriptorProtoV, c: ContextV) -> bool {
    forall|i: int|
        0 <= i < m.field.len() && (spec_is_enum(#[trigger] m.field[i]) || (spec_is_message(
            m.field[i],
        ) && !spec_is_map(m.field[i], c.map_type_reg))) ==> lazy_pre(c, m.field[i].type_ref)
}

/// The accessor the encode routine uses for a field's value transform.
pub open spec fn spec_to_json_accessor(f: FieldDescriptorProtoV, c: ContextV) -> FieldAccessor {
    if spec_is_repeated(f) && !spec_is_map(f, c.map_type_reg) {
        FieldAccessor::Static
    } else {
        FieldAccessor::This
    }
}

/// The encode statement of one field: gated on the field's emission gate, a
/// map is re-encoded entry by entry into a fresh JSON map container, a
/// repeated field element by element, and any other field is assigned its
/// transformed value under its JSON key.
pub open spec fn spec_to_json_field_stmt(f: FieldDescriptorProtoV, c: ContextV) -> StmtV {
    let gate = spec_default_value_bin_expr(f, c, FieldAccessor::This, false);
    if spec_is_map(f, c.map_type_reg) {
        let d = lookup(c.map_type_reg, f.type_ref)->Some_0;
        let kt = spec_map_field_descriptor_str(d.field[0]);
        let vt = spec_map_field_descriptor_str(d.field[1]);
        let init = ExprV::Ident(
            "json[\""@ + f.name + "\"] = new Map<"@ + kt + ","@ + vt + ">()"@,
        );
        let each = ev_call(
            ev_member(ev_member(ExprV::Ident("this"@), f.name), "forEach"@),
            seq![
                ExprV::Arrow(
                    seq!["value"@, "key"@],
                    seq![
                        StmtV::ExprStmt(
                            ev_call(
                                ev_member(
                                    ev_computed(
                                        ExprV::Ident("json"@),
                                        ExprV::Ident("\""@ + f.name + "\""@),
                                    ),
                                    "set"@,
                                ),
                                seq![
                                    ev_non_null(ExprV::Ident("key"@)),
                                    ev_non_null(ExprV::Ident("value"@)),
                                ],
                            ),
                        ),
                    ],
                ),
            ],
        );
        sv_if(gate, StmtV::Block(seq![StmtV::ExprStmt(init), StmtV::ExprStmt(each)]))
    } else {
        let base = spec_into_to_json_expr(f, c, spec_to_json_accessor(f, c));
        let value = if spec_is_repeated(f) {
            ev_call(
                ev_member(ev_member(ExprV::Ident("this"@), f.name), "map"@),
                seq![ev_arrow_short(seq!["r"@], base)],
            )
        } else {
            base
        };
        sv_if(
            gate,
            StmtV::ExprStmt(
                ev_assign(
                    ev_computed(
                        ExprV::Ident("json"@),
                        ExprV::Ident("\""@ + spec_json_key_name(f) + "\""@),
                    ),
                    value,
                ),
            ),
        )
    }
}

/// The encode statements of the fields in positions `start` to `end`.
pub open spec fn spec_to_json_stmts(
    m: DescriptorProtoV,
    c: ContextV,
    start: int,
    end: int,
) -> Seq<StmtV> {
    Seq::new((end - start) as nat, |k: int| spec_to_json_field_stmt(m.field[start + k], c))
}

/// How many helper routines a message's fields fill, at thirty fields each.
pub open spec fn spec_chunk_count(n: int) -> int {
    (n + 29) / 30
}

/// Where the chunk starting at position `30 * i` ends.
pub open spec fn spec_chunk_end(n: int, i: int) -> int {
    if 30 * i + 30 <= n {
        30 * i + 30
    } else {
        n
    }
}

/// The chunk helper routine `i` of the encode direction.
pub open spec fn spec_to_json_chunk_method(m: DescriptorProtoV, c: ContextV, i: int) -> MethodDefV {
    MethodDefV {
        name: "toJson_"@ + spec_dec(i),
        is_static: false,
        params: seq!["json: object"@],
        ret_type: None,
        body: spec_to_json_stmts(m, c, 30 * i, spec_chunk_end(m.field.len() as int, i)),
    }
}

/// The call of chunk helper `i` from the encode entry point.
pub open spec fn spec_to_json_call_stmt(i: int) -> StmtV {
    StmtV::ExprStmt(
        ev_call(
            ev_member(ExprV::Ident("this"@), "toJson_"@ + spec_dec(i)),
            seq![ExprV::Ident("json"@)],
        ),
    )
}

/// The public encode entry point: it creates the JSON object, invokes every
/// chunk helper in declaration order, and returns the object.
pub open spec fn spec_to_json_entry_method(m: DescriptorProtoV, c: ContextV) -> MethodDefV {
    let n = m.field.len() as int;
    MethodDefV {
        name: "toJson"@,
        is_static: false,
        params: Seq::empty(),
        ret_type: Some("Object"@),
        body: seq![
            StmtV::ConstDecl(
                "json: object"@,
                ev_new(ExprV::Ident("Object"@), Seq::empty()),
            ),
        ] + Seq::new(spec_chunk_count(n) as nat, |i: int| spec_to_json_call_stmt(i)) + seq![
            StmtV::Ret(ExprV::Ident("json"@)),
        ],
    }
}

/// The accessor the decode routine uses for a field's value transform.
pub open spec fn spec_from_json_accessor(f: FieldDescriptorProtoV, c: ContextV) -> FieldAccessor {
    if spec_is_repeated(f) && !spec_is_map(f, c.map_type_reg) {
        FieldAccessor::Static
    } else {
        FieldAccessor::Bare
    }
}

/// The decode value of one field: enums are bound from the local binding,
/// maps are re-inserted entry by entry, repeated fields element by element.
pub open spec fn spec_from_json_value_expr(f: FieldDescriptorProtoV, c: ContextV) -> ExprV {
    let acc = spec_from_json_accessor(f, c);
    let base = spec_into_from_json_expr(f, c, acc);
    let scalar = if spec_is_enum(f) {
        if spec_is_repeated(f) {
            ExprV::Ident("r"@)
        } else {
            ExprV::Ident(f.name)
        }
    } else {
        base
    };
    if spec_is_map(f, c.map_type_reg) {
        ev_call(
            ev_member(ExprV::Ident(f.name), "forEach"@),
            seq![
                ExprV::Arrow(
                    seq!["value"@, "key"@],
                    seq![
                        StmtV::ExprStmt(
                            ev_call(
                                ev_member(
                                    ev_member(ExprV::Ident("jsonMessage"@), f.name + "?"@),
                                    "set"@,
                                ),
                                seq![
                                    ev_non_null(ExprV::Ident("key"@)),
                                    ev_non_null(ExprV::Ident("value"@)),
                                ],
                            ),
                        ),
                    ],
                ),
            ],
        )
    } else if spec_is_repeated(f) {
        ev_call(
            ev_member(ExprV::Ident(f.name), "map"@),
            seq![ExprV::Arrow(seq!["r"@], seq![StmtV::Ret(scalar)])],
        )
    } else {
        scalar
    }
}

/// The statements inside one field's decode gate: the value validation for
/// non-repeated fields, then, for oneof members, the duplicate-group check
/// that throws the duplicate-oneof error and the recording of the group, and
/// finally the assignment (or, for maps, the entry-by-entry insertion).
pub open spec fn spec_from_json_inner_stmts(f: FieldDescriptorProtoV, c: ContextV) -> Seq<StmtV> {
    let checks: Seq<StmtV> = if !spec_is_repeated(f) {
        seq![spec_value_check_stmt(f, c, FieldAccessor::Bare)]
    } else {
        Seq::empty()
    };
    let oneof: Seq<StmtV> = if f.oneof_index is Some {
        seq![
            sv_if(
                ev_call(
                    ev_member(ExprV::Ident("oneof"@), "has"@),
                    seq![ExprV::NumLit(f.oneof_index->Some_0 as i64)],
                ),
                StmtV::Throw(
                    ev_new(
                        ExprV::Ident("Error"@),
                        seq![
                            ExprV::StrLit("duplicate oneof field "@ + spec_json_key_name(f)),
                        ],
                    ),
                ),
            ),
            StmtV::ExprStmt(
                ev_call(
                    ev_member(ExprV::Ident("oneof"@), "add"@),
                    seq![ExprV::NumLit(f.oneof_index->Some_0 as i64)],
                ),
            ),
        ]
    } else {
        Seq::empty()
    };
    let assignment: Seq<StmtV> = if spec_is_map(f, c.map_type_reg) {
        seq![StmtV::ExprStmt(spec_from_json_value_expr(f, c))]
    } else {
        seq![
            StmtV::ExprStmt(
                ev_assign(
                    ev_member(ExprV::Ident("jsonMessage"@), f.name),
                    spec_from_json_value_expr(f, c),
                ),
            ),
        ]
    };
    checks + oneof + assignment
}

/// The binding of one field's raw JSON value: the explicit JSON key when that
/// member is defined, the declared name otherwise.
pub open spec fn spec_from_json_field_decl(f: FieldDescriptorProtoV, c: ContextV) -> StmtV {
    StmtV::ConstDecl(
        f.name + spec_field_descriptor_str(f, c),
        ev_cond(
            ExprV::Ident("json[\""@ + spec_json_key_name(f) + "\"] !== undefined"@),
            ExprV::Ident("json[\""@ + spec_json_key_name(f) + "\"]"@),
            ExprV::Ident("json[\""@ + f.name + "\"]"@),
        ),
    )
}

/// The guarded decode of one field.
pub open spec fn spec_from_json_field_guard(f: FieldDescriptorProtoV, c: ContextV) -> StmtV {
    sv_if(
        spec_default_value_bin_expr(f, c, FieldAccessor::Bare, true),
        StmtV::Block(spec_from_json_inner_stmts(f, c)),
    )
}

/// The decode statements of the fields in positions `start` to `end`: for
/// each field its binding, then its guarded decode.
pub open spec fn spec_from_json_stmts(
    m: DescriptorProtoV,
    c: ContextV,
    start: int,
    end: int,
) -> Seq<StmtV> {
    Seq::new(
        (2 * (end - start)) as nat,
        |k: int|
            if k % 2 == 0 {
                spec_from_json_field_decl(m.field[start + k / 2], c)
            } else {
                spec_from_json_field_guard(m.field[start + k / 2], c)
            },
    )
}

/// The chunk helper routine `i` of the decode direction.
pub open spec fn spec_from_json_chunk_method(m: DescriptorProtoV, c: ContextV, i: int) -> MethodDefV {
    MethodDefV {
        name: "fromJson_"@ + spec_dec(i),
        is_static: true,
        params: seq!["json: object"@, "jsonMessage: "@ + spec_normalize_name(c, m.name)],
        ret_type: None,
        body: spec_from_json_stmts(m, c, 30 * i, spec_chunk_end(m.field.len() as int, i)),
    }
}

/// Whether any field of the message belongs to a oneof group.
pub open spec fn spec_has_oneof(m: DescriptorProtoV) -> bool {
    exists|i: int| 0 <= i < m.field.len() && (#[trigger] m.field[i].oneof_index) is Some
}

/// The call of decode chunk helper `i` from the decode entry point.
pub open spec fn spec_from_json_call_stmt(m: DescriptorProtoV, c: ContextV, i: int) -> StmtV {
    StmtV::ExprStmt(
        ExprV::Ident(
            spec_normalize_name(c, m.name) + ".fromJson_"@ + spec_dec(i) + "(json, jsonMessage)"@,
        ),
    )
}

/// The public decode entry point: it creates the message, creates the oneof
/// bookkeeping set when any field is a oneof member, invokes every chunk
/// helper in declaration order, and returns the message.
pub open spec fn spec_from_json_entry_method(m: DescriptorProtoV, c: ContextV) -> MethodDefV {
    let n = m.field.len() as int;
    let head: Seq<StmtV> = seq![
        StmtV::ConstDecl(
            "jsonMessage"@,
            ev_new(ExprV::Ident(spec_normalize_name(c, m.name)), Seq::empty()),
        ),
    ];
    let oneof_decl: Seq<StmtV> = if spec_has_oneof(m) {
        seq![StmtV::ConstDecl("oneof"@, ev_new(ExprV::Ident("Set"@), Seq::empty()))]
    } else {
        Seq::empty()
    };
    MethodDefV {
        name: "fromJson"@,
        is_static: true,
        params: seq!["json: object"@],
        ret_type: Some(spec_normalize_name(c, m.name)),
        body: head + oneof_decl + Seq::new(
            spec_chunk_count(n) as nat,
            |i: int| spec_from_json_call_stmt(m, c, i),
        ) + seq![StmtV::Ret(ExprV::Ident("jsonMessage"@))],
    }
}


impl DescriptorProto {
    /// The container type name of a map entry component.
    pub fn get_map_field_descriptor_str(&self, field: &FieldDescriptorProto) -> (r: &str)
        ensures
            r@ == spec_map_field_descriptor_str(field@),
    {
        if field.is_string() {
            "string"
        } else if field.is_bigint() {
            "bigint"
        } else if field.is_number() {
            "number"
        } else if field.is_boolean() {
            "boolean"
        } else if field.is_bytes() {
            "Uint8Array"
        } else {
            "object"
        }
    }

    /// The type annotation of a field's local binding in the decode routine.
    pub fn get_field_descriptor_str(&self, ctx: &Context, field: &FieldDescriptorProto) -> (r:
        String)
        requires
            spec_is_map(field@, ctx@.map_type_reg) ==> lookup(
                ctx@.map_type_reg,
                field@.type_ref,
            )->Some_0.field.len() >= 2,
        ensures
            r@ == spec_field_descriptor_str(field@, ctx@),
    {
        let base: String = if field.is_string() {
            ": string".to_owned()
        } else if field.is_bigint() {
            ": bigint".to_owned()
        } else if field.is_number() || field.is_enum() {
            ": number".to_owned()
        } else if field.is_boolean() {
            ": boolean".to_owned()
        } else if field.is_bytes() {
            ": string".to_owned()
        } else if field.is_map(ctx) {
            let descriptor = match ctx.get_map_type(field.type_ref()) {
                Some(d) => d,
                None => {
                    proof {
                        assert(false);
                    }
                    DescriptorProto { name: String::new(), field: Vec::new(), options_map_entry: false }
                },
            };
            let key_type = self.get_map_field_descriptor_str(&descriptor.field[0]);
            let mut out = ": Map<".to_owned();
            out.append(key_type);
            out.append(",");
            let value_type = self.get_map_field_descriptor_str(&descriptor.field[1]);
            out.append(value_type);
            out.append(">");
            out
        } else {
            ": object".to_owned()
        };
        if field.is_repeated() && !field.is_map(ctx) {
            let mut out = base;
            out.append("[]");
            out
        } else {
            base
        }
    }

    /// The encode statement of one field.
    fn to_json_field_stmt(&self, ctx: &Context, field: &FieldDescriptorProto) -> (s: Stmt)
        requires
            spec_is_map(field@, ctx@.map_type_reg) ==> lookup(
                ctx@.map_type_reg,
                field@.type_ref,
            )->Some_0.field.len() >= 2,
        ensures
            s@ == spec_to_json_field_stmt(field@, ctx@),
    {
        let gate = field.default_value_bin_expr(ctx, FieldAccessor::This);
        if field.is_map(ctx) {
            let descriptor = match ctx.get_map_type(field.type_ref()) {
                Some(d) => d,
                None => {
                    proof {
                        assert(false);
                    }
                    DescriptorProto { name: String::new(), field: Vec::new(), options_map_entry: false }
                },
            };
            let key_type = self.get_map_field_descriptor_str(&descriptor.field[0]);
            let mut init_text = "json[\"".to_owned();
            init_text.append(field.name());
            init_text.append("\"] = new Map<");
            init_text.append(key_type);
            init_text.append(",");
            let value_type = self.get_map_field_descriptor_str(&descriptor.field[1]);
            init_text.append(value_type);
            init_text.append(">()");
            let mut key_text = "\"".to_owned();
            key_text.append(field.name());
            key_text.append("\"");
            let each = call1(
                member(member(ident("this"), field.name()), "forEach"),
                arrow2(
                    "value",
                    "key",
                    stmts1(
                        Stmt::ExprStmt(
                            call2(
                                member(
                                    computed_member(ident("json"), ident_owned(key_text)),
                                    "set",
                                ),
                                non_null(ident("key")),
                                non_null(ident("value")),
                            ),
                        ),
                    ),
                ),
            );
            let mut body: Vec<Stmt> = Vec::new();
            body.push(Stmt::ExprStmt(ident_owned(init_text)));
            body.push(Stmt::ExprStmt(each));
            proof {
                crate::ast::lemma_view_stmts_pointwise(body@);
                assert(view_stmts(body@) =~= seq![view_stmt(body@[0]), view_stmt(body@[1])]);
            }
            if_stmt(gate, Stmt::Block(body))
        } else {
            let acc = if field.is_repeated() {
                FieldAccessor::Static
            } else {
                FieldAccessor::This
            };
            let base = field.into_to_json_expr(ctx, acc);
            let value = if field.is_repeated() {
                call1(
                    member(member(ident("this"), field.name()), "map"),
                    arrow_short1("r", base),
                )
            } else {
                base
            };
            let mut key_text = "\"".to_owned();
            key_text.append(field.json_key_name().as_str());
            key_text.append("\"");
            if_stmt(
                gate,
                Stmt::ExprStmt(
                    assign(computed_member(ident("json"), ident_owned(key_text)), value),
                ),
            )
        }
    }

    /// One encode chunk helper, covering the fields in positions `start` to
    /// `end`.
    pub fn print_to_json_inner(&self, ctx: &Context, index: usize, start: usize, end: usize) -> (r:
        ClassMember)
        requires
            start <= end <= self@.field.len(),
            map_fields_registered(self@, ctx@),
        ensures
            r@ == ClassMemberV::Method(
                MethodDefV {
                    name: "toJson_"@ + spec_dec(index as int),
                    is_static: false,
                    params: seq!["json: object"@],
                    ret_type: None,
                    body: spec_to_json_stmts(self@, ctx@, start as int, end as int),
                },
            ),
    {
        let mut statements: Vec<Stmt> = Vec::new();
        let mut i: usize = start;
        while i < end
            invariant
                start <= i <= end,
                end <= self@.field.len(),
                map_fields_registered(self@, ctx@),
                view_stmts(statements@) == spec_to_json_stmts(self@, ctx@, start as int, i as int),
            decreases end - i,
        {
            let ghost before = statements@;
            let field = &self.field[i];
            proof {
                assert(self@.field[i as int] == field@);
            }
            let st = self.to_json_field_stmt(ctx, field);
            statements.push(st);
            proof {
                assert(statements@.drop_last() =~= before);
                assert(view_stmts(statements@) =~= view_stmts(before).push(
                    view_stmt(statements@.last()),
                ));
                assert(view_stmts(statements@) =~= spec_to_json_stmts(
                    self@,
                    ctx@,
                    start as int,
                    i + 1 as int,
                ));
            }
            i = i + 1;
        }
        let mut name = "toJson_".to_owned();
        let dec = crate::strutil::usize_to_dec(index);
        name.append(dec.as_str());
        let mut params: Vec<String> = Vec::new();
        params.push("json: object".to_owned());
        proof {
            assert(view_strings(params@) =~= seq!["json: object"@]);
        }
        ClassMember::Method(
            MethodDef { name, is_static: false, params, ret_type: None, body: statements },
        )
    }

    /// The encode members of the message: one helper per thirty fields, then
    /// the public entry point that creates the JSON object, invokes every
    /// helper in declaration order and returns the object.
    pub fn print_to_json(&self, ctx: &Context) -> (r: Vec<ClassMember>)
        requires
            map_fields_registered(self@, ctx@),
        ensures
            ({
                let n = self@.field.len() as int;
                let count = spec_chunk_count(n);
                &&& r.deep_view().len() == count + 1
                &&& forall|i: int|
                    0 <= i < count ==> r.deep_view()[i] == ClassMemberV::Method(
                        spec_to_json_chunk_method(self@, ctx@, i),
                    )
                &&& r.deep_view()[count] == ClassMemberV::Method(
                    spec_to_json_entry_method(self@, ctx@),
                )
            }),
    {
        let ghost n = self@.field.len() as int;
        let mut statements: Vec<Stmt> = Vec::new();
        statements.push(Stmt::ConstDecl("json: object".to_owned(), new0(ident("Object"))));
        proof {
            crate::ast::lemma_view_stmts_pointwise(statements@);
            assert(view_stmts(statements@) =~= seq![
                StmtV::ConstDecl("json: object"@, ev_new(ExprV::Ident("Object"@), Seq::empty())),
            ] + Seq::new(0nat, |i: int| spec_to_json_call_stmt(i)));
        }
        let mut class_member_vec: Vec<ClassMember> = Vec::new();
        let len = self.field.len();
        let mut start: usize = 0;
        let mut ci: usize = 0;
        while start < len
            invariant
                len == self@.field.len(),
                n == len as int,
                map_fields_registered(self@, ctx@),
                start <= len,
                30 * ci <= n + 29,
                start < len ==> start == 30 * ci,
                start >= len ==> n <= 30 * ci,
                class_member_vec.deep_view().len() == ci as int,
                forall|i: int|
                    0 <= i < ci as int ==> class_member_vec.deep_view()[i] == ClassMemberV::Method(
                        spec_to_json_chunk_method(self@, ctx@, i),
                    ),
                view_stmts(statements@) == seq![
                    StmtV::ConstDecl(
                        "json: object"@,
                        ev_new(ExprV::Ident("Object"@), Seq::empty()),
                    ),
                ] + Seq::new(ci as nat, |i: int| spec_to_json_call_stmt(i)),
            decreases len - start,
        {
            let end: usize = if len - start > 30 {
                start + 30
            } else {
                len
            };
            proof {
                assert(end as int == spec_chunk_end(n, ci as int));
            }
            let ghost members_before = class_member_vec.deep_view();
            let member_item = self.print_to_json_inner(ctx, ci, start, end);
            class_member_vec.push(member_item);
            let mut helper_name = "toJson_".to_owned();
            let dec = crate::strutil::usize_to_dec(ci);
            helper_name.append(dec.as_str());
            let ghost stmts_before = statements@;
            statements.push(
                Stmt::ExprStmt(call1(member_owned(ident("this"), helper_name), ident("json"))),
            );
            proof {
                assert(class_member_vec.deep_view() =~= members_before.push(
                    ClassMemberV::Method(spec_to_json_chunk_method(self@, ctx@, ci as int)),
                ));
                assert(statements@.drop_last() =~= stmts_before);
                assert(view_stmts(statements@) =~= view_stmts(stmts_before).push(
                    view_stmt(statements@.last()),
                ));
                assert(view_stmt(statements@.last()) == spec_to_json_call_stmt(ci as int));
                assert(view_stmts(statements@) =~= seq![
                    StmtV::ConstDecl(
                        "json: object"@,
                        ev_new(ExprV::Ident("Object"@), Seq::empty()),
                    ),
                ] + Seq::new((ci + 1) as nat, |i: int| spec_to_json_call_stmt(i)));
            }
            start = end;
            ci = ci + 1;
        }
        proof {
            assert(ci as int == spec_chunk_count(n)) by (nonlinear_arith)
                requires
                    30 * (ci as int) <= n + 29,
                    n <= 30 * (ci as int),
            ;
        }
        let ghost stmts_before_ret = statements@;
        statements.push(Stmt::Ret(ident("json")));
        proof {
            assert(statements@.drop_last() =~= stmts_before_ret);
            assert(view_stmts(statements@) =~= view_stmts(stmts_before_ret).push(
                view_stmt(statements@.last()),
            ));
            assert(view_stmts(statements@) =~= spec_to_json_entry_method(self@, ctx@).body);
        }
        let params: Vec<String> = Vec::new();
        proof {
            assert(view_strings(params@) =~= Seq::<Seq<char>>::empty());
        }
        let to_json_member = ClassMember::Method(
            MethodDef {
                name: "toJson".to_owned(),
                is_static: false,
                params,
                ret_type: Some("Object".to_owned()),
                body: statements,
            },
        );
        let ghost members_before_entry = class_member_vec.deep_view();
        class_member_vec.push(to_json_member);
        proof {
            assert(class_member_vec.deep_view() =~= members_before_entry.push(
                ClassMemberV::Method(spec_to_json_entry_method(self@, ctx@)),
            ));
        }
        class_member_vec
    }
}


/// Contexts that agree on everything generation reads produce the same
/// decode fragments for a field.
proof fn lemma_from_json_field_ro(f: FieldDescriptorProtoV, c1: ContextV, c2: ContextV)
    requires
        ro_eq(c1, c2),
    ensures
        spec_from_json_field_decl(f, c1) == spec_from_json_field_decl(f, c2),
        spec_from_json_field_guard(f, c1) == spec_from_json_field_guard(f, c2),
        spec_value_check_stmt(f, c1, FieldAccessor::Bare) == spec_value_check_stmt(
            f,
            c2,
            FieldAccessor::Bare,
        ),
        forall|acc: FieldAccessor| #![auto]
            spec_into_from_json_expr(f, c1, acc) == spec_into_from_json_expr(f, c2, acc),
        spec_default_value_bin_expr(f, c1, FieldAccessor::Bare, true) == spec_default_value_bin_expr(
            f,
            c2,
            FieldAccessor::Bare,
            true,
        ),
{
    assert(spec_lazy_ref_ident(c1, f.type_ref) == spec_lazy_ref_ident(c2, f.type_ref));
    assert(spec_shape_check(f, c1, FieldAccessor::Bare) == spec_shape_check(
        f,
        c2,
        FieldAccessor::Bare,
    ));
    assert forall|acc: FieldAccessor| #![auto]
        spec_into_from_json_expr(f, c1, acc) == spec_into_from_json_expr(f, c2, acc) by {
        assert(spec_lazy_ref_ident(c1, f.type_ref) == spec_lazy_ref_ident(c2, f.type_ref));
    }
    assert(spec_from_json_value_expr(f, c1) == spec_from_json_value_expr(f, c2));
    assert(spec_from_json_inner_stmts(f, c1) == spec_from_json_inner_stmts(f, c2));
    assert(spec_field_descriptor_str(f, c1) == spec_field_descriptor_str(f, c2));
}

impl DescriptorProto {
    /// The binding of one field's raw JSON value in the decode routine.
    fn from_json_field_decl(&self, ctx: &Context, field: &FieldDescriptorProto) -> (s: Stmt)
        requires
            spec_is_map(field@, ctx@.map_type_reg) ==> lookup(
                ctx@.map_type_reg,
                field@.type_ref,
            )->Some_0.field.len() >= 2,
        ensures
            s@ == spec_from_json_field_decl(field@, ctx@),
    {
        let ann = self.get_field_descriptor_str(ctx, field);
        let mut text = field.name().to_owned();
        text.append(ann.as_str());
        let key = field.json_key_name();
        let mut t1 = "json[\"".to_owned();
        t1.append(key.as_str());
        t1.append("\"] !== undefined");
        let mut t2 = "json[\"".to_owned();
        t2.append(key.as_str());
        t2.append("\"]");
        let mut t3 = "json[\"".to_owned();
        t3.append(field.name());
        t3.append("\"]");
        proof {
            assert(t1@ =~= "json[\""@ + spec_json_key_name(field@) + "\"] !== undefined"@);
            assert(t2@ =~= "json[\""@ + spec_json_key_name(field@) + "\"]"@);
            assert(t3@ =~= "json[\""@ + field@.name + "\"]"@);
        }
        Stmt::ConstDecl(text, cond(ident_owned(t1), ident_owned(t2), ident_owned(t3)))
    }

    /// The guarded decode of one field.
    fn from_json_field_guard(&self, ctx: &mut Context, field: &FieldDescriptorProto) -> (s: Stmt)
        requires
            spec_is_map(field@, old(ctx)@.map_type_reg) ==> lookup(
                old(ctx)@.map_type_reg,
                field@.type_ref,
            )->Some_0.field.len() >= 2,
            spec_is_enum(field@) || (spec_is_message(field@) && !spec_is_map(
                field@,
                old(ctx)@.map_type_reg,
            )) ==> lazy_pre(old(ctx)@, field@.type_ref),
        ensures
            s@ == spec_from_json_field_guard(field@, old(ctx)@),
            final(ctx)@ == (ContextV {
                import_identifier_map: final(ctx)@.import_identifier_map,
                ..old(ctx)@
            }),
    {
        let acc = if field.is_repeated() && !field.is_map(ctx) {
            FieldAccessor::Static
        } else {
            FieldAccessor::Bare
        };
        let base = field.into_from_json_expr(ctx, acc);
        proof {
            assert(ctx@ == (ContextV {
                import_identifier_map: ctx@.import_identifier_map,
                ..old(ctx)@
            }));
            assert(ro_eq(ctx@, old(ctx)@));
            lemma_from_json_field_ro(field@, ctx@, old(ctx)@);
        }
        let scalar: Expr = if field.is_enum() {
            if field.is_repeated() {
                ident("r")
            } else {
                ident(field.name())
            }
        } else {
            base
        };
        let value_expr: Expr = if field.is_map(ctx) {
            let mut target = field.name().to_owned();
            target.append("?");
            call1(
                member(ident(field.name()), "forEach"),
                arrow2(
                    "value",
                    "key",
                    stmts1(
                        Stmt::ExprStmt(
                            call2(
                                member(member_owned(ident("jsonMessage"), target), "set"),
                                non_null(ident("key")),
                                non_null(ident("value")),
                            ),
                        ),
                    ),
                ),
            )
        } else if field.is_repeated() {
            call1(
                member(ident(field.name()), "map"),
                crate::builders::arrow1("r", stmts1(Stmt::Ret(scalar))),
            )
        } else {
            scalar
        };
        proof {
            assert(value_expr@ == spec_from_json_value_expr(field@, old(ctx)@));
        }
        let mut inner: Vec<Stmt> = Vec::new();
        if !field.is_repeated() {
            let vc = field.value_check_stmt(ctx, FieldAccessor::Bare);
            proof {
                assert(ro_eq(ctx@, old(ctx)@));
            }
            inner.push(vc);
        }
        if field.has_oneof_index() {
            let mut dup_msg = "duplicate oneof field ".to_owned();
            dup_msg.append(field.json_key_name().as_str());
            inner.push(
                if_stmt(
                    call1(member(ident("oneof"), "has"), Expr::NumLit(field.oneof_index() as i64)),
                    Stmt::Throw(new1(ident("Error"), str_lit_owned(dup_msg))),
                ),
            );
            inner.push(
                Stmt::ExprStmt(
                    call1(member(ident("oneof"), "add"), Expr::NumLit(field.oneof_index() as i64)),
                ),
            );
        }
        if field.is_map(ctx) {
            inner.push(Stmt::ExprStmt(value_expr));
        } else {
            inner.push(
                Stmt::ExprStmt(assign(member(ident("jsonMessage"), field.name()), value_expr)),
            );
        }
        proof {
            crate::ast::lemma_view_stmts_pointwise(inner@);
            lemma_from_json_field_ro(field@, ctx@, old(ctx)@);
            assert(view_stmts(inner@) =~= spec_from_json_inner_stmts(field@, old(ctx)@));
        }
        let gate = field.default_value_bin_expr_for_json(ctx, FieldAccessor::Bare);
        proof {
            lemma_from_json_field_ro(field@, ctx@, old(ctx)@);
        }
        if_stmt(gate, Stmt::Block(inner))
    }

    /// One decode chunk helper, covering the fields in positions `start` to
    /// `end`.
    pub fn print_from_json_inner(&self, ctx: &mut Context, index: usize, start: usize, end: usize)
        -> (r: ClassMember)
        requires
            start <= end <= self@.field.len(),
            map_fields_registered(self@, old(ctx)@),
            ref_fields_resolvable(self@, old(ctx)@),
        ensures
            r@ == ClassMemberV::Method(
                MethodDefV {
                    name: "fromJson_"@ + spec_dec(index as int),
                    is_static: true,
                    params: seq![
                        "json: object"@,
                        "jsonMessage: "@ + spec_normalize_name(old(ctx)@, self@.name),
                    ],
                    ret_type: None,
                    body: spec_from_json_stmts(self@, old(ctx)@, start as int, end as int),
                },
            ),
            final(ctx)@ == (ContextV {
                import_identifier_map: final(ctx)@.import_identifier_map,
                ..old(ctx)@
            }),
    {
        let mut statements: Vec<Stmt> = Vec::new();
        let mut i: usize = start;
        while i < end
            invariant
                start <= i <= end,
                end <= self@.field.len(),
                map_fields_registered(self@, old(ctx)@),
                ref_fields_resolvable(self@, old(ctx)@),
                ctx@ == (ContextV {
                    import_identifier_map: ctx@.import_identifier_map,
                    ..old(ctx)@
                }),
                view_stmts(statements@) == spec_from_json_stmts(
                    self@,
                    old(ctx)@,
                    start as int,
                    i as int,
                ),
            decreases end - i,
        {
            let ghost before = statements@;
            let field = &self.field[i];
            proof {
                assert(self@.field[i as int] == field@);
                assert(ro_eq(ctx@, old(ctx)@));
                lemma_from_json_field_ro(field@, ctx@, old(ctx)@);
            }
            let decl = self.from_json_field_decl(ctx, field);
            statements.push(decl);
            let ghost mid_ctx = ctx@;
            let guard = self.from_json_field_guard(ctx, field);
            statements.push(guard);
            proof {
                lemma_from_json_field_ro(field@, mid_ctx, old(ctx)@);
                crate::ast::lemma_view_stmts_pointwise(statements@);
                crate::ast::lemma_view_stmts_pointwise(before);
                let news = spec_from_json_stmts(self@, old(ctx)@, start as int, (i + 1) as int);
                let olds = spec_from_json_stmts(self@, old(ctx)@, start as int, i as int);
                let w = 2 * (i as int - start as int);
                assert(view_stmts(statements@).len() == news.len());
                assert(statements@[w] == statements@.drop_last().last());
                assert(statements@[w + 1] == statements@.last());
                assert(view_stmts(statements@)[w] == view_stmt(statements@[w]));
                assert(news[w] == spec_from_json_field_decl(self@.field[start + w / 2], old(ctx)@));
                assert(start + w / 2 == i as int);
                assert(view_stmts(statements@)[w] == news[w]);
                assert(news[w + 1] == spec_from_json_field_guard(
                    self@.field[start + (w + 1) / 2],
                    old(ctx)@,
                ));
                assert(start + (w + 1) / 2 == i as int);
                assert(view_stmts(statements@)[w + 1] == news[w + 1]);
                assert forall|k: int| 0 <= k < w implies view_stmts(statements@)[k] == news[k] by {
                    assert(statements@[k] == before[k]);
                    assert(view_stmts(before)[k] == olds[k]);
                    assert(news[k] == olds[k]);
                }
                assert(view_stmts(statements@) =~= news);
            }
            i = i + 1;
        }
        let mut name = "fromJson_".to_owned();
        let dec = crate::strutil::usize_to_dec(index);
        name.append(dec.as_str());
        let mut message_param = "jsonMessage: ".to_owned();
        let normalized = ctx.normalize_name(self.name());
        message_param.append(normalized.as_str());
        let mut params: Vec<String> = Vec::new();
        params.push("json: object".to_owned());
        params.push(message_param);
        proof {
            assert(spec_normalize_name(ctx@, self@.name) == spec_normalize_name(
                old(ctx)@,
                self@.name,
            ));
            assert(view_strings(params@) =~= seq![
                "json: object"@,
                "jsonMessage: "@ + spec_normalize_name(old(ctx)@, self@.name),
            ]);
        }
        ClassMember::Method(
            MethodDef { name, is_static: true, params, ret_type: None, body: statements },
        )
    }

    /// The decode members of the message: one helper per thirty fields, then
    /// the public entry point that creates the message (and, when any field
    /// belongs to a oneof group, the bookkeeping set), invokes every helper in
    /// declaration order and returns the message.
    pub fn print_from_json(&self, ctx: &mut Context) -> (r: Vec<ClassMember>)
        requires
            map_fields_registered(self@, old(ctx)@),
            ref_fields_resolvable(self@, old(ctx)@),
        ensures
            ({
                let n = self@.field.len() as int;
                let count = spec_chunk_count(n);
                &&& r.deep_view().len() == count + 1
                &&& forall|i: int|
                    0 <= i < count ==> r.deep_view()[i] == ClassMemberV::Method(
                        spec_from_json_chunk_method(self@, old(ctx)@, i),
                    )
                &&& r.deep_view()[count] == ClassMemberV::Method(
                    spec_from_json_entry_method(self@, old(ctx)@),
                )
            }),
            final(ctx)@ == (ContextV {
                import_identifier_map: final(ctx)@.import_identifier_map,
                ..old(ctx)@
            }),
    {
        let ghost n = self@.field.len() as int;
        let normalized = ctx.normalize_name(self.name());
        let mut statements: Vec<Stmt> = Vec::new();
        statements.push(
            Stmt::ConstDecl("jsonMessage".to_owned(), new0(ident_owned(normalized.clone()))),
        );
        let mut has_oneof = false;
        let mut fi: usize = 0;
        while fi < self.field.len()
            invariant
                fi <= self@.field.len(),
                has_oneof == (exists|j: int|
                    0 <= j < fi as int && (#[trigger] self@.field[j].oneof_index) is Some),
            decreases self@.field.len() - fi,
        {
            if self.field[fi].has_oneof_index() {
                proof {
                    assert(self@.field[fi as int].oneof_index is Some);
                }
                has_oneof = true;
            }
            if has_oneof {
            } else {
                proof {
                    assert(forall|j: int|
                        0 <= j < fi + 1 ==> !((#[trigger] self@.field[j].oneof_index) is Some));
                }
            }
            fi = fi + 1;
        }
        proof {
            assert(has_oneof == spec_has_oneof(self@));
        }
        if has_oneof {
            statements.push(Stmt::ConstDecl("oneof".to_owned(), new0(ident("Set"))));
        }
        let ghost head_stmts = view_stmts(statements@);
        proof {
            crate::ast::lemma_view_stmts_pointwise(statements@);
            assert(head_stmts =~= seq![
                StmtV::ConstDecl(
                    "jsonMessage"@,
                    ev_new(ExprV::Ident(spec_normalize_name(old(ctx)@, self@.name)), Seq::empty()),
                ),
            ] + (if spec_has_oneof(self@) {
                seq![StmtV::ConstDecl("oneof"@, ev_new(ExprV::Ident("Set"@), Seq::empty()))]
            } else {
                Seq::<StmtV>::empty()
            }));
        }
        let mut class_member_vec: Vec<ClassMember> = Vec::new();
        let len = self.field.len();
        let mut start: usize = 0;
        let mut ci: usize = 0;
        while start < len
            invariant
                len == self@.field.len(),
                n == len as int,
                map_fields_registered(self@, old(ctx)@),
                ref_fields_resolvable(self@, old(ctx)@),
                normalized@ == spec_normalize_name(old(ctx)@, self@.name),
                head_stmts =~= seq![
                    StmtV::ConstDecl(
                        "jsonMessage"@,
                        ev_new(
                            ExprV::Ident(spec_normalize_name(old(ctx)@, self@.name)),
                            Seq::empty(),
                        ),
                    ),
                ] + (if spec_has_oneof(self@) {
                    seq![StmtV::ConstDecl("oneof"@, ev_new(ExprV::Ident("Set"@), Seq::empty()))]
                } else {
                    Seq::<StmtV>::empty()
                }),
                ctx@ == (ContextV {
                    import_identifier_map: ctx@.import_identifier_map,
                    ..old(ctx)@
                }),
                start <= len,
                30 * ci <= n + 29,
                start < len ==> start == 30 * ci,
                start >= len ==> n <= 30 * ci,
                class_member_vec.deep_view().len() == ci as int,
                forall|i: int|
                    0 <= i < ci as int ==> class_member_vec.deep_view()[i] == ClassMemberV::Method(
                        spec_from_json_chunk_method(self@, old(ctx)@, i),
                    ),
                view_stmts(statements@) == head_stmts + Seq::new(
                    ci as nat,
                    |i: int| spec_from_json_call_stmt(self@, old(ctx)@, i),
                ),
            decreases len - start,
        {
            let end: usize = if len - start > 30 {
                start + 30
            } else {
                len
            };
            proof {
                assert(end as int == spec_chunk_end(n, ci as int));
                assert(ro_eq(ctx@, old(ctx)@));
                assert(map_fields_registered(self@, ctx@));
                assert forall|i: int|
                    0 <= i < self@.field.len() && (spec_is_enum(#[trigger] self@.field[i]) || (
                    spec_is_message(self@.field[i]) && !spec_is_map(
                        self@.field[i],
                        ctx@.map_type_reg,
                    ))) implies lazy_pre(ctx@, self@.field[i].type_ref) by {
                    assert(lazy_pre(old(ctx)@, self@.field[i].type_ref));
                }
            }
            let ghost members_before = class_member_vec.deep_view();
            let ghost ctx_before = ctx@;
            let member_item = self.print_from_json_inner(ctx, ci, start, end);
            class_member_vec.push(member_item);
            let mut call_text = normalized.clone();
            call_text.append(".fromJson_");
            let dec = crate::strutil::usize_to_dec(ci);
            call_text.append(dec.as_str());
            call_text.append("(json, jsonMessage)");
            let ghost stmts_before = statements@;
            statements.push(Stmt::ExprStmt(ident_owned(call_text)));
            proof {
                assert forall|k: int|
                    0 <= k < 2 * (end - start) implies spec_from_json_stmts(
                    self@,
                    ctx_before,
                    start as int,
                    end as int,
                )[k] == spec_from_json_stmts(self@, old(ctx)@, start as int, end as int)[k] by {
                    lemma_from_json_field_ro(
                        self@.field[start + k / 2],
                        ctx_before,
                        old(ctx)@,
                    );
                }
                assert(spec_from_json_stmts(self@, ctx_before, start as int, end as int)
                    =~= spec_from_json_stmts(self@, old(ctx)@, start as int, end as int));
                assert(spec_normalize_name(ctx_before, self@.name) == spec_normalize_name(
                    old(ctx)@,
                    self@.name,
                ));
                assert(class_member_vec.deep_view() =~= members_before.push(
                    ClassMemberV::Method(spec_from_json_chunk_method(self@, old(ctx)@, ci as int)),
                ));
                assert(statements@.drop_last() =~= stmts_before);
                assert(view_stmts(statements@) =~= view_stmts(stmts_before).push(
                    view_stmt(statements@.last()),
                ));
                assert(view_stmt(statements@.last()) == spec_from_json_call_stmt(
                    self@,
                    old(ctx)@,
                    ci as int,
                ));
                assert(view_stmts(statements@) =~= head_stmts + Seq::new(
                    (ci + 1) as nat,
                    |i: int| spec_from_json_call_stmt(self@, old(ctx)@, i),
                ));
            }
            start = end;
            ci = ci + 1;
        }
        proof {
            assert(ci as int == spec_chunk_count(n)) by (nonlinear_arith)
                requires
                    30 * (ci as int) <= n + 29,
                    n <= 30 * (ci as int),
            ;
        }
        let ghost stmts_before_ret = statements@;
        statements.push(Stmt::Ret(ident("jsonMessage")));
        proof {
            assert(statements@.drop_last() =~= stmts_before_ret);
            assert(view_stmts(statements@) =~= view_stmts(stmts_before_ret).push(
                view_stmt(statements@.last()),
            ));
            assert(view_stmts(statements@) =~= spec_from_json_entry_method(self@, old(ctx)@).body);
        }
        let mut params: Vec<String> = Vec::new();
        params.push("json: object".to_owned());
        proof {
            assert(view_strings(params@) =~= seq!["json: object"@]);
        }
        let from_json_member = ClassMember::Method(
            MethodDef {
                name: "fromJson".to_owned(),
                is_static: true,
                params,
                ret_type: Some(normalized),
                body: statements,
            },
        );
        let ghost members_before_entry = class_member_vec.deep_view();
        class_member_vec.push(from_json_member);
        proof {
            assert(class_member_vec.deep_view() =~= members_before_entry.push(
                ClassMemberV::Method(spec_from_json_entry_method(self@, old(ctx)@)),
            ));
        }
        class_member_vec
    }
}

} // verus!
