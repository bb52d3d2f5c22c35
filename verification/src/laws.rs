//! The properties the generator is held to, stated over the models of the
//! emitted trees and proved from the generation contracts: default elision
//! and oneof presence, empty-map elision, the named validation errors with
//! their exact bounds, the invisibility of method chunking, and the shape of
//! cross-unit references.

use vstd::prelude::*;
use crate::ast::BinOp;
use crate::ast::ExprV;
use crate::ast::StmtV;
use crate::ast::UnOp;
use crate::builders::ev_bin;
use crate::builders::ev_member;
use crate::builders::ev_new;
use crate::builders::ev_paren;
use crate::builders::ev_unary;
use crate::builders::sv_if;
use crate::classify::spec_is_map;
use crate::classify::spec_is_repeated;
use crate::context::ContextV;
use crate::context::Syntax;
use crate::context::lazy_pre;
use crate::context::lazy_ref_post;
use crate::context::spec_import_source;
use crate::context::spec_normalize_type_name;
use crate::descriptor::DescriptorProtoV;
use crate::descriptor::FieldDescriptorProtoV;
use crate::descriptor::FieldType;
use crate::json::FieldAccessor;
use crate::json::spec_access;
use crate::json::spec_chunk_count;
use crate::json::spec_chunk_end;
use crate::json::spec_default_value_bin_expr;
use crate::json::spec_from_json_chunk_method;
use crate::json::spec_from_json_inner_stmts;
use crate::json::spec_from_json_stmts;
use crate::json::spec_infinity_and_nan_check;
use crate::json::spec_json_key_name;
use crate::json::spec_min_max_check;
use crate::json::spec_min_max_check_bigint;
use crate::json::spec_min_max_for;
use crate::json::spec_neq_null_or_undefined;
use crate::json::spec_presence_check;
use crate::json::spec_proto3_default;
use crate::json::spec_to_json_chunk_method;
use crate::json::spec_to_json_stmts;
use crate::json::spec_value_check_stmt;
use crate::registry::lookup;

verus! {

/// Default elision and oneof presence: under the third syntax revision, a
/// non-oneof field with a proto3 default is gated on differing from that
/// default, while a oneof member is gated on being defined, with no default
/// comparison, because presence is what distinguishes the members of a group.
pub proof fn lemma_default_elision(
    f: FieldDescriptorProtoV,
    c: ContextV,
    acc: FieldAccessor,
    json_mode: bool,
)
    requires
        c.syntax == Syntax::Proto3,
    ensures
        spec_proto3_default(f) is Some && f.oneof_index is None ==> spec_default_value_bin_expr(
            f,
            c,
            acc,
            json_mode,
        ) == ev_bin(
            BinOp::And,
            spec_presence_check(f, c, acc, json_mode),
            ev_bin(BinOp::NotEqEq, spec_access(acc, f), spec_proto3_default(f)->Some_0),
        ),
        f.oneof_index is Some ==> spec_default_value_bin_expr(f, c, acc, json_mode)
            == spec_neq_null_or_undefined(f, acc, json_mode),
{
}

/// Empty-map elision: the presence gate of a non-oneof map field conjoins
/// the test that the map container's size is not zero, so a map with no
/// entries is absent from the JSON output.
pub proof fn lemma_map_empty_elision(
    f: FieldDescriptorProtoV,
    c: ContextV,
    acc: FieldAccessor,
    json_mode: bool,
)
    requires
        spec_is_map(f, c.map_type_reg),
        f.oneof_index is None,
    ensures
        spec_presence_check(f, c, acc, json_mode) == ev_bin(
            BinOp::And,
            spec_neq_null_or_undefined(f, acc, json_mode),
            ev_bin(
                BinOp::NotEqEq,
                ev_member(spec_access(acc, f), "size"@),
                ExprV::NumLit(0),
            ),
        ),
{
}

/// The illegal-value error names the offending field's JSON key: the emitted
/// validation of every field is a guard that, when the value fails its
/// check, throws exactly the error carrying that field's JSON key.
pub proof fn lemma_value_check_raises_named_error(
    f: FieldDescriptorProtoV,
    c: ContextV,
    acc: FieldAccessor,
)
    ensures
        exists|check: ExprV|
            spec_value_check_stmt(f, c, acc) == sv_if(
                ev_unary(UnOp::Not, ev_paren(check)),
                StmtV::Throw(
                    ev_new(
                        ExprV::Ident("Error"@),
                        seq![ExprV::StrLit("illegal value for "@ + spec_json_key_name(f))],
                    ),
                ),
            ),
{
    let s = spec_value_check_stmt(f, c, acc);
    let witness = match crate::json::spec_num_check(f, acc) {
        Some(n) => ev_bin(BinOp::And, crate::json::spec_shape_check(f, c, acc), ev_paren(n)),
        None => crate::json::spec_shape_check(f, c, acc),
    };
    assert(s == sv_if(
        ev_unary(UnOp::Not, ev_paren(witness)),
        StmtV::Throw(
            ev_new(
                ExprV::Ident("Error"@),
                seq![ExprV::StrLit("illegal value for "@ + spec_json_key_name(f))],
            ),
        ),
    ));
}

/// The emitted numeric range checks carry the exact closed range of each
/// declared width, with the 64-bit bounds kept lossless as big-integer
/// literals.
pub proof fn lemma_value_check_range_bounds(f: FieldDescriptorProtoV, acc: FieldAccessor)
    ensures
        f.field_type == FieldType::Uint64 || f.field_type == FieldType::Fixed64
            ==> spec_min_max_for(f, acc) == Some(
            spec_min_max_check_bigint(f, acc, 0i128, 18446744073709551615i128),
        ),
        f.field_type == FieldType::Int64 || f.field_type == FieldType::Sfixed64 || f.field_type
            == FieldType::Sint64 ==> spec_min_max_for(f, acc) == Some(
            spec_min_max_check_bigint(f, acc, -9223372036854775808i128, 9223372036854775807i128),
        ),
        f.field_type == FieldType::Uint32 || f.field_type == FieldType::Fixed32
            ==> spec_min_max_for(f, acc) == Some(
            spec_min_max_check(f, acc, "+0e0"@, "+4.294967295e9"@),
        ),
        f.field_type == FieldType::Int32 || f.field_type == FieldType::Sfixed32 || f.field_type
            == FieldType::Sint32 ==> spec_min_max_for(f, acc) == Some(
            spec_min_max_check(f, acc, "-2.147483648e9"@, "+2.147483647e9"@),
        ),
{
}

/// The numeric validation accepts exactly the three non-finite sentinel
/// strings besides the in-range values.
pub proof fn lemma_nonfinite_sentinels(f: FieldDescriptorProtoV, acc: FieldAccessor)
    ensures
        spec_infinity_and_nan_check(f, acc) == ev_bin(
            BinOp::Or,
            ev_bin(BinOp::EqEqEq, spec_access(acc, f), ExprV::StrLit("NaN"@)),
            ev_bin(
                BinOp::Or,
                ev_bin(BinOp::EqEqEq, spec_access(acc, f), ExprV::StrLit("Infinity"@)),
                ev_bin(BinOp::EqEqEq, spec_access(acc, f), ExprV::StrLit("-Infinity"@)),
            ),
        ),
{
}

/// Assigning a second member of an already-populated oneof group raises the
/// duplicate-oneof error before the assignment: the decode statements of a
/// oneof member first test the group's index and throw the error naming the
/// member's JSON key, then record the group, and only then assign.
pub proof fn lemma_duplicate_oneof_guard(f: FieldDescriptorProtoV, c: ContextV)
    requires
        f.oneof_index is Some,
    ensures
        ({
            let inner = spec_from_json_inner_stmts(f, c);
            let o: int = if !spec_is_repeated(f) {
                1
            } else {
                0
            };
            &&& inner.len() == o + 3
            &&& inner[o] == sv_if(
                crate::builders::ev_call(
                    ev_member(ExprV::Ident("oneof"@), "has"@),
                    seq![ExprV::NumLit(f.oneof_index->Some_0 as i64)],
                ),
                StmtV::Throw(
                    ev_new(
                        ExprV::Ident("Error"@),
                        seq![
                            ExprV::StrLit("duplicate oneof field "@ + spec_json_key_name(f)),
                        ],
                    ),
                ),
            )
            &&& inner[o + 1] == StmtV::ExprStmt(
                crate::builders::ev_call(
                    ev_member(ExprV::Ident("oneof"@), "add"@),
                    seq![ExprV::NumLit(f.oneof_index->Some_0 as i64)],
                ),
            )
        }),
{
}

/// The concatenation of the encode chunk helpers' bodies, in order.
pub open spec fn to_json_chunk_concat(m: DescriptorProtoV, c: ContextV, i: int) -> Seq<StmtV>
    decreases i,
{
    if i <= 0 {
        Seq::empty()
    } else {
        to_json_chunk_concat(m, c, i - 1) + spec_to_json_chunk_method(m, c, i - 1).body
    }
}

/// The concatenation of the decode chunk helpers' bodies, in order.
pub open spec fn from_json_chunk_concat(m: DescriptorProtoV, c: ContextV, i: int) -> Seq<StmtV>
    decreases i,
{
    if i <= 0 {
        Seq::empty()
    } else {
        from_json_chunk_concat(m, c, i - 1) + spec_from_json_chunk_method(m, c, i - 1).body
    }
}

/// Chunk boundaries are invisible: every chunk helper covers at most thirty
/// fields, and the concatenation of all chunk bodies, in order, is exactly
/// the per-field statement sequence of the whole message, whatever the
/// message's size.
pub proof fn lemma_to_json_chunks_cover(m: DescriptorProtoV, c: ContextV)
    ensures
        to_json_chunk_concat(m, c, spec_chunk_count(m.field.len() as int)) == spec_to_json_stmts(
            m,
            c,
            0,
            m.field.len() as int,
        ),
        forall|i: int|
            0 <= i < spec_chunk_count(m.field.len() as int) ==> #[trigger] spec_to_json_chunk_method(
                m,
                c,
                i,
            ).body.len() <= 30,
{
    let n = m.field.len() as int;
    let count = spec_chunk_count(n);
    lemma_to_json_chunks_prefix(m, c, count);
    assert(spec_chunk_end(n, count - 1) == n) by (nonlinear_arith)
        requires
            count == (n + 29) / 30,
            n >= 0,
            count >= 1 ==> true,
    ;
    assert(to_json_chunk_concat(m, c, count) =~= spec_to_json_stmts(m, c, 0, n));
    assert forall|i: int| 0 <= i < count implies #[trigger] spec_to_json_chunk_method(
        m,
        c,
        i,
    ).body.len() <= 30 by {
        assert(spec_chunk_end(n, i) - 30 * i <= 30);
    }
}

/// The first `i` encode chunks cover exactly the fields before the chunk
/// boundary.
proof fn lemma_to_json_chunks_prefix(m: DescriptorProtoV, c: ContextV, i: int)
    requires
        0 <= i <= spec_chunk_count(m.field.len() as int),
    ensures
        to_json_chunk_concat(m, c, i) == spec_to_json_stmts(
            m,
            c,
            0,
            if 30 * i <= m.field.len() as int {
                30 * i
            } else {
                m.field.len() as int
            },
        ),
    decreases i,
{
    let n = m.field.len() as int;
    if i > 0 {
        lemma_to_json_chunks_prefix(m, c, i - 1);
        assert(30 * (i - 1) <= n) by (nonlinear_arith)
            requires
                i <= (n + 29) / 30,
                i >= 1,
                n >= 0,
        ;
        let lo = 30 * (i - 1);
        let hi = spec_chunk_end(n, i - 1);
        let top = if 30 * i <= n {
            30 * i
        } else {
            n
        };
        assert(hi == top);
        assert(spec_to_json_stmts(m, c, 0, lo) + spec_to_json_stmts(m, c, lo, hi)
            =~= spec_to_json_stmts(m, c, 0, hi));
    } else {
        assert(to_json_chunk_concat(m, c, 0) =~= spec_to_json_stmts(m, c, 0, 0));
    }
}

/// Chunk boundaries are invisible in the decode direction too: every chunk
/// helper covers at most thirty fields (two statements each), and the
/// concatenation of all chunk bodies, in order, is exactly the per-field
/// statement sequence of the whole message.
pub proof fn lemma_from_json_chunks_cover(m: DescriptorProtoV, c: ContextV)
    ensures
        from_json_chunk_concat(m, c, spec_chunk_count(m.field.len() as int))
            == spec_from_json_stmts(m, c, 0, m.field.len() as int),
        forall|i: int|
            0 <= i < spec_chunk_count(m.field.len() as int)
                ==> #[trigger] spec_from_json_chunk_method(m, c, i).body.len() <= 60,
{
    let n = m.field.len() as int;
    let count = spec_chunk_count(n);
    lemma_from_json_chunks_prefix(m, c, count);
    assert(from_json_chunk_concat(m, c, count) =~= spec_from_json_stmts(m, c, 0, n));
    assert forall|i: int| 0 <= i < count implies #[trigger] spec_from_json_chunk_method(
        m,
        c,
        i,
    ).body.len() <= 60 by {
        assert(spec_chunk_end(n, i) - 30 * i <= 30);
    }
}

/// The first `i` decode chunks cover exactly the fields before the chunk
/// boundary.
proof fn lemma_from_json_chunks_prefix(m: DescriptorProtoV, c: ContextV, i: int)
    requires
        0 <= i <= spec_chunk_count(m.field.len() as int),
    ensures
        from_json_chunk_concat(m, c, i) == spec_from_json_stmts(
            m,
            c,
            0,
            if 30 * i <= m.field.len() as int {
                30 * i
            } else {
                m.field.len() as int
            },
        ),
    decreases i,
{
    let n = m.field.len() as int;
    if i > 0 {
        lemma_from_json_chunks_prefix(m, c, i - 1);
        assert(30 * (i - 1) <= n) by (nonlinear_arith)
            requires
                i <= (n + 29) / 30,
                i >= 1,
                n >= 0,
        ;
        let lo = 30 * (i - 1);
        let hi = spec_chunk_end(n, i - 1);
        let top = if 30 * i <= n {
            30 * i
        } else {
            n
        };
        assert(hi == top);
        assert(spec_from_json_stmts(m, c, 0, lo) + spec_from_json_stmts(m, c, lo, hi)
            =~= spec_from_json_stmts(m, c, 0, hi));
    } else {
        assert(from_json_chunk_concat(m, c, 0) =~= spec_from_json_stmts(m, c, 0, 0));
    }
}

/// Cross-unit references: resolving a type owned by another unit returns the
/// normalized identifier and records its import from the path relative to
/// the current unit (the difference of the two units' locations, with the
/// schema suffix replaced by the configured one); resolving a type the
/// current unit owns returns its local identifier and records nothing.
pub proof fn lemma_cross_unit_reference(c0: ContextV, c1: ContextV, name: Seq<char>)
    requires
        lazy_pre(c0, name),
        lazy_ref_post(c0, c1, name),
    ensures
        ({
            let p = lookup(c0.type_reg, name)->Some_0;
            if p == c0.name {
                c1 == c0
            } else {
                &&& lookup(c1.import_identifier_map, spec_import_source(c0, p)) is Some
                &&& lookup(c1.import_identifier_map, spec_import_source(c0, p))->Some_0.contains(
                    spec_normalize_type_name(c0.options.with_namespace, name),
                )
                &&& c1.imports == c0.imports
                &&& c1.type_reg == c0.type_reg
            }
        }),
{
    let p = lookup(c0.type_reg, name)->Some_0;
    if p != c0.name {
        let src = spec_import_source(c0, p);
        let id = spec_normalize_type_name(c0.options.with_namespace, name);
        match lookup(c0.import_identifier_map, src) {
            None => {
                assert(lookup(c1.import_identifier_map, src) == Some(seq![id]));
                assert(seq![id][0] == id);
            },
            Some(names) => {
                if names.contains(id) {
                    assert(lookup(c1.import_identifier_map, src) == Some(names));
                } else {
                    assert(lookup(c1.import_identifier_map, src) == Some(names.push(id)));
                    assert(names.push(id)[names.len() as int] == id);
                }
            },
        }
    }
}

} // verus!
