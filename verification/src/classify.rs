//! The classification layer: pure predicates over a field (and, for map
//! fields, the registry) that drive every codec decision. Numeric kinds are
//! split into those whose values a target double holds exactly and the 64-bit
//! kinds, which need string-based JSON and split-word binary handling.

use vstd::prelude::*;
use vstd::string::*;
use crate::context::Context;
use crate::descriptor::FieldDescriptorProto;
use crate::descriptor::FieldDescriptorProtoV;
use crate::descriptor::DescriptorProtoV;
use crate::descriptor::FieldType;
use crate::descriptor::Label;
use crate::registry::lookup;
use crate::strutil::str_eq;

verus! {

/// Whether the field is repeated.
pub open spec fn spec_is_repeated(f: FieldDescriptorProtoV) -> bool {
    f.label == Label::Repeated
}

/// Whether the field holds text.
pub open spec fn spec_is_string(f: FieldDescriptorProtoV) -> bool {
    f.field_type == FieldType::Str
}

/// Whether the field holds a byte string.
pub open spec fn spec_is_bytes(f: FieldDescriptorProtoV) -> bool {
    f.field_type == FieldType::Bytes
}

/// Whether the field holds a boolean.
pub open spec fn spec_is_boolean(f: FieldDescriptorProtoV) -> bool {
    f.field_type == FieldType::Bool
}

/// Whether the field references an enum type.
pub open spec fn spec_is_enum(f: FieldDescriptorProtoV) -> bool {
    f.field_type == FieldType::Enum
}

/// Whether the field references a message type.
pub open spec fn spec_is_message(f: FieldDescriptorProtoV) -> bool {
    f.field_type == FieldType::Message
}

/// Whether the field holds a 64-bit integer, which the target runtime cannot
/// keep exactly in its double kind.
pub open spec fn spec_is_bigint(f: FieldDescriptorProtoV) -> bool {
    f.field_type == FieldType::Int64 || f.field_type == FieldType::Uint64 || f.field_type
        == FieldType::Sint64 || f.field_type == FieldType::Fixed64 || f.field_type
        == FieldType::Sfixed64
}

/// Whether the field holds a 32-bit integer, which a target double holds
/// exactly.
pub open spec fn spec_is_integer(f: FieldDescriptorProtoV) -> bool {
    f.field_type == FieldType::Int32 || f.field_type == FieldType::Uint32 || f.field_type
        == FieldType::Sint32 || f.field_type == FieldType::Fixed32 || f.field_type
        == FieldType::Sfixed32
}

/// Whether the field holds any numeric value.
pub open spec fn spec_is_number(f: FieldDescriptorProtoV) -> bool {
    spec_is_bigint(f) || spec_is_integer(f) || f.field_type == FieldType::Float || f.field_type
        == FieldType::Double
}

/// Whether the field is eligible for packed wire encoding: repeated with a
/// scalar numeric, boolean or enum kind.
pub open spec fn spec_is_packed(f: FieldDescriptorProtoV) -> bool {
    spec_is_repeated(f) && (spec_is_number(f) || spec_is_boolean(f) || spec_is_enum(f))
}

/// Whether the field is a map field: its message type was registered as a
/// synthetic map-entry message.
pub open spec fn spec_is_map(
    f: FieldDescriptorProtoV,
    map_type_reg: Seq<(Seq<char>, DescriptorProtoV)>,
) -> bool {
    spec_is_message(f) && lookup(map_type_reg, f.type_ref) is Some
}

/// The qualified type name with every leading dot removed.
pub open spec fn spec_trim_leading_dots(s: Seq<char>) -> Seq<char>
    decreases s.len(),
{
    if s.len() > 0 && s[0] == '.' {
        spec_trim_leading_dots(s.drop_first())
    } else {
        s
    }
}

/// The JSON shape of a well-known wrapper type, from the fixed table; any
/// other message type maps to the object shape.
pub open spec fn spec_json_repr_wkt(t: Seq<char>) -> Seq<char> {
    let n = spec_trim_leading_dots(t);
    if n == "google.protobuf.BoolValue"@ {
        "boolean"@
    } else if n == "google.protobuf.BytesValue"@ {
        "string"@
    } else if n == "google.protobuf.DoubleValue"@ {
        "number"@
    } else if n == "google.protobuf.Duration"@ {
        "string"@
    } else if n == "google.protobuf.FieldMask"@ {
        "string"@
    } else if n == "google.protobuf.FloatValue"@ {
        "number"@
    } else if n == "google.protobuf.Int32Value"@ {
        "number"@
    } else if n == "google.protobuf.Int64Value"@ {
        "number|string"@
    } else if n == "google.protobuf.ListValue"@ {
        "array"@
    } else if n == "google.protobuf.StringValue"@ {
        "string"@
    } else if n == "google.protobuf.Timestamp"@ {
        "string"@
    } else if n == "google.protobuf.UInt32Value"@ {
        "number"@
    } else if n == "google.protobuf.UInt64Value"@ {
        "number|string"@
    } else if n == "google.protobuf.Value"@ {
        "unknown"@
    } else if n == "google.protobuf.NullValue"@ {
        "null"@
    } else {
        "object"@
    }
}

/// Whether the referenced type is one of the well-known wrapper types with a
/// special JSON representation.
pub open spec fn spec_is_well_known_type_name(t: Seq<char>) -> bool {
    let n = spec_trim_leading_dots(t);
    ||| n == "google.protobuf.BoolValue"@
    ||| n == "google.protobuf.BytesValue"@
    ||| n == "google.protobuf.DoubleValue"@
    ||| n == "google.protobuf.Duration"@
    ||| n == "google.protobuf.FieldMask"@
    ||| n == "google.protobuf.FloatValue"@
    ||| n == "google.protobuf.Int32Value"@
    ||| n == "google.protobuf.Int64Value"@
    ||| n == "google.protobuf.ListValue"@
    ||| n == "google.protobuf.StringValue"@
    ||| n == "google.protobuf.Timestamp"@
    ||| n == "google.protobuf.UInt32Value"@
    ||| n == "google.protobuf.UInt64Value"@
    ||| n == "google.protobuf.Value"@
    ||| n == "google.protobuf.NullValue"@
}

/// Whether the field references a well-known wrapper type.
pub open spec fn spec_is_well_known_message(f: FieldDescriptorProtoV) -> bool {
    spec_is_message(f) && spec_is_well_known_type_name(f.type_ref)
}

/// A prefix of leading dots does not change the trimmed name.
proof fn lemma_trim_leading_dots(s: Seq<char>, i: int)
    requires
        0 <= i <= s.len(),
        forall|j: int| 0 <= j < i ==> s[j] == '.',
        i < s.len() ==> s[i] != '.',
    ensures
        spec_trim_leading_dots(s) == s.subrange(i, s.len() as int),
    decreases i,
{
    if i == 0 {
        if s.len() > 0 && s[0] == '.' {
            assert(false);
        }
        assert(s.subrange(0, s.len() as int) =~= s);
    } else {
        assert(s.len() > 0 && s[0] == '.');
        let t = s.drop_first();
        assert(forall|j: int| 0 <= j < i - 1 ==> t[j] == '.');
        lemma_trim_leading_dots(t, i - 1);
        assert(t.subrange(i - 1, t.len() as int) =~= s.subrange(i, s.len() as int));
    }
}

/// The given string with every leading dot removed.
pub fn trim_leading_dots(s: &str) -> (r: &str)
    ensures
        r@ == spec_trim_leading_dots(s@),
{
    let n = s.unicode_len();
    let mut i: usize = 0;
    while i < n
        invariant
            n == s@.len(),
            i <= n,
            forall|j: int| 0 <= j < i ==> s@[j] == '.',
        decreases n - i,
    {
        if s.get_char(i) != '.' {
            proof {
                lemma_trim_leading_dots(s@, i as int);
            }
            return s.substring_char(i, n);
        }
        i = i + 1;
    }
    proof {
        lemma_trim_leading_dots(s@, n as int);
    }
    s.substring_char(n, n)
}

impl FieldDescriptorProto {
    /// Whether the field is repeated.
    pub fn is_repeated(&self) -> (r: bool)
        ensures
            r == spec_is_repeated(self@),
    {
        matches!(self.label, Label::Repeated)
    }

    /// Whether the field holds text.
    pub fn is_string(&self) -> (r: bool)
        ensures
            r == spec_is_string(self@),
    {
        matches!(self.field_type, FieldType::Str)
    }

    /// Whether the field holds a byte string.
    pub fn is_bytes(&self) -> (r: bool)
        ensures
            r == spec_is_bytes(self@),
    {
        matches!(self.field_type, FieldType::Bytes)
    }

    /// Whether the field holds a boolean.
    pub fn is_boolean(&self) -> (r: bool)
        ensures
            r == spec_is_boolean(self@),
    {
        matches!(self.field_type, FieldType::Bool)
    }

    /// Whether the field references an enum type.
    pub fn is_enum(&self) -> (r: bool)
        ensures
            r == spec_is_enum(self@),
    {
        matches!(self.field_type, FieldType::Enum)
    }

    /// Whether the field references a message type.
    pub fn is_message(&self) -> (r: bool)
        ensures
            r == spec_is_message(self@),
    {
        matches!(self.field_type, FieldType::Message)
    }

    /// Whether the field holds a 64-bit integer.
    pub fn is_bigint(&self) -> (r: bool)
        ensures
            r == spec_is_bigint(self@),
    {
        matches!(
            self.field_type,
            FieldType::Int64 | FieldType::Uint64 | FieldType::Sint64 | FieldType::Fixed64
                | FieldType::Sfixed64
        )
    }

    /// Whether the field holds a 32-bit integer.
    pub fn is_integer(&self) -> (r: bool)
        ensures
            r == spec_is_integer(self@),
    {
        matches!(
            self.field_type,
            FieldType::Int32 | FieldType::Uint32 | FieldType::Sint32 | FieldType::Fixed32
                | FieldType::Sfixed32
        )
    }

    /// Whether the field holds any numeric value.
    pub fn is_number(&self) -> (r: bool)
        ensures
            r == spec_is_number(self@),
    {
        self.is_bigint() || self.is_integer() || matches!(
            self.field_type,
            FieldType::Float | FieldType::Double
        )
    }

    /// Whether the field is eligible for packed wire encoding.
    pub fn is_packed(&self, _ctx: &Context) -> (r: bool)
        ensures
            r == spec_is_packed(self@),
    {
        self.is_repeated() && (self.is_number() || self.is_boolean() || self.is_enum())
    }

    /// Whether the field is a map field: meaningful only after the
    /// registration pass has completed.
    pub fn is_map(&self, ctx: &Context) -> (r: bool)
        ensures
            r == spec_is_map(self@, ctx@.map_type_reg),
    {
        if !self.is_message() {
            return false;
        }
        let d = ctx.get_map_type(self.type_ref());
        d.is_some()
    }

    /// Whether the field references a well-known wrapper type.
    pub fn is_well_known_message(&self) -> (r: bool)
        ensures
            r == spec_is_well_known_message(self@),
    {
        if !self.is_message() {
            return false;
        }
        let n = trim_leading_dots(self.type_ref());
        str_eq(n, "google.protobuf.BoolValue") || str_eq(n, "google.protobuf.BytesValue") || str_eq(
            n,
            "google.protobuf.DoubleValue",
        ) || str_eq(n, "google.protobuf.Duration") || str_eq(n, "google.protobuf.FieldMask")
            || str_eq(n, "google.protobuf.FloatValue") || str_eq(n, "google.protobuf.Int32Value")
            || str_eq(n, "google.protobuf.Int64Value") || str_eq(n, "google.protobuf.ListValue")
            || str_eq(n, "google.protobuf.StringValue") || str_eq(n, "google.protobuf.Timestamp")
            || str_eq(n, "google.protobuf.UInt32Value") || str_eq(n, "google.protobuf.UInt64Value")
            || str_eq(n, "google.protobuf.Value") || str_eq(n, "google.protobuf.NullValue")
    }

    /// The JSON shape of the referenced well-known wrapper type.
    pub fn json_repr_for_well_known_type(&self) -> (r: &str)
        ensures
            r@ == spec_json_repr_wkt(self@.type_ref),
    {
        let n = trim_leading_dots(self.type_ref());
        if str_eq(n, "google.protobuf.BoolValue") {
            "boolean"
        } else if str_eq(n, "google.protobuf.BytesValue") {
            "string"
        } else if str_eq(n, "google.protobuf.DoubleValue") {
            "number"
        } else if str_eq(n, "google.protobuf.Duration") {
            "string"
        } else if str_eq(n, "google.protobuf.FieldMask") {
            "string"
        } else if str_eq(n, "google.protobuf.FloatValue") {
            "number"
        } else if str_eq(n, "google.protobuf.Int32Value") {
            "number"
        } else if str_eq(n, "google.protobuf.Int64Value") {
            "number|string"
        } else if str_eq(n, "google.protobuf.ListValue") {
            "array"
        } else if str_eq(n, "google.protobuf.StringValue") {
            "string"
        } else if str_eq(n, "google.protobuf.Timestamp") {
            "string"
        } else if str_eq(n, "google.protobuf.UInt32Value") {
            "number"
        } else if str_eq(n, "google.protobuf.UInt64Value") {
            "number|string"
        } else if str_eq(n, "google.protobuf.Value") {
            "unknown"
        } else if str_eq(n, "google.protobuf.NullValue") {
            "null"
        } else {
            "object"
        }
    }
}

} // verus!
