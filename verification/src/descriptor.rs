//! The schema model the generator consumes: message, field, enum and service
//! descriptors, already parsed from their wire form by an upstream
//! collaborator. Each carries a mathematical view used by the contracts.

use vstd::prelude::*;

verus! {

/// The scalar or composite kind a field is declared with.
#[derive(Clone, Copy, PartialEq, Eq, Structural, Debug)]
pub enum FieldType {
    Double,
    Float,
    Int64,
    Uint64,
    Int32,
    Fixed64,
    Fixed32,
    Bool,
    Str,
    Message,
    Bytes,
    Uint32,
    Enum,
    Sfixed32,
    Sfixed64,
    Sint32,
    Sint64,
}

/// The repetition label of a field.
#[derive(Clone, Copy, PartialEq, Eq, Structural, Debug)]
pub enum Label {
    Optional,
    Required,
    Repeated,
}

/// One schema field: name, wire number, kind, repetition label, referenced
/// type name (for message- and enum-typed fields), optional explicit JSON
/// name, and optional oneof-group index. Immutable once read from the schema.
#[derive(Debug)]
pub struct FieldDescriptorProto {
    pub name: String,
    pub number: i32,
    pub field_type: FieldType,
    pub label: Label,
    pub type_ref: String,
    pub json_name: Option<String>,
    pub oneof_index: Option<i32>,
}

/// The model of a field descriptor.
pub struct FieldDescriptorProtoV {
    pub name: Seq<char>,
    pub number: i32,
    pub field_type: FieldType,
    pub label: Label,
    pub type_ref: Seq<char>,
    pub json_name: Option<Seq<char>>,
    pub oneof_index: Option<i32>,
}

impl View for FieldDescriptorProto {
    type V = FieldDescriptorProtoV;

    open spec fn view(&self) -> FieldDescriptorProtoV {
        FieldDescriptorProtoV {
            name: self.name@,
            number: self.number,
            field_type: self.field_type,
            label: self.label,
            type_ref: self.type_ref@,
            json_name: match self.json_name {
                Some(ref s) => Some(s@),
                None => None,
            },
            oneof_index: self.oneof_index,
        }
    }
}

impl DeepView for FieldDescriptorProto {
    type V = FieldDescriptorProtoV;

    open spec fn deep_view(&self) -> FieldDescriptorProtoV {
        self.view()
    }
}

/// The views of a sequence of field descriptors.
pub open spec fn view_fields(fs: Seq<FieldDescriptorProto>) -> Seq<FieldDescriptorProtoV> {
    fs.map_values(|f: FieldDescriptorProto| f@)
}

impl Clone for FieldDescriptorProto {
    fn clone(&self) -> (res: Self)
        ensures
            res@ == self@,
    {
        FieldDescriptorProto {
            name: self.name.clone(),
            number: self.number,
            field_type: self.field_type,
            label: self.label,
            type_ref: self.type_ref.clone(),
            json_name: match self.json_name {
                Some(ref s) => Some(s.clone()),
                None => None,
            },
            oneof_index: self.oneof_index,
        }
    }
}

impl FieldDescriptorProto {
    /// The declared field name.
    pub fn name(&self) -> (r: &str)
        ensures
            r@ == self@.name,
    {
        self.name.as_str()
    }

    /// The wire number.
    pub fn number(&self) -> (r: i32)
        ensures
            r == self@.number,
    {
        self.number
    }

    /// The declared kind.
    pub fn type_(&self) -> (r: FieldType)
        ensures
            r == self@.field_type,
    {
        self.field_type
    }

    /// The fully qualified name of the referenced type, for message- and
    /// enum-typed fields; empty otherwise.
    pub fn type_ref(&self) -> (r: &str)
        ensures
            r@ == self@.type_ref,
    {
        self.type_ref.as_str()
    }

    /// Whether an explicit wire-JSON name was declared.
    pub fn has_json_name(&self) -> (r: bool)
        ensures
            r == self@.json_name is Some,
    {
        self.json_name.is_some()
    }

    /// The explicit wire-JSON name, or empty when none was declared.
    pub fn json_name(&self) -> (r: &str)
        ensures
            match self@.json_name {
                Some(s) => r@ == s,
                None => r@ == Seq::<char>::empty(),
            },
    {
        match self.json_name {
            Some(ref s) => s.as_str(),
            None => {
                proof {
                    reveal_strlit("");
                    assert(""@ =~= Seq::<char>::empty());
                }
                ""
            },
        }
    }

    /// Whether the field belongs to a oneof group.
    pub fn has_oneof_index(&self) -> (r: bool)
        ensures
            r == self@.oneof_index is Some,
    {
        self.oneof_index.is_some()
    }

    /// The oneof-group index, or zero when the field is in no group.
    pub fn oneof_index(&self) -> (r: i32)
        ensures
            match self@.oneof_index {
                Some(i) => r == i,
                None => r == 0,
            },
    {
        match self.oneof_index {
            Some(i) => i,
            None => 0,
        }
    }
}

/// One message type: its name, its fields in declaration order, and whether it
/// is the synthetic two-field entry message backing a map field.
#[derive(Debug)]
pub struct DescriptorProto {
    pub name: String,
    pub field: Vec<FieldDescriptorProto>,
    pub options_map_entry: bool,
}

/// The model of a message descriptor.
pub struct DescriptorProtoV {
    pub name: Seq<char>,
    pub field: Seq<FieldDescriptorProtoV>,
    pub options_map_entry: bool,
}

impl View for DescriptorProto {
    type V = DescriptorProtoV;

    open spec fn view(&self) -> DescriptorProtoV {
        DescriptorProtoV {
            name: self.name@,
            field: view_fields(self.field@),
            options_map_entry: self.options_map_entry,
        }
    }
}

impl DeepView for DescriptorProto {
    type V = DescriptorProtoV;

    open spec fn deep_view(&self) -> DescriptorProtoV {
        self.view()
    }
}

impl Clone for DescriptorProto {
    fn clone(&self) -> (res: Self)
        ensures
            res@ == self@,
    {
        let mut fields: Vec<FieldDescriptorProto> = Vec::new();
        let mut i: usize = 0;
        while i < self.field.len()
            invariant
                i <= self.field@.len(),
                fields@.len() == i,
                forall|j: int| 0 <= j < i ==> fields@[j]@ == self.field@[j]@,
            decreases self.field@.len() - i,
        {
            fields.push(self.field[i].clone());
            i = i + 1;
        }
        let res = DescriptorProto {
            name: self.name.clone(),
            field: fields,
            options_map_entry: self.options_map_entry,
        };
        proof {
            assert(view_fields(res.field@) =~= view_fields(self.field@));
        }
        res
    }
}

impl DescriptorProto {
    /// The message name.
    pub fn name(&self) -> (r: &str)
        ensures
            r@ == self@.name,
    {
        self.name.as_str()
    }

    /// Whether this message is a synthetic map-entry type.
    pub fn map_entry(&self) -> (r: bool)
        ensures
            r == self@.options_map_entry,
    {
        self.options_map_entry
    }
}

/// One declared member of an enum type.
#[derive(Debug)]
pub struct EnumValueDescriptorProto {
    pub name: String,
    pub number: i32,
}

/// The model of an enum member.
pub struct EnumValueDescriptorProtoV {
    pub name: Seq<char>,
    pub number: i32,
}

impl View for EnumValueDescriptorProto {
    type V = EnumValueDescriptorProtoV;

    open spec fn view(&self) -> EnumValueDescriptorProtoV {
        EnumValueDescriptorProtoV { name: self.name@, number: self.number }
    }
}

impl EnumValueDescriptorProto {
    /// The member's numeric value.
    pub fn number(&self) -> (r: i32)
        ensures
            r == self@.number,
    {
        self.number
    }
}

/// One enum type: its name and its members in declaration order.
#[derive(Debug)]
pub struct EnumDescriptorProto {
    pub name: String,
    pub value: Vec<EnumValueDescriptorProto>,
}

/// The model of an enum descriptor.
pub struct EnumDescriptorProtoV {
    pub name: Seq<char>,
    pub value: Seq<EnumValueDescriptorProtoV>,
}

impl View for EnumDescriptorProto {
    type V = EnumDescriptorProtoV;

    open spec fn view(&self) -> EnumDescriptorProtoV {
        EnumDescriptorProtoV {
            name: self.name@,
            value: self.value@.map_values(|v: EnumValueDescriptorProto| v@),
        }
    }
}

impl EnumDescriptorProto {
    /// The enum name.
    pub fn name(&self) -> (r: &str)
        ensures
            r@ == self@.name,
    {
        self.name.as_str()
    }
}

/// One compilation unit: its path-like name and its optional package.
#[derive(Debug)]
pub struct FileDescriptorProto {
    pub name: String,
    pub package: Option<String>,
}

/// The model of a file descriptor.
pub struct FileDescriptorProtoV {
    pub name: Seq<char>,
    pub package: Option<Seq<char>>,
}

impl View for FileDescriptorProto {
    type V = FileDescriptorProtoV;

    open spec fn view(&self) -> FileDescriptorProtoV {
        FileDescriptorProtoV {
            name: self.name@,
            package: match self.package {
                Some(ref s) => Some(s@),
                None => None,
            },
        }
    }
}

impl FileDescriptorProto {
    /// Whether the unit declares a package.
    pub fn has_package(&self) -> (r: bool)
        ensures
            r == self@.package is Some,
    {
        self.package.is_some()
    }

    /// The declared package, or empty when none was declared.
    pub fn package(&self) -> (r: &str)
        ensures
            match self@.package {
                Some(s) => r@ == s,
                None => r@ == Seq::<char>::empty(),
            },
    {
        match self.package {
            Some(ref s) => s.as_str(),
            None => {
                proof {
                    reveal_strlit("");
                    assert(""@ =~= Seq::<char>::empty());
                }
                ""
            },
        }
    }
}

/// One service method, at the interface the stub generator consumes.
#[derive(Debug)]
pub struct MethodDescriptorProto {
    pub name: String,
    pub input_type: String,
    pub output_type: String,
}

/// One service declaration, at the interface the stub generator consumes.
#[derive(Debug)]
pub struct ServiceDescriptorProto {
    pub name: String,
    pub method: Vec<MethodDescriptorProto>,
}

} // verus!
