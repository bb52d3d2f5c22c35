//! The compiler session: the type, map-entry and leading-enum-member
//! registries, the per-unit namespace stack and pending import table, and the
//! resolution of type references across compilation units through relative
//! import paths. The registries are populated in full by a registration pass
//! before any generation starts; each unit's generation then works on a fork
//! holding its own import table and namespace stack.
//!
//! The registries are carried by value: a fork or descent receives a copy
//! that is equal at that moment and independent afterwards, which the
//! contracts state exactly. Under the two-phase lifecycle this is enough:
//! the registration pass threads a single context and hands out forks only
//! once the registries are complete, so every fork reads the same frozen
//! registries, and no registration is ever made through a generation-phase
//! fork.

use vstd::prelude::*;
use vstd::string::*;
use crate::ast::ImportDecl;
use crate::ast::ImportDeclV;
use crate::ast::ModuleItem;
use crate::ast::ModuleItemV;
use crate::ast::view_module_item;
use crate::ast::view_module_items;
use crate::descriptor::DescriptorProto;
use crate::descriptor::DescriptorProtoV;
use crate::descriptor::EnumDescriptorProto;
use crate::descriptor::FileDescriptorProto;
use crate::options::Options;
use crate::options::OptionsV;
use crate::registry::StrMap;
use crate::registry::inserted;
use crate::registry::lookup;
use crate::registry::unique_keys;
use crate::strutil::file_name_of;
use crate::strutil::join_strings;
use crate::strutil::lemma_rfind_is_last;
use crate::strutil::parent_of;
use crate::strutil::path_join;
use crate::strutil::replace_char;
use crate::strutil::rfind_char;
use crate::strutil::spec_replace_char;
use crate::strutil::spec_rfind;
use crate::strutil::vec_contains_str;
use crate::strutil::spec_file_name;
use crate::strutil::spec_join;
use crate::strutil::spec_parent;
use crate::strutil::spec_path_join;
use crate::strutil::str_concat;
use crate::strutil::str_eq;
use crate::strutil::str_starts_with;
use crate::strutil::clone_string_vec;

verus! {

/// The syntax variant a compilation unit was declared with; it decides the
/// default-value semantics.
#[derive(PartialEq, Eq, Structural, Clone, Copy, Debug)]
pub enum Syntax {
    Proto3,
    Proto2,
    Unspecified,
}

impl Syntax {
    /// The variant named by a unit's syntax string: the proto3 marker names
    /// the third revision, the proto2 marker and the empty string name the
    /// second, and anything else is rejected.
    pub fn from_str(input: &str) -> (r: Result<Syntax, ()>)
        ensures
            input@ == "proto3"@ ==> r == Ok::<Syntax, ()>(Syntax::Proto3),
            input@ == "proto2"@ || input@ == ""@ ==> r == Ok::<Syntax, ()>(Syntax::Proto2),
            input@ != "proto3"@ && input@ != "proto2"@ && input@ != ""@ ==> r == Err::<
                Syntax,
                (),
            >(()),
    {
        proof {
            reveal_strlit("proto3");
            reveal_strlit("proto2");
            reveal_strlit("");
            assert("proto3"@.len() == 6);
            assert("proto2"@.len() == 6);
            assert(""@.len() == 0);
            assert("proto3"@[5] == '3');
            assert("proto2"@[5] == '2');
        }
        if str_eq(input, "proto3") {
            Ok(Syntax::Proto3)
        } else if str_eq(input, "proto2") || str_eq(input, "") {
            Ok(Syntax::Proto2)
        } else {
            Err(())
        }
    }
}

/// The relative path from `base` to `path`, as the path-difference routine of
/// the pathdiff crate computes it: a function of the two paths alone.
pub uninterp spec fn path_diff(path: Seq<char>, base: Seq<char>) -> Option<Seq<char>>;

/// Relies on pathdiff::diff_paths: computes the relative path from the second
/// directory to the first, `None` when the first is relative and the second
/// absolute or when the walk backs out of an unknown parent.
#[verifier::external_body]
fn diff_paths_str(path: &str, base: &str) -> (r: Option<String>)
    ensures
        r.deep_view() == path_diff(path@, base@),
{
    match pathdiff::diff_paths(path, base) {
        Some(p) => match p.to_str() {
            Some(s) => Some(s.to_owned()),
            None => None,
        },
        None => None,
    }
}

/// Whether a relative path begins with an explicit current-directory
/// component.
pub open spec fn spec_has_cur_dir_prefix(p: Seq<char>) -> bool {
    p == "."@ || (p.len() >= 2 && p.subrange(0, 2) == "./"@)
}

/// The path from which unit `to` imports unit `from`: the difference of their
/// directories, prefixed with the current directory when it does not itself
/// begin there, joined with `from`'s file part.
pub open spec fn spec_resolve_relative(from: Seq<char>, to: Seq<char>) -> Seq<char> {
    let root = match path_diff(spec_parent(from), spec_parent(to)) {
        None => "./"@,
        Some(cr) => if cr.len() == 0 {
            "./"@
        } else if !spec_has_cur_dir_prefix(cr) {
            "./"@ + cr
        } else {
            cr
        },
    };
    spec_path_join(root, spec_file_name(from))
}

/// The relative path under which the unit `to` reaches the unit `from`.
pub fn resolve_relative(from: &str, to: &str) -> (r: String)
    ensures
        r@ == spec_resolve_relative(from@, to@),
{
    proof {
        reveal_strlit("./");
        assert("./"@.len() == 2);
    }
    let from_parent = parent_of(from);
    let to_parent = parent_of(to);
    let common_root = diff_paths_str(from_parent.as_str(), to_parent.as_str());
    let root: String = match common_root {
        None => "./".to_owned(),
        Some(cr) => {
            if cr.unicode_len() == 0 {
                "./".to_owned()
            } else if !(str_eq(cr.as_str(), ".") || str_starts_with(cr.as_str(), "./")) {
                str_concat("./", cr.as_str())
            } else {
                cr
            }
        },
    };
    let name = file_name_of(from);
    path_join(root.as_str(), name.as_str())
}

/// The per-unit generation context, carrying the session-wide registries.
pub struct Context {
    /// The generator options.
    pub options: Options,
    /// The syntax variant of the unit being generated.
    pub syntax: Syntax,
    namespace: Vec<String>,
    name: String,
    imports: Vec<ImportDecl>,
    import_identifier_map: StrMap<Vec<String>>,
    type_reg: StrMap<String>,
    map_type_reg: StrMap<DescriptorProto>,
    leading_enum_member_reg: StrMap<i32>,
}

/// The model of a context.
#[verifier::ext_equal]
pub struct ContextV {
    pub options: OptionsV,
    pub syntax: Syntax,
    pub namespace: Seq<Seq<char>>,
    pub name: Seq<char>,
    pub imports: Seq<ImportDeclV>,
    pub import_identifier_map: Seq<(Seq<char>, Seq<Seq<char>>)>,
    pub type_reg: Seq<(Seq<char>, Seq<char>)>,
    pub map_type_reg: Seq<(Seq<char>, DescriptorProtoV)>,
    pub leading_enum_member_reg: Seq<(Seq<char>, i32)>,
}

impl View for Context {
    type V = ContextV;

    closed spec fn view(&self) -> ContextV {
        ContextV {
            options: self.options@,
            syntax: self.syntax,
            namespace: self.namespace.deep_view(),
            name: self.name@,
            imports: self.imports.deep_view(),
            import_identifier_map: self.import_identifier_map@,
            type_reg: self.type_reg@,
            map_type_reg: self.map_type_reg@,
            leading_enum_member_reg: self.leading_enum_member_reg@,
        }
    }
}

/// Whether two contexts agree on everything generation reads: options,
/// syntax, namespace, unit name and the three registries. Only the import
/// state may differ.
pub open spec fn ro_eq(a: ContextV, b: ContextV) -> bool {
    &&& a.options == b.options
    &&& a.syntax == b.syntax
    &&& a.namespace == b.namespace
    &&& a.name == b.name
    &&& a.type_reg == b.type_reg
    &&& a.map_type_reg == b.map_type_reg
    &&& a.leading_enum_member_reg == b.leading_enum_member_reg
}

/// Well-formedness of a context: every registry has unique keys.
pub open spec fn ctx_wf(c: ContextV) -> bool {
    &&& unique_keys(c.type_reg)
    &&& unique_keys(c.map_type_reg)
    &&& unique_keys(c.leading_enum_member_reg)
    &&& unique_keys(c.import_identifier_map)
}

/// A child context: the same unit, namespace and registries (copied, equal
/// at this moment), with a fresh import state.
pub open spec fn spec_cloned(c: ContextV) -> ContextV {
    ContextV {
        imports: Seq::empty(),
        import_identifier_map: Seq::empty(),
        ..c
    }
}

/// The fully qualified name of `name` under the namespace stack `ns`: a
/// leading dot, the stack joined with dots (followed by one more dot when the
/// stack is not empty), then `name`.
pub open spec fn spec_calculate_type_name(ns: Seq<Seq<char>>, name: Seq<char>) -> Seq<char> {
    if ns.len() > 0 {
        "."@ + spec_join(ns, "."@) + "."@ + name
    } else {
        "."@ + name
    }
}

/// A copy of a vector of import declarations with the same contents.
fn clone_imports(v: &Vec<ImportDecl>) -> (r: Vec<ImportDecl>)
    ensures
        r.deep_view() == v.deep_view(),
{
    let mut out: Vec<ImportDecl> = Vec::new();
    let mut i: usize = 0;
    while i < v.len()
        invariant
            i <= v@.len(),
            out@.len() == i,
            forall|j: int| 0 <= j < i ==> out@[j]@ == v@[j]@,
        decreases v@.len() - i,
    {
        out.push(v[i].clone());
        i = i + 1;
    }
    proof {
        assert(out.deep_view() =~= v.deep_view());
    }
    out
}

impl Clone for Context {
    /// A child context for the same unit: fresh import state, and its own
    /// copy of the registries, equal to the parent's at this moment.
    fn clone(&self) -> (res: Self)
        ensures
            res@ == spec_cloned(self@),
    {
        let res = Context {
            options: self.options.clone(),
            syntax: self.syntax,
            namespace: clone_string_vec(&self.namespace),
            name: self.name.clone(),
            imports: Vec::new(),
            import_identifier_map: StrMap::new(),
            type_reg: self.type_reg.duplicate(),
            map_type_reg: self.map_type_reg.duplicate(),
            leading_enum_member_reg: self.leading_enum_member_reg.duplicate(),
        };
        proof {
            assert(res.imports.deep_view() =~= Seq::<ImportDeclV>::empty());
            assert(res@ =~= spec_cloned(self@));
        }
        res
    }
}

impl Context {
    /// The syntax variant of the unit being generated.
    pub fn syntax(&self) -> (r: Syntax)
        ensures
            r == self@.syntax,
    {
        self.syntax
    }

    /// The generator options.
    pub fn options(&self) -> (r: &Options)
        ensures
            r@ == self@.options,
    {
        &self.options
    }

    /// A fresh session: empty namespace, unit name, import state and
    /// registries.
    pub fn new(options: Options, syntax: Syntax) -> (r: Self)
        ensures
            r@ == (ContextV {
                options: options@,
                syntax: syntax,
                namespace: Seq::empty(),
                name: Seq::empty(),
                imports: Seq::empty(),
                import_identifier_map: Seq::empty(),
                type_reg: Seq::empty(),
                map_type_reg: Seq::empty(),
                leading_enum_member_reg: Seq::empty(),
            }),
            ctx_wf(r@),
    {
        let r = Context {
            options,
            syntax,
            namespace: Vec::new(),
            name: String::new(),
            imports: Vec::new(),
            import_identifier_map: StrMap::new(),
            type_reg: StrMap::new(),
            map_type_reg: StrMap::new(),
            leading_enum_member_reg: StrMap::new(),
        };
        proof {
            assert(r.namespace.deep_view() =~= Seq::<Seq<char>>::empty());
            assert(r.imports.deep_view() =~= Seq::<ImportDeclV>::empty());
        }
        r
    }

    /// A context for generating the unit `name` under syntax `syntax`: it
    /// carries this session's registries, as they stand now, and starts with
    /// no imports. Later registrations through either context stay its own;
    /// fork only once the registration pass is complete.
    pub fn fork(&self, name: String, syntax: Syntax) -> (res: Self)
        ensures
            res@ == (ContextV { name: name@, syntax: syntax, ..spec_cloned(self@) }),
    {
        let mut copy = self.clone();
        copy.name = name;
        copy.syntax = syntax;
        proof {
            assert(copy@ =~= (ContextV { name: copy@.name, syntax: copy@.syntax, ..spec_cloned(
                self@,
            ) }));
        }
        copy
    }

    /// The context one package level deeper: the namespace stack gains `ns`,
    /// and everything else — registries, recorded imports and the pending
    /// import table included — is carried over, as it stands now.
    pub fn descend(&self, ns: String) -> (res: Self)
        ensures
            res@ == (ContextV { namespace: self@.namespace.push(ns@), ..self@ }),
    {
        let mut namespace = clone_string_vec(&self.namespace);
        let ghost before = namespace.deep_view();
        namespace.push(ns);
        proof {
            assert(namespace.deep_view() =~= self@.namespace.push(ns@));
        }
        let res = Context {
            options: self.options.clone(),
            syntax: self.syntax,
            namespace,
            name: self.name.clone(),
            imports: clone_imports(&self.imports),
            import_identifier_map: self.import_identifier_map.duplicate(),
            type_reg: self.type_reg.duplicate(),
            map_type_reg: self.map_type_reg.duplicate(),
            leading_enum_member_reg: self.leading_enum_member_reg.duplicate(),
        };
        proof {
            assert(res@ =~= (ContextV { namespace: self@.namespace.push(ns@), ..self@ }));
        }
        res
    }

    /// The namespace stack joined with dots.
    pub fn get_namespace(&self) -> (r: String)
        ensures
            r@ == spec_join(self@.namespace, "."@),
    {
        join_strings(&self.namespace, ".")
    }

    /// The fully qualified name of `name` under the current namespace.
    pub fn calculate_type_name(&self, name: &str) -> (r: String)
        ensures
            r@ == spec_calculate_type_name(self@.namespace, name@),
    {
        let mut fns = String::from_str(".");
        if self.namespace.len() > 0 {
            let joined = join_strings(&self.namespace, ".");
            fns.append(joined.as_str());
            fns.append(".");
        }
        fns.append(name);
        fns
    }

    /// Record that the current unit defines the type `name`.
    pub fn register_type_name(&mut self, name: &str)
        ensures
            inserted(
                old(self)@.type_reg,
                final(self)@.type_reg,
                spec_calculate_type_name(old(self)@.namespace, name@),
                old(self)@.name,
            ),
            final(self)@ == (ContextV { type_reg: final(self)@.type_reg, ..old(self)@ }),
    {
        let fns = self.calculate_type_name(name);
        let owner = self.name.clone();
        self.type_reg.insert(fns, owner);
        proof {
            assert(self@ =~= (ContextV { type_reg: self@.type_reg, ..old(self)@ }));
        }
    }

    /// Record a synthetic map-entry message under its fully qualified name.
    pub fn register_map_type(&mut self, descriptor: &DescriptorProto)
        ensures
            inserted(
                old(self)@.map_type_reg,
                final(self)@.map_type_reg,
                spec_calculate_type_name(old(self)@.namespace, descriptor@.name),
                descriptor@,
            ),
            final(self)@ == (ContextV { map_type_reg: final(self)@.map_type_reg, ..old(self)@ }),
    {
        let fns = self.calculate_type_name(descriptor.name());
        self.map_type_reg.insert(fns, descriptor.clone());
        proof {
            assert(self@ =~= (ContextV { map_type_reg: self@.map_type_reg, ..old(self)@ }));
        }
    }

    /// The registered map-entry message for `name`, if any.
    pub fn get_map_type(&self, name: &str) -> (r: Option<DescriptorProto>)
        ensures
            match r {
                Some(d) => lookup(self@.map_type_reg, name@) == Some(d@),
                None => lookup(self@.map_type_reg, name@) is None,
            },
    {
        let res = self.map_type_reg.get(name);
        match res {
            Some(descriptor) => Some(descriptor.clone()),
            None => None,
        }
    }

    /// Record the numeric value of the first declared member of an enum,
    /// which supplies a valid default for units of the second syntax
    /// revision.
    pub fn register_leading_enum_member(&mut self, descriptor: &EnumDescriptorProto)
        requires
            descriptor@.value.len() > 0,
        ensures
            inserted(
                old(self)@.leading_enum_member_reg,
                final(self)@.leading_enum_member_reg,
                spec_calculate_type_name(old(self)@.namespace, descriptor@.name),
                descriptor@.value[0].number,
            ),
            final(self)@ == (ContextV {
                leading_enum_member_reg: final(self)@.leading_enum_member_reg,
                ..old(self)@
            }),
    {
        let fns = self.calculate_type_name(descriptor.name());
        let first = &descriptor.value[0];
        let number = first.number();
        self.leading_enum_member_reg.insert(fns, number);
        proof {
            assert(self@ =~= (ContextV {
                leading_enum_member_reg: self@.leading_enum_member_reg,
                ..old(self)@
            }));
        }
    }

    /// The recorded leading member value of the enum `name`, which must have
    /// been registered.
    pub fn get_leading_enum_member(&self, name: &str) -> (r: i32)
        requires
            lookup(self@.leading_enum_member_reg, name@) is Some,
        ensures
            lookup(self@.leading_enum_member_reg, name@) == Some(r),
    {
        let res = self.leading_enum_member_reg.get(name);
        match res {
            Some(num) => *num,
            None => {
                proof {
                    assert(false);
                }
                0
            },
        }
    }

    /// The unit that defines the type `name`, if any was registered.
    pub fn find_type_provider(&self, name: &String) -> (r: Option<String>)
        ensures
            r.deep_view() == lookup(self@.type_reg, name@),
    {
        let res = self.type_reg.get(name.as_str());
        match res {
            Some(val) => Some(val.clone()),
            None => None,
        }
    }

    /// The identifier under which the type `name` is referred to.
    pub fn normalize_type_name(&self, name: &str) -> (r: String)
        ensures
            r@ == spec_normalize_type_name(self@.options.with_namespace, name@),
    {
        let n = name.unicode_len();
        let stripped: &str = if n > 0 && name.get_char(0) == '.' {
            name.substring_char(1, n)
        } else {
            name
        };
        if !self.options.with_namespace {
            match rfind_char(stripped, '.') {
                Some(ind) => {
                    proof {
                        lemma_rfind_is_last(stripped@, '.');
                    }
                    stripped.substring_char(ind + 1, stripped.unicode_len()).to_owned()
                },
                None => stripped.to_owned(),
            }
        } else {
            replace_char(stripped, '.', '_')
        }
    }

    /// The declared name of the message `name` in the emitted unit.
    pub fn normalize_name(&self, name: &str) -> (r: String)
        ensures
            r@ == spec_normalize_name(self@, name@),
    {
        let mut ns: Vec<String> = if self.options.with_namespace {
            clone_string_vec(&self.namespace)
        } else {
            Vec::new()
        };
        let ghost before = ns.deep_view();
        ns.push(name.to_owned());
        proof {
            if self.options.with_namespace {
                assert(ns.deep_view() =~= self@.namespace.push(name@));
            } else {
                assert(ns.deep_view() =~= seq![name@]);
            }
        }
        let joined = join_strings(&ns, ".");
        replace_char(joined.as_str(), '.', '_')
    }

    /// The given items, wrapped in a namespace construct for the innermost
    /// package level when namespace wrapping is on and a package was entered.
    pub fn wrap_if_needed(&mut self, modules: Vec<ModuleItem>) -> (r: Vec<ModuleItem>)
        ensures
            final(self)@ == old(self)@,
            view_module_items(r@) == if !old(self)@.options.namespaces || old(
                self,
            )@.namespace.len() == 0 {
                view_module_items(modules@)
            } else {
                seq![
                    ModuleItemV::Namespace(
                        old(self)@.namespace.last(),
                        view_module_items(modules@),
                    ),
                ]
            },
    {
        if !self.options.namespaces || self.namespace.len() == 0 {
            return modules;
        }
        let last_item = self.namespace[self.namespace.len() - 1].clone();
        proof {
            assert(last_item@ == self@.namespace.last());
        }
        let mut out: Vec<ModuleItem> = Vec::new();
        out.push(ModuleItem::Namespace(last_item, modules));
        proof {
            assert(out@.drop_last() =~= Seq::<ModuleItem>::empty());
            assert(view_module_items(out@.drop_last()) =~= Seq::<ModuleItemV>::empty());
            assert(view_module_items(out@) =~= seq![view_module_item(out@.last())]);
        }
        out
    }

    /// Record that the emitted unit imports `name` from `source`.
    pub fn update_import(&mut self, name: &str, source: &str)
        ensures
            import_added(
                old(self)@.import_identifier_map,
                final(self)@.import_identifier_map,
                name@,
                source@,
            ),
            final(self)@ == (ContextV {
                import_identifier_map: final(self)@.import_identifier_map,
                ..old(self)@
            }),
    {
        let decision: Option<Vec<String>> = match self.import_identifier_map.get(source) {
            Some(names) => {
                if vec_contains_str(names, name) {
                    None
                } else {
                    let mut more = clone_string_vec(names);
                    let ghost before = more.deep_view();
                    more.push(name.to_owned());
                    proof {
                        assert(more.deep_view() =~= before.push(name@));
                    }
                    Some(more)
                }
            },
            None => {
                let mut fresh: Vec<String> = Vec::new();
                fresh.push(name.to_owned());
                proof {
                    assert(fresh.deep_view() =~= seq![name@]);
                }
                Some(fresh)
            },
        };
        match decision {
            Some(names) => {
                self.import_identifier_map.insert(source.to_owned(), names);
                proof {
                    assert(self@ =~= (ContextV {
                        import_identifier_map: self@.import_identifier_map,
                        ..old(self)@
                    }));
                }
            },
            None => {
                proof {
                    assert(self@ =~= (ContextV {
                        import_identifier_map: self@.import_identifier_map,
                        ..old(self)@
                    }));
                }
            },
        }
    }

    /// The identifier under which a whole source is imported. Import aliasing
    /// is switched off: every source is referred to by the first alias.
    pub fn get_import(&self, _source: &str) -> (r: String)
        ensures
            r@ == "imp_0"@,
    {
        String::from_str("imp_0")
    }

    /// Record an import of `specifier` from `source` once: a source already in
    /// the import table is left as it is.
    fn get_runtime_import(&mut self, source: &str, specifier: &str)
        ensures
            lookup(old(self)@.import_identifier_map, source@) is Some ==> final(self)@ == old(
                self,
            )@,
            lookup(old(self)@.import_identifier_map, source@) is None ==> {
                &&& final(self)@.imports == old(self)@.imports.push(
                    ImportDeclV { specifier: specifier@, src: source@ },
                )
                &&& inserted(
                    old(self)@.import_identifier_map,
                    final(self)@.import_identifier_map,
                    source@,
                    Seq::<Seq<char>>::empty(),
                )
                &&& final(self)@ == (ContextV {
                    imports: final(self)@.imports,
                    import_identifier_map: final(self)@.import_identifier_map,
                    ..old(self)@
                })
            },
    {
        if !self.import_identifier_map.contains_key(source) {
            let ghost before = self.imports.deep_view();
            self.imports.push(ImportDecl { specifier: specifier.to_owned(), src: source.to_owned() });
            let empty_names: Vec<String> = Vec::new();
            proof {
                assert(self.imports.deep_view() =~= before.push(
                    ImportDeclV { specifier: specifier@, src: source@ },
                ));
                assert(empty_names.deep_view() =~= Seq::<Seq<char>>::empty());
            }
            self.import_identifier_map.insert(source.to_owned(), empty_names);
            proof {
                assert(self@ =~= (ContextV {
                    imports: self@.imports,
                    import_identifier_map: self@.import_identifier_map,
                    ..old(self)@
                }));
            }
        }
    }

    /// Record the import of the transferable-collections runtime from
    /// `source` once.
    pub fn get_sendable_import(&mut self, source: &str)
        ensures
            lookup(old(self)@.import_identifier_map, source@) is Some ==> final(self)@ == old(
                self,
            )@,
            lookup(old(self)@.import_identifier_map, source@) is None ==> {
                &&& final(self)@.imports == old(self)@.imports.push(
                    ImportDeclV { specifier: "collections"@, src: source@ },
                )
                &&& inserted(
                    old(self)@.import_identifier_map,
                    final(self)@.import_identifier_map,
                    source@,
                    Seq::<Seq<char>>::empty(),
                )
                &&& final(self)@ == (ContextV {
                    imports: final(self)@.imports,
                    import_identifier_map: final(self)@.import_identifier_map,
                    ..old(self)@
                })
            },
    {
        self.get_runtime_import(source, "collections")
    }

    /// Record the import of the wire reader and writer from `source` once.
    pub fn get_protobuf_import(&mut self, source: &str)
        ensures
            lookup(old(self)@.import_identifier_map, source@) is Some ==> final(self)@ == old(
                self,
            )@,
            lookup(old(self)@.import_identifier_map, source@) is None ==> {
                &&& final(self)@.imports == old(self)@.imports.push(
                    ImportDeclV { specifier: "BinaryReader, BinaryWriter"@, src: source@ },
                )
                &&& inserted(
                    old(self)@.import_identifier_map,
                    final(self)@.import_identifier_map,
                    source@,
                    Seq::<Seq<char>>::empty(),
                )
                &&& final(self)@ == (ContextV {
                    imports: final(self)@.imports,
                    import_identifier_map: final(self)@.import_identifier_map,
                    ..old(self)@
                })
            },
    {
        self.get_runtime_import(source, "BinaryReader, BinaryWriter")
    }

    /// Record the import of the base64 helpers from `source` once.
    pub fn get_base64_import(&mut self, source: &str)
        ensures
            lookup(old(self)@.import_identifier_map, source@) is Some ==> final(self)@ == old(
                self,
            )@,
            lookup(old(self)@.import_identifier_map, source@) is None ==> {
                &&& final(self)@.imports == old(self)@.imports.push(
                    ImportDeclV { specifier: "toUint8Array, fromUint8Array"@, src: source@ },
                )
                &&& inserted(
                    old(self)@.import_identifier_map,
                    final(self)@.import_identifier_map,
                    source@,
                    Seq::<Seq<char>>::empty(),
                )
                &&& final(self)@ == (ContextV {
                    imports: final(self)@.imports,
                    import_identifier_map: final(self)@.import_identifier_map,
                    ..old(self)@
                })
            },
    {
        self.get_runtime_import(source, "toUint8Array, fromUint8Array")
    }

    /// Materialize every accumulated import into the final import section and
    /// clear the pending state: the declarations already recorded, then one
    /// per import-table entry with at least one name.
    pub fn drain_imports(&mut self) -> (r: Vec<ModuleItem>)
        ensures
            view_module_items(r@) == spec_drained(old(self)@).map_values(
                |d: ImportDeclV| ModuleItemV::Import(d),
            ),
            final(self)@ == (ContextV {
                imports: Seq::empty(),
                import_identifier_map: Seq::empty(),
                ..old(self)@
            }),
    {
        let ghost old_map = self.import_identifier_map@;
        let ghost old_imports = self.imports.deep_view();
        let n = self.import_identifier_map.len();
        let mut i: usize = 0;
        while i < n
            invariant
                i <= n,
                n == self.import_identifier_map@.len(),
                self.import_identifier_map@ == old_map,
                self@.options == old(self)@.options,
                self@.syntax == old(self)@.syntax,
                self@.namespace == old(self)@.namespace,
                self@.name == old(self)@.name,
                self@.type_reg == old(self)@.type_reg,
                self@.map_type_reg == old(self)@.map_type_reg,
                self@.leading_enum_member_reg == old(self)@.leading_enum_member_reg,
                old_map == old(self)@.import_identifier_map,
                old_imports == old(self)@.imports,
                self.imports.deep_view() == old_imports + spec_pending_imports(
                    old_map.subrange(0, i as int),
                ),
            decreases n - i,
        {
            let ghost prefix = old_map.subrange(0, i as int);
            let names = self.import_identifier_map.value_at(i);
            if names.len() > 0 {
                let joined = join_strings(names, ", ");
                let src = self.import_identifier_map.key_at(i).to_owned();
                let ghost before = self.imports.deep_view();
                self.imports.push(ImportDecl { specifier: joined, src });
                proof {
                    assert(self.imports.deep_view() =~= before.push(
                        ImportDeclV {
                            specifier: spec_join(old_map[i as int].1, ", "@),
                            src: old_map[i as int].0,
                        },
                    ));
                }
            }
            proof {
                let post = old_map.subrange(0, i + 1 as int);
                assert(post.drop_last() =~= prefix);
                assert(post.last() == old_map[i as int]);
                if old_map[i as int].1.len() > 0 {
                    assert(spec_pending_imports(post) =~= spec_pending_imports(prefix).push(
                        ImportDeclV {
                            specifier: spec_join(old_map[i as int].1, ", "@),
                            src: old_map[i as int].0,
                        },
                    ));
                    assert(self.imports.deep_view() =~= old_imports + spec_pending_imports(post));
                } else {
                    assert(spec_pending_imports(post) =~= spec_pending_imports(prefix));
                }
            }
            i = i + 1;
        }
        proof {
            assert(old_map.subrange(0, n as int) =~= old_map);
        }
        self.import_identifier_map.clear();
        let mut imps: Vec<ModuleItem> = Vec::new();
        let m = self.imports.len();
        let ghost drained = old_imports + spec_pending_imports(old_map);
        let mut j: usize = 0;
        while j < m
            invariant
                j <= m,
                m == self.imports@.len(),
                self.imports.deep_view() == drained,
                view_module_items(imps@) == drained.subrange(0, j as int).map_values(
                    |d: ImportDeclV| ModuleItemV::Import(d),
                ),
            decreases m - j,
        {
            let ghost before = imps@;
            imps.push(ModuleItem::Import(self.imports[j].clone()));
            proof {
                crate::ast::lemma_view_module_items_pointwise(before);
                assert(imps@.drop_last() =~= before);
                assert(view_module_items(imps@) =~= view_module_items(before).push(
                    view_module_item(imps@.last()),
                ));
                assert(view_module_items(imps@) =~= drained.subrange(0, j + 1 as int).map_values(
                    |d: ImportDeclV| ModuleItemV::Import(d),
                ));
            }
            j = j + 1;
        }
        self.imports.clear();
        proof {
            assert(drained.subrange(0, m as int) =~= drained);
            assert(self.imports.deep_view() =~= Seq::<ImportDeclV>::empty());
            assert(self@ =~= (ContextV {
                imports: Seq::empty(),
                import_identifier_map: Seq::empty(),
                ..old(self)@
            }));
        }
        imps
    }

    /// Resolve the qualified type name `name`: a local identifier when the
    /// current unit defines it, and otherwise the normalized identifier,
    /// recorded as an import from the defining unit's relative path.
    pub fn lazy_type_ref(&mut self, name: &str) -> (r: String)
        requires
            lazy_pre(old(self)@, name@),
        ensures
            r@ == spec_lazy_ref_ident(old(self)@, name@),
            lazy_ref_post(old(self)@, final(self)@, name@),
    {
        let provided_by = self.find_type_provider(&name.to_owned());
        match provided_by {
            Some(provided_by) => {
                if str_eq(self.name.as_str(), provided_by.as_str()) {
                    let n = name.unicode_len();
                    if !self.options.with_namespace {
                        match rfind_char(name, '.') {
                            Some(index) => {
                                proof {
                                    lemma_rfind_is_last(name@, '.');
                                }
                                return name.substring_char(index + 1, n).to_owned();
                            },
                            None => {},
                        }
                    }
                    let stripped = name.substring_char(1, n);
                    replace_char(stripped, '.', '_')
                } else {
                    proof {
                        lemma_resolve_ends_proto(provided_by@, self@.name);
                    }
                    let rel = resolve_relative(provided_by.as_str(), self.name.as_str());
                    let rel_len = rel.unicode_len();
                    let base = rel.substring_char(0, rel_len - 6);
                    let mut import_from = base.to_owned();
                    import_from.append(self.options.import_suffix.as_str());
                    let normalized = self.normalize_type_name(name);
                    self.update_import(normalized.as_str(), import_from.as_str());
                    normalized
                }
            },
            None => {
                proof {
                    assert(false);
                }
                String::new()
            },
        }
    }
}

/// The identifier under which a type is referred to: without namespace
/// support, the part after the last dot; with it, the dotted name with its
/// dots folded to underscores. A single leading dot is removed first.
pub open spec fn spec_normalize_type_name(with_namespace: bool, name: Seq<char>) -> Seq<char> {
    let n = if name.len() > 0 && name[0] == '.' {
        name.subrange(1, name.len() as int)
    } else {
        name
    };
    if !with_namespace {
        match spec_rfind(n, '.') {
            Some(i) => n.subrange(i + 1, n.len() as int),
            None => n,
        }
    } else {
        spec_replace_char(n, '.', '_')
    }
}

/// The declared name of a message in the emitted unit: the namespace segments
/// (under namespace support) followed by the name, joined and folded to
/// underscores.
pub open spec fn spec_normalize_name(c: ContextV, name: Seq<char>) -> Seq<char> {
    let segs = if c.options.with_namespace {
        c.namespace.push(name)
    } else {
        seq![name]
    };
    spec_replace_char(spec_join(segs, "."@), '.', '_')
}

/// What recording an import of `name` from `source` does to the import table:
/// a fresh source gains a one-name entry, a known source gains `name` at the
/// end of its names unless it is already among them.
pub open spec fn import_added(
    old_m: Seq<(Seq<char>, Seq<Seq<char>>)>,
    new_m: Seq<(Seq<char>, Seq<Seq<char>>)>,
    name: Seq<char>,
    source: Seq<char>,
) -> bool {
    match lookup(old_m, source) {
        None => inserted(old_m, new_m, source, seq![name]),
        Some(names) => if names.contains(name) {
            new_m == old_m
        } else {
            inserted(old_m, new_m, source, names.push(name))
        },
    }
}

/// The import declarations pending in an import table, in table order: one
/// per entry with at least one name, its names joined with a comma.
pub open spec fn spec_pending_imports(m: Seq<(Seq<char>, Seq<Seq<char>>)>) -> Seq<ImportDeclV>
    decreases m.len(),
{
    if m.len() == 0 {
        Seq::empty()
    } else {
        spec_pending_imports(m.drop_last()) + (if m.last().1.len() > 0 {
            seq![ImportDeclV { specifier: spec_join(m.last().1, ", "@), src: m.last().0 }]
        } else {
            Seq::<ImportDeclV>::empty()
        })
    }
}

/// The import section a unit's generation ends with: the declarations already
/// recorded, then the pending ones of the import table.
pub open spec fn spec_drained(c: ContextV) -> Seq<ImportDeclV> {
    c.imports + spec_pending_imports(c.import_identifier_map)
}

/// The local identifier of a type defined by the current unit: without
/// namespace support the part after the last dot, and otherwise the
/// dot-stripped qualified name folded to underscores.
pub open spec fn spec_local_type_ref(c: ContextV, name: Seq<char>) -> Seq<char> {
    if !c.options.with_namespace && spec_rfind(name, '.') is Some {
        name.subrange(spec_rfind(name, '.')->Some_0 + 1, name.len() as int)
    } else {
        spec_replace_char(name.subrange(1, name.len() as int), '.', '_')
    }
}

/// The path under which the current unit imports from `provider`: the
/// relative path between the units with the schema-file suffix removed and
/// the configured import suffix appended.
pub open spec fn spec_import_source(c: ContextV, provider: Seq<char>) -> Seq<char> {
    let rel = spec_resolve_relative(provider, c.name);
    rel.subrange(0, rel.len() - 6) + c.options.import_suffix
}

/// What `lazy_type_ref` asks of its callers: a qualified name with its
/// leading dot, registered to some unit, and that unit either the current one
/// or named like a schema file.
pub open spec fn lazy_pre(c: ContextV, name: Seq<char>) -> bool {
    &&& name.len() > 0
    &&& name[0] == '.'
    &&& match lookup(c.type_reg, name) {
        Some(p) => p == c.name || (p.len() >= 6 && p.subrange(p.len() - 6, p.len() as int)
            == ".proto"@),
        None => false,
    }
}

/// The identifier a resolved type reference evaluates to: the local form when
/// the current unit defines the type, and the normalized qualified name
/// otherwise.
pub open spec fn spec_lazy_ref_ident(c: ContextV, name: Seq<char>) -> Seq<char> {
    if lookup(c.type_reg, name)->Some_0 == c.name {
        spec_local_type_ref(c, name)
    } else {
        spec_normalize_type_name(c.options.with_namespace, name)
    }
}

/// How resolving a type reference changes the context: not at all for a type
/// of the current unit, and otherwise only by recording the import of the
/// normalized identifier from the defining unit's relative path.
pub open spec fn lazy_ref_post(c0: ContextV, c1: ContextV, name: Seq<char>) -> bool {
    match lookup(c0.type_reg, name) {
        Some(p) => if p == c0.name {
            c1 == c0
        } else {
            &&& import_added(
                c0.import_identifier_map,
                c1.import_identifier_map,
                spec_normalize_type_name(c0.options.with_namespace, name),
                spec_import_source(c0, p),
            )
            &&& c1 == (ContextV { import_identifier_map: c1.import_identifier_map, ..c0 })
        },
        None => false,
    }
}

/// A path that ends in the schema-file suffix resolves, relative to any unit,
/// to a path that still ends in it.
proof fn lemma_resolve_ends_proto(from: Seq<char>, to: Seq<char>)
    requires
        from.len() >= 6,
        from.subrange(from.len() - 6, from.len() as int) == ".proto"@,
    ensures
        spec_resolve_relative(from, to).len() >= 6,
        spec_resolve_relative(from, to).subrange(
            spec_resolve_relative(from, to).len() - 6,
            spec_resolve_relative(from, to).len() as int,
        ) == ".proto"@,
{
    reveal_strlit(".proto");
    reveal_strlit("./");
    assert(".proto"@.len() == 6);
    assert("./"@.len() == 2);
    let file = spec_file_name(from);
    crate::strutil::lemma_rfind_is_last(from, '/');
    match spec_rfind(from, '/') {
        Some(i) => {
            if i >= from.len() - 6 {
                assert(from[i] == '/');
                assert(from[i] == ".proto"@[i - (from.len() - 6)]);
                assert(false);
            }
            assert(file == from.subrange(i + 1, from.len() as int));
            assert(file.len() >= 6);
            assert(file.subrange(file.len() - 6, file.len() as int) =~= from.subrange(
                from.len() - 6,
                from.len() as int,
            ));
        },
        None => {
            assert(file == from);
        },
    }
    assert(file.len() >= 6);
    assert(file.subrange(file.len() - 6, file.len() as int) == ".proto"@);
    let r = spec_resolve_relative(from, to);
    let root = match path_diff(spec_parent(from), spec_parent(to)) {
        None => "./"@,
        Some(cr) => if cr.len() == 0 {
            "./"@
        } else if !spec_has_cur_dir_prefix(cr) {
            "./"@ + cr
        } else {
            cr
        },
    };
    assert(r == spec_path_join(root, file));
    if root.len() == 0 {
        assert(r == file);
    } else if root.last() == '/' {
        assert(r == root + file);
        assert(r.subrange(r.len() - 6, r.len() as int) =~= file.subrange(
            file.len() - 6,
            file.len() as int,
        ));
    } else {
        assert(r == root + seq!['/'] + file);
        assert(r.subrange(r.len() - 6, r.len() as int) =~= file.subrange(
            file.len() - 6,
            file.len() as int,
        ));
    }
}

/// The context in which a unit's declarations are generated: one namespace
/// level deeper when the unit declares a package, and otherwise a plain child
/// of the given context.
pub fn descend_if_necessary(ctx: &Context, file: &FileDescriptorProto) -> (res: Context)
    ensures
        res@ == if file@.package is Some {
            (ContextV { namespace: ctx@.namespace.push(file@.package->Some_0), ..ctx@ })
        } else {
            spec_cloned(ctx@)
        },
{
    if file.has_package() {
        ctx.descend(file.package().to_owned())
    } else {
        ctx.clone()
    }
}

} // verus!
