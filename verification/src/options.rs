//! The configuration surface the generator consumes, supplied by an external
//! options loader: naming of cross-unit references, namespace wrapping, the
//! import-path suffix, the transferable-isolation mode, and the module paths
//! of the runtime support libraries.

use vstd::prelude::*;

verus! {

/// Generator options.
#[derive(Debug)]
pub struct Options {
    /// Cross-unit references keep their fully qualified dotted name (with the
    /// dots folded to underscores) instead of the short local name.
    pub with_namespace: bool,
    /// Wrap each unit's output in a namespace construct for its package.
    pub namespaces: bool,
    /// Appended to every relative import path.
    pub import_suffix: String,
    /// Emit repeated-field loops in the transferable-isolation idiom.
    pub with_sendable: bool,
    /// Module path of the wire reader/writer runtime.
    pub runtime_package: String,
    /// Module path of the base64 helper runtime.
    pub base64_package: String,
}

/// The model of the options.
pub struct OptionsV {
    pub with_namespace: bool,
    pub namespaces: bool,
    pub import_suffix: Seq<char>,
    pub with_sendable: bool,
    pub runtime_package: Seq<char>,
    pub base64_package: Seq<char>,
}

impl View for Options {
    type V = OptionsV;

    open spec fn view(&self) -> OptionsV {
        OptionsV {
            with_namespace: self.with_namespace,
            namespaces: self.namespaces,
            import_suffix: self.import_suffix@,
            with_sendable: self.with_sendable,
            runtime_package: self.runtime_package@,
            base64_package: self.base64_package@,
        }
    }
}

impl Clone for Options {
    fn clone(&self) -> (res: Self)
        ensures
            res@ == self@,
    {
        Options {
            with_namespace: self.with_namespace,
            namespaces: self.namespaces,
            import_suffix: self.import_suffix.clone(),
            with_sendable: self.with_sendable,
            runtime_package: self.runtime_package.clone(),
            base64_package: self.base64_package.clone(),
        }
    }
}

impl Options {
    /// Options with every switch off and every path empty.
    pub fn new() -> (r: Self)
        ensures
            r@ == (OptionsV {
                with_namespace: false,
                namespaces: false,
                import_suffix: Seq::<char>::empty(),
                with_sendable: false,
                runtime_package: Seq::<char>::empty(),
                base64_package: Seq::<char>::empty(),
            }),
    {
        Options {
            with_namespace: false,
            namespaces: false,
            import_suffix: String::new(),
            with_sendable: false,
            runtime_package: String::new(),
            base64_package: String::new(),
        }
    }
}

} // verus!
