//! The service stub generator interface and its web-runtime implementation,
//! which emits no setup members and no per-method members.

use vstd::prelude::*;
use crate::ast::ClassMember;
use crate::context::Context;
use crate::descriptor::MethodDescriptorProto;
use crate::descriptor::ServiceDescriptorProto;

verus! {

/// A backend for generating service stubs: the setup members of a service
/// class, and the members of one service method.
pub trait GrpcRuntime {
    /// The setup members of a service class.
    fn print_setup(&self, ctx: &mut Context) -> Vec<ClassMember>;

    /// The members generated for one method of a service.
    fn print_method(
        &self,
        ctx: &mut Context,
        method: &MethodDescriptorProto,
        service: &ServiceDescriptorProto,
    ) -> Vec<ClassMember>;
}

/// The web-transport stub backend.
#[derive(Clone, Debug)]
pub struct GrpcWebRuntime {}

impl GrpcWebRuntime {
    /// A fresh backend handle.
    pub fn new() -> (r: Self) {
        GrpcWebRuntime {  }
    }
}

impl GrpcRuntime for GrpcWebRuntime {
    /// No setup members are emitted for the web transport.
    fn print_setup(&self, ctx: &mut Context) -> (r: Vec<ClassMember>)
        ensures
            r@.len() == 0,
            final(ctx)@ == old(ctx)@,
    {
        Vec::new()
    }

    /// No per-method members are emitted for the web transport.
    fn print_method(
        &self,
        ctx: &mut Context,
        method: &MethodDescriptorProto,
        service: &ServiceDescriptorProto,
    ) -> (r: Vec<ClassMember>)
        ensures
            r@.len() == 0,
            final(ctx)@ == old(ctx)@,
    {
        Vec::new()
    }
}

} // verus!
