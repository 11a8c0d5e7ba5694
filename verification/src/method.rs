use crate::context::Context;
use crate::error::Error;
use crate::image::Image;
use crate::method::gpu::{program_installed, RenderPass};
use crate::method::params::{AnyParams, MethodParams};
use crate::methods::value_noise::value_noise_computes;
use crate::methods::white_noise::white_noise_computes;
use vstd::prelude::*;

pub mod cpu;
pub mod gpu;
pub mod params;
pub mod registry;

verus! {

/// The methods that the registry knows by name.
#[derive(Debug, Clone, Copy, PartialEq, Eq, Structural)]
pub enum MethodKind {
    Debug,
    WhiteNoise,
    ValueNoise,
    GradientNoise,
    SimplexNoise,
    PhasorNoise,
}

/// What remains to be done when `compute` returns.
#[derive(Debug)]
pub enum ComputeStep {
    /// Nothing: the image has been filled on the host.
    Done,
    /// The device is to compile the program of this method. Its answer goes
    /// to `install_program`, and `compute` is then called again.
    BuildProgram(MethodKind),
    /// The device is to perform this pass, which fills the image.
    Render(RenderPass),
}

/// Base trait for all methods: each has one type of parameters.
pub trait TextureMethod {
    type Params: MethodParams;
}

/// Generic interface to a procedural texturing method.
pub trait Method {
    /// The name of the device program that the method keeps, if it has
    /// built one.
    spec fn cached_program(&self) -> Option<u32>;

    /// Which of the methods of this library this is; none for a method of
    /// the embedding's own.
    spec fn kind(&self) -> Option<MethodKind>;

    /// The size in bytes of the parameter struct of the method.
    spec fn params_size(&self) -> usize;

    /// Computes `tgt` with this method on the backend of `ctx`. A method of
    /// this library does what `computes_as` says of its kind. Whatever a
    /// method does, it stays of its kind, the image keeps its shape and its
    /// element type, and bytes that are not exactly as many as the method's
    /// parameter struct has are refused with everything left as it was.
    fn compute(&mut self, ctx: &mut Context, tgt: &mut Image, params: Option<&AnyParams>) -> (step:
        Result<ComputeStep, Error>)
        requires
            old(tgt).wf(),
        ensures
            *final(ctx) == *old(ctx),
            final(tgt).dim_spec() == old(tgt).dim_spec(),
            final(tgt).element_type_spec() == old(tgt).element_type_spec(),
            final(self).kind() == old(self).kind(),
            final(self).params_size() == old(self).params_size(),
            wrong_size(handed(params), old(self).params_size()) ==> refused(
                old(self).cached_program(),
                final(self).cached_program(),
                *old(tgt),
                *final(tgt),
                step,
            ),
            computes_as(
                old(self).kind(),
                old(self).cached_program(),
                final(self).cached_program(),
                *old(ctx),
                *old(tgt),
                *final(tgt),
                handed(params),
                step,
            ),
    ;

    /// Takes in what the device of `ctx` answered to
    /// `ComputeStep::BuildProgram`: the name of the compiled program, or the
    /// diagnostic of the failure.
    fn install_program(&mut self, ctx: &Context, program: Result<u32, String>) -> (done: Result<
        (),
        Error,
    >)
        ensures
            final(self).kind() == old(self).kind(),
            final(self).params_size() == old(self).params_size(),
            installs_as(
                old(self).kind(),
                old(self).cached_program(),
                final(self).cached_program(),
                *ctx,
                program,
                done,
            ),
    ;
}

/// Wrapped method, as the registry hands it out.
pub struct MethodBox<M: Method + ?Sized = dyn Method> {
    method: Box<M>,
}

impl<M: Method + ?Sized> MethodBox<M> {
    pub fn new(method: Box<M>) -> (boxed: Self)
        ensures
            boxed.method() == method,
    {
        MethodBox { method }
    }

    /// Computes `tgt` with the wrapped method: the step, the image and the
    /// program kept afterwards are what `computes_as` says of its kind.
    pub fn compute(&mut self, ctx: &mut Context, tgt: &mut Image, params: Option<&AnyParams>) -> (step:
        Result<ComputeStep, Error>)
        requires
            old(tgt).wf(),
        ensures
            *final(ctx) == *old(ctx),
            final(tgt).dim_spec() == old(tgt).dim_spec(),
            final(tgt).element_type_spec() == old(tgt).element_type_spec(),
            final(self).kind() == old(self).kind(),
            final(self).params_size() == old(self).params_size(),
            wrong_size(handed(params), old(self).params_size()) ==> refused(
                old(self).cached_program(),
                final(self).cached_program(),
                *old(tgt),
                *final(tgt),
                step,
            ),
            computes_as(
                old(self).kind(),
                old(self).cached_program(),
                final(self).cached_program(),
                *old(ctx),
                *old(tgt),
                *final(tgt),
                handed(params),
                step,
            ),
    {
        self.method.compute(ctx, tgt, params)
    }

    /// Hands the outcome of a program build to the wrapped method.
    pub fn install_program(&mut self, ctx: &Context, program: Result<u32, String>) -> (done:
        Result<(), Error>)
        ensures
            final(self).kind() == old(self).kind(),
            final(self).params_size() == old(self).params_size(),
            installs_as(
                old(self).kind(),
                old(self).cached_program(),
                final(self).cached_program(),
                *ctx,
                program,
                done,
            ),
    {
        self.method.install_program(ctx, program)
    }

    /// The wrapped method.
    pub closed spec fn method(self) -> Box<M> {
        self.method
    }

    /// The program that the wrapped method keeps.
    pub open spec fn cached_program(self) -> Option<u32> {
        self.method().cached_program()
    }

    /// The kind of the wrapped method.
    pub open spec fn kind(self) -> Option<MethodKind> {
        self.method().kind()
    }

    /// The size in bytes of the parameter struct of the wrapped method.
    pub open spec fn params_size(self) -> usize {
        self.method().params_size()
    }
}

/// The caller handed in raw bytes, and not as many as the parameter struct
/// has.
pub open spec fn wrong_size(params: Option<AnyParams>, size: usize) -> bool {
    params matches Some(AnyParams::Bytes(buf)) && buf@.len() != size
}

/// The call was refused for its parameters, and the program and the image
/// are as they were.
pub open spec fn refused(
    program: Option<u32>,
    program_after: Option<u32>,
    tgt: Image,
    tgt_after: Image,
    step: Result<ComputeStep, Error>,
) -> bool {
    step == Err::<ComputeStep, Error>(Error::InvalidParameters) && program_after == program
        && tgt_after == tgt
}

/// What `compute` comes to for a method of the given kind that keeps
/// `program` before the call and `program_after` after it. Of a method that
/// is none of this library's nothing is said.
pub open spec fn computes_as(
    kind: Option<MethodKind>,
    program: Option<u32>,
    program_after: Option<u32>,
    ctx: Context,
    tgt: Image,
    tgt_after: Image,
    params: Option<AnyParams>,
    step: Result<ComputeStep, Error>,
) -> bool {
    match kind {
        Some(MethodKind::WhiteNoise) => white_noise_computes(
            program,
            program_after,
            ctx,
            tgt,
            tgt_after,
            params,
            step,
        ),
        Some(MethodKind::ValueNoise) => value_noise_computes(
            program,
            program_after,
            ctx,
            tgt,
            tgt_after,
            params,
            step,
        ),
        _ => true,
    }
}

/// What `install_program` comes to for a method of the given kind. Of a
/// method that is none of this library's nothing is said.
pub open spec fn installs_as(
    kind: Option<MethodKind>,
    program_before: Option<u32>,
    program_after: Option<u32>,
    ctx: Context,
    program: Result<u32, String>,
    done: Result<(), Error>,
) -> bool {
    match kind {
        Some(MethodKind::WhiteNoise) | Some(MethodKind::ValueNoise) => program_installed(
            program_before,
            program_after,
            ctx,
            program,
            done,
        ),
        _ => true,
    }
}

/// The parameters that a caller handed in, by value.
pub open spec fn handed<'a>(params: Option<&AnyParams<'a>>) -> Option<AnyParams<'a>> {
    match params {
        Some(any) => Some(*any),
        None => None,
    }
}

} // verus!
