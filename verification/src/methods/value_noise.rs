use crate::context::{Context, GpuContext};
use crate::error::Error;
use crate::image::gpu::GpuImageData;
use crate::image::Image;
use crate::method::gpu::{dispatch_gpu, dispatched, program_of, GpuMethod, RenderPass};
use crate::method::params::{downcast_params, resolved, AnyParams, MethodParams};
use crate::method::{ComputeStep, Method, MethodKind, TextureMethod};
use vstd::prelude::*;

verus! {

/// The parameters of value noise: it has none.
#[derive(Default, Clone, Copy, PartialEq, Eq, Debug, Structural)]
pub struct ValueNoiseParams {}

impl MethodParams for ValueNoiseParams {
    open spec fn size() -> nat {
        0
    }

    open spec fn decoded(bytes: Seq<u8>) -> Self {
        ValueNoiseParams {  }
    }

    open spec fn defaults() -> Self {
        ValueNoiseParams {  }
    }

    open spec fn typed(any: AnyParams) -> Option<Self> {
        match any {
            AnyParams::ValueNoise(p) => Some(*p),
            _ => None,
        }
    }

    fn byte_size() -> (size: usize) {
        0
    }

    fn from_bytes(bytes: &[u8]) -> (params: Self) {
        ValueNoiseParams {  }
    }

    fn default_params() -> (params: Self) {
        ValueNoiseParams {  }
    }

    fn downcast<'a>(any: &AnyParams<'a>) -> (params: Option<&'a Self>) {
        match any {
            AnyParams::ValueNoise(p) => Some(*p),
            _ => None,
        }
    }
}

/// The parameters take no bytes: an empty buffer gives the defaults, and a
/// buffer of any other length gives nothing.
pub proof fn lemma_only_empty_bytes(buf: &[u8])
    ensures
        resolved::<ValueNoiseParams>(Some(AnyParams::Bytes(buf))) == if buf@.len() == 0 {
            Some(ValueNoiseParams::defaults())
        } else {
            None
        },
{
}

/// Value noise on the device: its compiled program.
pub struct ValueNoiseGpu {
    program: u32,
}

impl ValueNoiseGpu {
    /// Value noise on the device, from what the device answered when asked
    /// to build the program: its name, or the diagnostic of the failure.
    pub fn new(ctx: &GpuContext, program: Result<u32, String>) -> (gpu: Result<Self, Error>)
        ensures
            match gpu {
                Ok(g) => program == Ok::<u32, String>(g.program()),
                Err(e) => program is Err && e == Error::Backend(program->Err_0),
            },
    {
        match program {
            Ok(name) => Ok(ValueNoiseGpu { program: name }),
            Err(detail) => Err(Error::Backend(detail)),
        }
    }
}

impl TextureMethod for ValueNoiseGpu {
    type Params = ValueNoiseParams;
}

impl GpuMethod for ValueNoiseGpu {
    closed spec fn program(&self) -> u32 {
        self.program
    }

    open spec fn renders(&self, tgt: GpuImageData, params: Self::Params) -> bool {
        true
    }

    fn compute_gpu(
        &mut self,
        ctx: &mut GpuContext,
        tgt: &mut GpuImageData,
        params: &Self::Params,
    ) -> (pass: Result<RenderPass, Error>) {
        Ok(ctx.render_to_framebuffer(tgt, self.program))
    }
}

/// Value noise. It computes on the device only.
pub struct ValueNoise {
    gpu: Option<ValueNoiseGpu>,
}

impl TextureMethod for ValueNoise {
    type Params = ValueNoiseParams;
}

impl ValueNoise {
    /// The place of the compiled program.
    pub closed spec fn slot(self) -> Option<ValueNoiseGpu> {
        self.gpu
    }

    pub fn new() -> (method: Self)
        ensures
            method.slot() is None,
    {
        ValueNoise { gpu: None }
    }
}

/// What `compute` comes to for value noise that keeps `program`.
///
/// Parameters of no use are rejected before anything else. A host context is
/// not supported, and the image stays untouched. On a device context the
/// step is decided by the program. The program stays as it is in every case.
pub open spec fn value_noise_computes(
    program: Option<u32>,
    program_after: Option<u32>,
    ctx: Context,
    tgt: Image,
    tgt_after: Image,
    params: Option<AnyParams>,
    step: Result<ComputeStep, Error>,
) -> bool {
    if resolved::<ValueNoiseParams>(params) is None {
        step == Err::<ComputeStep, Error>(Error::InvalidParameters) && program_after == program
            && tgt_after == tgt
    } else {
        match ctx {
            Context::Cpu(_) => step == Err::<ComputeStep, Error>(Error::ContextNotSupported)
                && program_after == program && tgt_after == tgt,
            Context::Gpu(_) => dispatched(
                program,
                program_after,
                true,
                MethodKind::ValueNoise,
                tgt,
                tgt_after,
                step,
            ),
        }
    }
}

/// Value noise never touches an image on a host context: every such call
/// fails, for the parameters or for the context, and leaves the program and
/// the image as they were. Nor does it touch a host image on a device
/// context.
pub proof fn lemma_mismatch_rejected(
    program: Option<u32>,
    program_after: Option<u32>,
    ctx: Context,
    tgt: Image,
    tgt_after: Image,
    params: Option<AnyParams>,
    step: Result<ComputeStep, Error>,
)
    requires
        value_noise_computes(program, program_after, ctx, tgt, tgt_after, params, step),
        ctx is Cpu || !tgt.is_gpu(),
    ensures
        step is Err,
        step->Err_0 == if resolved::<ValueNoiseParams>(params) is None {
            Error::InvalidParameters
        } else if ctx is Cpu {
            Error::ContextNotSupported
        } else {
            Error::FormatNotSupported
        },
        program_after == program,
        tgt_after == tgt,
{
}

impl Method for ValueNoise {
    open spec fn cached_program(&self) -> Option<u32> {
        program_of(self.slot())
    }

    open spec fn kind(&self) -> Option<MethodKind> {
        Some(MethodKind::ValueNoise)
    }

    open spec fn params_size(&self) -> usize {
        0
    }

    fn compute(&mut self, ctx: &mut Context, tgt: &mut Image, params: Option<&AnyParams>) -> (step:
        Result<ComputeStep, Error>) {
        let mut default_params = None;
        let mut decoded = None;
        let params = match downcast_params::<ValueNoiseParams>(
            params,
            &mut default_params,
            &mut decoded,
        ) {
            Ok(p) => p,
            Err(e) => {
                return Err(e);
            },
        };
        match ctx {
            Context::Gpu(gpu_context) => dispatch_gpu(
                &mut self.gpu,
                MethodKind::ValueNoise,
                gpu_context,
                tgt,
                params,
            ),
            Context::Cpu(_) => Err(Error::ContextNotSupported),
        }
    }

    fn install_program(&mut self, ctx: &Context, program: Result<u32, String>) -> (done: Result<
        (),
        Error,
    >) {
        match ctx.gpu() {
            None => Err(Error::ContextNotSupported),
            Some(gpu_context) => {
                self.gpu = Some(ValueNoiseGpu::new(gpu_context, program)?);
                Ok(())
            },
        }
    }
}

} // verus!
