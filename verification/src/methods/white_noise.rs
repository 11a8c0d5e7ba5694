use crate::context::{Context, GpuContext};
use crate::error::Error;
use crate::image::gpu::GpuImageData;
use crate::image::Image;
use crate::grid::voxel;
use crate::image_dimensions::{ImageDim, Voxel};
use crate::method::cpu::{compute_cpu, filled, CpuMethod};
use crate::method::gpu::{dispatch_gpu, dispatched, program_of, GpuMethod, RenderPass};
use crate::sample::UnitSample;
use crate::method::params::{downcast_params, resolved, AnyParams, MethodParams};
use crate::method::{ComputeStep, Method, MethodKind, TextureMethod};
use vstd::prelude::*;

verus! {

/// The parameters of white noise: it has none.
#[derive(Default, Clone, Copy, PartialEq, Eq, Debug, Structural)]
pub struct WhiteNoiseParams {}

impl MethodParams for WhiteNoiseParams {
    open spec fn size() -> nat {
        0
    }

    open spec fn decoded(bytes: Seq<u8>) -> Self {
        WhiteNoiseParams {  }
    }

    open spec fn defaults() -> Self {
        WhiteNoiseParams {  }
    }

    open spec fn typed(any: AnyParams) -> Option<Self> {
        match any {
            AnyParams::WhiteNoise(p) => Some(*p),
            _ => None,
        }
    }

    fn byte_size() -> (size: usize) {
        0
    }

    fn from_bytes(bytes: &[u8]) -> (params: Self) {
        WhiteNoiseParams {  }
    }

    fn default_params() -> (params: Self) {
        WhiteNoiseParams {  }
    }

    fn downcast<'a>(any: &AnyParams<'a>) -> (params: Option<&'a Self>) {
        match any {
            AnyParams::WhiteNoise(p) => Some(*p),
            _ => None,
        }
    }
}

/// The parameters take no bytes: an empty buffer gives the defaults, and a
/// buffer of any other length gives nothing.
pub proof fn lemma_only_empty_bytes(buf: &[u8])
    ensures
        resolved::<WhiteNoiseParams>(Some(AnyParams::Bytes(buf))) == if buf@.len() == 0 {
            Some(WhiteNoiseParams::defaults())
        } else {
            None
        },
{
}

/// White noise on the device: its compiled program.
pub struct WhiteNoiseGpu {
    program: u32,
}

impl WhiteNoiseGpu {
    /// White noise on the device, from what the device answered when asked
    /// to build the program: its name, or the diagnostic of the failure.
    pub fn new(ctx: &GpuContext, program: Result<u32, String>) -> (gpu: Result<Self, Error>)
        ensures
            match gpu {
                Ok(g) => program == Ok::<u32, String>(g.program()),
                Err(e) => program is Err && e == Error::Backend(program->Err_0),
            },
    {
        match program {
            Ok(name) => Ok(WhiteNoiseGpu { program: name }),
            Err(detail) => Err(Error::Backend(detail)),
        }
    }
}

impl TextureMethod for WhiteNoiseGpu {
    type Params = WhiteNoiseParams;
}

impl GpuMethod for WhiteNoiseGpu {
    closed spec fn program(&self) -> u32 {
        self.program
    }

    open spec fn renders(&self, tgt: GpuImageData, params: Self::Params) -> bool {
        true
    }

    fn compute_gpu(
        &mut self,
        ctx: &mut GpuContext,
        tgt: &mut GpuImageData,
        params: &Self::Params,
    ) -> (pass: Result<RenderPass, Error>) {
        Ok(ctx.render_to_framebuffer(tgt, self.program))
    }
}

/// One round of the hash: fold the upper half into the lower, then multiply.
pub open spec fn mix(x: u32) -> u32 {
    ((x >> 16) ^ x).wrapping_mul(0x45d9f3bu32)
}

/// The hash of a key: two rounds, then one more fold.
pub open spec fn scramble(x: u32) -> u32 {
    let y = mix(mix(x));
    (y >> 16) ^ y
}

/// The position of a voxel when all elements of the image are counted
/// channel by channel, column by column, row by row, layer by layer.
pub open spec fn linear_index(v: Voxel, sz: ImageDim) -> int {
    (v.2 + v.1 * sz.width + v.0 * sz.width * sz.height) * sz.channels + v.3
}

/// The key of a voxel: the low 32 bits of its position.
pub open spec fn key(v: Voxel, sz: ImageDim) -> u32 {
    (linear_index(v, sz) as usize) as u32
}

/// White noise at a voxel: the upper 23 bits of the hash of its key, read as
/// a count of steps of 2^-23.
pub open spec fn white_noise(v: Voxel, sz: ImageDim) -> UnitSample {
    UnitSample { steps: scramble(key(v, sz)) / 512 }
}

/// The position of a voxel of an image lies below the element count, and so
/// do the products on the way to it.
pub proof fn lemma_linear_index_bound(v: Voxel, sz: ImageDim)
    requires
        sz.valid(),
        sz.contains(v),
    ensures
        0 <= v.1 * sz.width <= sz.elements(),
        0 <= v.0 * sz.width <= sz.elements(),
        0 <= v.0 * sz.width * sz.height <= sz.elements(),
        0 <= v.2 + v.1 * sz.width + v.0 * sz.width * sz.height <= sz.elements(),
        0 <= (v.2 + v.1 * sz.width + v.0 * sz.width * sz.height) * sz.channels <= sz.elements(),
        0 <= linear_index(v, sz) < sz.elements(),
{
    let (k, j, i, l) = v;
    let w = sz.width as int;
    let h = sz.height as int;
    let d = sz.depth as int;
    let c = sz.channels as int;
    assert(0 <= j * w <= (h - 1) * w) by (nonlinear_arith)
        requires
            0 <= j <= h - 1,
            w >= 1,
    ;
    assert(0 <= k * w <= (d - 1) * w) by (nonlinear_arith)
        requires
            0 <= k <= d - 1,
            w >= 1,
    ;
    assert(0 <= k * w * h <= (d - 1) * w * h) by (nonlinear_arith)
        requires
            0 <= k <= d - 1,
            w >= 1,
            h >= 1,
    ;
    let row = i + j * w + k * w * h;
    assert(row <= d * h * w - 1) by (nonlinear_arith)
        requires
            row == i + j * w + k * w * h,
            i <= w - 1,
            j * w <= (h - 1) * w,
            k * w * h <= (d - 1) * w * h,
    ;
    assert(0 <= row * c <= (d * h * w - 1) * c) by (nonlinear_arith)
        requires
            0 <= row <= d * h * w - 1,
            c >= 1,
    ;
    assert((d * h * w - 1) * c + c == d * h * w * c) by (nonlinear_arith);
    assert(d * h * w >= 1 && d * h * w * c >= d * h * w && d * h * w >= w && d * h * w >= (d - 1)
        * w * h + 1 && (h - 1) * w <= d * h * w && (d - 1) * w <= d * h * w) by (nonlinear_arith)
        requires
            d >= 1,
            h >= 1,
            w >= 1,
            c >= 1,
    ;
}

/// White noise lies in the half-open unit interval at every voxel of every
/// image: the count of steps stays below 2^23.
pub proof fn lemma_white_noise_in_unit_interval(v: Voxel, sz: ImageDim)
    ensures
        white_noise(v, sz).wf(),
{
}

/// The hash that white noise scrambles its keys with.
pub fn hash(x: u32) -> (h: u32)
    ensures
        h == scramble(x),
{
    let a: u32 = ((x >> 16) ^ x).wrapping_mul(0x45d9f3bu32);
    let b: u32 = ((a >> 16) ^ a).wrapping_mul(0x45d9f3bu32);
    (b >> 16) ^ b
}

impl CpuMethod for WhiteNoise {
    open spec fn value_at(v: Voxel, sz: ImageDim, params: Self::Params) -> UnitSample {
        white_noise(v, sz)
    }

    fn compute_idx(idx: (usize, usize, usize, usize), sz: ImageDim, params: &Self::Params) -> (sample:
        UnitSample) {
        let (k, j, i, l) = idx;
        proof {
            lemma_linear_index_bound(voxel(k, j, i, l), sz);
        }
        let n: usize = (i + j * sz.width + k * sz.width * sz.height) * sz.channels + l;
        let x: u32 = #[verifier::truncate]
        (n as u32);
        UnitSample::from_word(hash(x))
    }
}

/// White noise. It computes on the host and on the device.
pub struct WhiteNoise {
    gpu: Option<WhiteNoiseGpu>,
}

impl TextureMethod for WhiteNoise {
    type Params = WhiteNoiseParams;
}

impl WhiteNoise {
    /// The place of the compiled program.
    pub closed spec fn slot(self) -> Option<WhiteNoiseGpu> {
        self.gpu
    }

    pub fn new() -> (method: Self)
        ensures
            method.slot() is None,
    {
        WhiteNoise { gpu: None }
    }
}

/// What `compute` comes to for white noise that keeps `program`.
///
/// Parameters of no use are rejected before anything else. On a host context
/// the image is filled through a write map and nothing remains to be done.
/// On a device context the step is decided by the program. The program
/// stays as it is in every case.
pub open spec fn white_noise_computes(
    program: Option<u32>,
    program_after: Option<u32>,
    ctx: Context,
    tgt: Image,
    tgt_after: Image,
    params: Option<AnyParams>,
    step: Result<ComputeStep, Error>,
) -> bool {
    if resolved::<WhiteNoiseParams>(params) is None {
        step == Err::<ComputeStep, Error>(Error::InvalidParameters) && program_after == program
            && tgt_after == tgt
    } else {
        match ctx {
            Context::Cpu(_) => program_after == program && filled::<WhiteNoise>(
                tgt,
                tgt_after,
                resolved::<WhiteNoiseParams>(params)->Some_0,
                match step {
                    Ok(_) => Ok(()),
                    Err(e) => Err(e),
                },
            ) && (step is Ok ==> step->Ok_0 is Done),
            Context::Gpu(_) => dispatched(
                program,
                program_after,
                true,
                MethodKind::WhiteNoise,
                tgt,
                tgt_after,
                step,
            ),
        }
    }
}

impl Method for WhiteNoise {
    open spec fn cached_program(&self) -> Option<u32> {
        program_of(self.slot())
    }

    open spec fn kind(&self) -> Option<MethodKind> {
        Some(MethodKind::WhiteNoise)
    }

    open spec fn params_size(&self) -> usize {
        0
    }

    fn compute(&mut self, ctx: &mut Context, tgt: &mut Image, params: Option<&AnyParams>) -> (step:
        Result<ComputeStep, Error>) {
        let mut default_params = None;
        let mut decoded = None;
        let params = match downcast_params::<WhiteNoiseParams>(
            params,
            &mut default_params,
            &mut decoded,
        ) {
            Ok(p) => p,
            Err(e) => {
                return Err(e);
            },
        };
        match ctx {
            Context::Gpu(gpu_context) => dispatch_gpu(
                &mut self.gpu,
                MethodKind::WhiteNoise,
                gpu_context,
                tgt,
                params,
            ),
            Context::Cpu(_) => match compute_cpu::<WhiteNoise>(tgt, params) {
                Ok(_) => Ok(ComputeStep::Done),
                Err(e) => Err(e),
            },
        }
    }

    fn install_program(&mut self, ctx: &Context, program: Result<u32, String>) -> (done: Result<
        (),
        Error,
    >) {
        match ctx.gpu() {
            None => Err(Error::ContextNotSupported),
            Some(gpu_context) => {
                self.gpu = Some(WhiteNoiseGpu::new(gpu_context, program)?);
                Ok(())
            },
        }
    }
}

} // verus!
