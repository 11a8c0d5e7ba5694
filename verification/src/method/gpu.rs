use crate::context::{Context, GpuContext};
use crate::error::Error;
use crate::image::gpu::{GpuImageData, SyncState, TextureRank};
use crate::image::image_data::ImageDataBase;
use crate::image::{Image, ImageStorage};
use crate::image_dimensions::ImageDim;
use crate::method::{ComputeStep, MethodKind, TextureMethod};
use vstd::prelude::*;

verus! {

/// One draw on the device: with `program` in use and its uniforms for the
/// image resolution and the target layer set, draw `count` vertices from
/// `first` as triangles.
#[derive(Debug, Clone, Copy, PartialEq, Eq, Structural)]
pub struct DrawCall {
    pub program: u32,
    /// The resolution of the target image.
    pub width: usize,
    pub height: usize,
    pub depth: usize,
    /// The layer that the draw fills.
    pub layer: usize,
    pub first: u32,
    pub count: u32,
}

/// What the device is to do for one computation: with the texture bound as
/// render target, the draws in their order.
#[derive(Debug)]
pub struct RenderPass {
    pub texture: u32,
    pub rank: TextureRank,
    pub draws: Vec<DrawCall>,
}

/// The draw that fills one layer: a single triangle that covers it.
pub open spec fn layer_draw(program: u32, dim: ImageDim, layer: int) -> DrawCall {
    DrawCall {
        program,
        width: dim.width,
        height: dim.height,
        depth: dim.depth,
        layer: layer as usize,
        first: 0,
        count: 3,
    }
}

impl RenderPass {
    /// The pass renders to the texture of `tgt` with `program`: one draw for
    /// each layer of the image, in the order of the layers.
    pub open spec fn covers(self, program: u32, tgt: GpuImageData) -> bool {
        &&& self.texture == tgt.texture()
        &&& self.rank == tgt.rank()
        &&& self.draws@.len() == tgt.dim_spec().depth
        &&& forall|k: int|
            0 <= k < self.draws@.len() ==> #[trigger] self.draws@[k] == layer_draw(
                program,
                tgt.dim_spec(),
                k,
            )
    }
}

impl GpuContext {
    /// Plans the rendering of every layer of `tgt` with `program`, and
    /// records that the device copy of `tgt` is the newer one from now on.
    pub fn render_to_framebuffer(&mut self, tgt: &mut GpuImageData, program: u32) -> (pass:
        RenderPass)
        ensures
            *final(self) == *old(self),
            pass.covers(program, *old(tgt)),
            final(tgt).same_device(*old(tgt)),
            final(tgt).host() == old(tgt).host(),
            final(tgt).sync() == SyncState::DeviceAhead,
    {
        let dim = tgt.dim();
        let mut draws: Vec<DrawCall> = Vec::new();
        let mut layer: usize = 0;
        while layer < dim.depth
            invariant
                layer <= dim.depth,
                draws@.len() == layer,
                forall|k: int|
                    0 <= k < draws@.len() ==> #[trigger] draws@[k] == layer_draw(program, dim, k),
            decreases dim.depth - layer,
        {
            draws.push(
                DrawCall {
                    program,
                    width: dim.width,
                    height: dim.height,
                    depth: dim.depth,
                    layer,
                    first: 0,
                    count: 3,
                },
            );
            layer = layer + 1;
        }
        let pass = RenderPass { texture: tgt.texture_name(), rank: tgt.texture_rank(), draws };
        tgt.mark_rendered();
        pass
    }
}

/// Represents a GPU procedural texturing method: a compiled program on the
/// device.
pub trait GpuMethod: TextureMethod + Sized {
    /// The name of the compiled program.
    spec fn program(&self) -> u32;

    /// The method can render to this image with these parameters.
    spec fn renders(&self, tgt: GpuImageData, params: Self::Params) -> bool;

    /// Compute one frame of this method.
    ///
    /// * `ctx`: GPU context to perform computations in
    /// * `tgt`: frame to fill with computation results
    /// * `params`: parameters of the frame to compute
    ///
    /// Where the method can render, the result is the pass that the device
    /// is to perform, and `tgt` is then ahead on the device side. Where it
    /// cannot, `tgt` stays as it was.
    fn compute_gpu(
        &mut self,
        ctx: &mut GpuContext,
        tgt: &mut GpuImageData,
        params: &Self::Params,
    ) -> (pass: Result<RenderPass, Error>)
        ensures
            final(self).program() == old(self).program(),
            *final(ctx) == *old(ctx),
            match pass {
                Ok(p) => old(self).renders(*old(tgt), *params) && p.covers(
                    old(self).program(),
                    *old(tgt),
                ) && final(tgt).same_device(*old(tgt)) && final(tgt).host() == old(tgt).host()
                    && final(tgt).sync() == SyncState::DeviceAhead,
                Err(_) => !old(self).renders(*old(tgt), *params) && *final(tgt) == *old(tgt),
            },
    ;
}

/// The name of the program that a method keeps, if it has built one.
pub open spec fn program_of<G: GpuMethod>(slot: Option<G>) -> Option<u32> {
    match slot {
        Some(g) => Some(g.program()),
        None => None,
    }
}

/// The method has a program that can render to the device texture of the
/// image with these parameters.
pub open spec fn can_render<G: GpuMethod>(slot: Option<G>, tgt: Image, params: G::Params) -> bool {
    slot matches Some(g) && tgt.storage() matches ImageStorage::Gpu(gpu) && g.renders(gpu, params)
}

/// What a computation on the device comes to, for a method that keeps the
/// program `program` and keeps `program_after` afterwards.
///
/// An image without a device texture is not supported. Without a program the
/// step is to build it. With a program the step is its render pass, where
/// the method can render. The program stays as it is in every case.
pub open spec fn dispatched(
    program: Option<u32>,
    program_after: Option<u32>,
    renders: bool,
    kind: MethodKind,
    tgt: Image,
    tgt_after: Image,
    step: Result<ComputeStep, Error>,
) -> bool {
    &&& program_after == program
    &&& match tgt.storage() {
        ImageStorage::Cpu(_) => step == Err::<ComputeStep, Error>(Error::FormatNotSupported)
            && tgt_after == tgt,
        ImageStorage::Gpu(gpu) => match program {
            None => step == Ok::<ComputeStep, Error>(ComputeStep::BuildProgram(kind))
                && tgt_after == tgt,
            Some(name) => match step {
                Ok(ComputeStep::Render(pass)) => {
                    &&& renders
                    &&& pass.covers(name, gpu)
                    &&& tgt_after.storage() matches ImageStorage::Gpu(gpu_after)
                        && gpu_after.same_device(gpu) && gpu_after.host() == gpu.host()
                        && gpu_after.sync() == SyncState::DeviceAhead
                },
                Ok(_) => false,
                Err(_) => !renders && tgt_after == tgt,
            },
        },
    }
}

/// Decides the next step of a computation on the device.
pub fn dispatch_gpu<G: GpuMethod>(
    slot: &mut Option<G>,
    kind: MethodKind,
    ctx: &mut GpuContext,
    tgt: &mut Image,
    params: &G::Params,
) -> (step: Result<ComputeStep, Error>)
    ensures
        *final(ctx) == *old(ctx),
        dispatched(
            program_of(*old(slot)),
            program_of(*final(slot)),
            can_render(*old(slot), *old(tgt), *params),
            kind,
            *old(tgt),
            *final(tgt),
            step,
        ),
{
    let step = match tgt.as_gpu_image_mut() {
        None => Err(Error::FormatNotSupported),
        Some(gpu) => match slot {
            None => Ok(ComputeStep::BuildProgram(kind)),
            Some(g) => match g.compute_gpu(ctx, gpu, params) {
                Ok(pass) => Ok(ComputeStep::Render(pass)),
                Err(e) => Err(e),
            },
        },
    };
    proof {
        if tgt.storage() == old(tgt).storage() {
            tgt.lemma_storage_is_all(*old(tgt));
        }
    }
    step
}

/// What handing in the outcome of a program build comes to: on a device
/// context a program that was built is kept, and a failure is passed on with
/// the method as it was; a host context has no use for a program.
pub open spec fn program_installed(
    program_before: Option<u32>,
    program_after: Option<u32>,
    ctx: Context,
    program: Result<u32, String>,
    done: Result<(), Error>,
) -> bool {
    match ctx {
        Context::Cpu(_) => done == Err::<(), Error>(Error::ContextNotSupported) && program_after
            == program_before,
        Context::Gpu(_) => match program {
            Ok(name) => done is Ok && program_after == Some(name),
            Err(detail) => done == Err::<(), Error>(Error::Backend(detail)) && program_after
                == program_before,
        },
    }
}

} // verus!
