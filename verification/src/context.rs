use vstd::prelude::*;

verus! {

/// The host backend: pixels are computed by the library itself.
#[derive(Debug, Clone, Copy, PartialEq, Eq, Structural)]
pub struct CpuContext {}

/// The device backend. The device itself is the embedding's; the library
/// decides what it is asked to do.
#[derive(Debug, Clone, Copy, PartialEq, Eq, Structural)]
pub struct GpuContext {}

/// The backend that a session computes on.
#[derive(Debug, Clone, Copy, PartialEq, Eq, Structural)]
pub enum Context {
    Gpu(GpuContext),
    Cpu(CpuContext),
}

impl Context {
    /// A context that computes on the host.
    pub fn new_cpu() -> (context: Self)
        ensures
            context == Context::Cpu(CpuContext {  }),
    {
        Context::Cpu(CpuContext {  })
    }

    /// A context that computes on the device which the embedding has set up.
    pub fn new_gpu() -> (context: Self)
        ensures
            context == Context::Gpu(GpuContext {  }),
    {
        Context::Gpu(GpuContext {  })
    }

    /// The device backend, if this context has one.
    pub fn gpu(&self) -> (gpu: Option<&GpuContext>)
        ensures
            match gpu {
                Some(g) => *self == Context::Gpu(*g),
                None => self is Cpu,
            },
    {
        match self {
            Context::Gpu(gpu) => Some(gpu),
            Context::Cpu(_) => None,
        }
    }

    /// The host backend, if this context has one.
    pub fn cpu(&self) -> (cpu: Option<&CpuContext>)
        ensures
            match cpu {
                Some(c) => *self == Context::Cpu(*c),
                None => self is Gpu,
            },
    {
        match self {
            Context::Cpu(cpu) => Some(cpu),
            Context::Gpu(_) => None,
        }
    }
}

} // verus!
