use crate::context::Context;
use crate::error::Error;
use crate::image::Image;
use crate::method::params::AnyParams;
use crate::method::{computes_as, refused, ComputeStep, MethodBox};
use vstd::prelude::*;

verus! {

/// The status of a call that went well.
pub const TXKIT_SUCCESS: i32 = 0;

/// The status that stands for an error: never zero, one value for each kind
/// of error.
pub open spec fn status_of(e: Error) -> i32 {
    match e {
        Error::ContextNotSupported => 1,
        Error::FormatNotSupported => 2,
        Error::InvalidParameters => 3,
        Error::ImageCreation(_) => 4,
        Error::ImageData(_) => 5,
        Error::Backend(_) => 6,
    }
}

/// The status that stands for an error.
pub fn error_code(e: &Error) -> (code: i32)
    ensures
        code == status_of(*e),
        code != TXKIT_SUCCESS,
{
    match e {
        Error::ContextNotSupported => 1,
        Error::FormatNotSupported => 2,
        Error::InvalidParameters => 3,
        Error::ImageCreation(_) => 4,
        Error::ImageData(_) => 5,
        Error::Backend(_) => 6,
    }
}

/// The status of a call: zero when it went well, else the status of its
/// error.
pub fn wrap_result_code<T>(outcome: &Result<T, Error>) -> (code: i32)
    ensures
        match outcome {
            Ok(_) => code == TXKIT_SUCCESS,
            Err(e) => code == status_of(*e) && code != TXKIT_SUCCESS,
        },
{
    match outcome {
        Ok(_) => TXKIT_SUCCESS,
        Err(e) => error_code(e),
    }
}

/// What a call hands back across a boundary that knows no errors: the value,
/// or nothing.
pub fn wrap_result<T, E>(outcome: Result<T, E>) -> (value: Option<T>)
    ensures
        match outcome {
            Ok(v) => value == Some(v),
            Err(_) => value is None,
        },
{
    match outcome {
        Ok(v) => Some(v),
        Err(_) => None,
    }
}

/// The parameters that a raw buffer stands for: none without a buffer, else
/// its bytes.
pub fn params_of_bytes<'a>(bytes: Option<&'a [u8]>) -> (params: Option<AnyParams<'a>>)
    ensures
        match bytes {
            Some(buf) => params == Some(AnyParams::Bytes(buf)),
            None => params is None,
        },
{
    match bytes {
        Some(buf) => Some(AnyParams::Bytes(buf)),
        None => None,
    }
}

/// Compute an image using the given method, with parameters that cross the
/// boundary as raw bytes or not at all.
///
/// * `ctx`: context to use for computing the image
/// * `method`: texturing method
/// * `tgt`: target image to be computed
/// * `params`: the bytes of the parameter structure for this method
///
/// No buffer means no parameters, and a buffer means its bytes. A buffer
/// that is not exactly as long as the method's parameter struct is refused
/// with `InvalidParameters`, whatever the method and the context. The step,
/// the image and the program kept afterwards are what `computes_as` says of
/// the method's kind for them; whatever the method does, the image keeps its
/// shape and its element type.
pub fn method_compute(
    ctx: &mut Context,
    method: &mut MethodBox,
    tgt: &mut Image,
    params: Option<&[u8]>,
) -> (step: Result<ComputeStep, Error>)
    requires
        old(tgt).wf(),
    ensures
        *final(ctx) == *old(ctx),
        final(tgt).dim_spec() == old(tgt).dim_spec(),
        final(tgt).element_type_spec() == old(tgt).element_type_spec(),
        final(method).kind() == old(method).kind(),
        final(method).params_size() == old(method).params_size(),
        (params matches Some(buf) && buf@.len() != old(method).params_size()) ==> refused(
            old(method).cached_program(),
            final(method).cached_program(),
            *old(tgt),
            *final(tgt),
            step,
        ),
        computes_as(
            old(method).kind(),
            old(method).cached_program(),
            final(method).cached_program(),
            *old(ctx),
            *old(tgt),
            *final(tgt),
            match params {
                Some(buf) => Some(AnyParams::Bytes(buf)),
                None => None,
            },
            step,
        ),
{
    let params = params_of_bytes(params);
    method.compute(ctx, tgt, params.as_ref())
}

} // verus!
