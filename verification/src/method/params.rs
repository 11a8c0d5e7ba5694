use crate::error::Error;
use crate::method::handed;
use crate::methods::value_noise::ValueNoiseParams;
use crate::methods::white_noise::WhiteNoiseParams;
use vstd::prelude::*;

verus! {

/// Parameters as a caller hands them to a method, with their type erased:
/// the parameter struct of one of the methods, or raw bytes.
pub enum AnyParams<'a> {
    WhiteNoise(&'a WhiteNoiseParams),
    ValueNoise(&'a ValueNoiseParams),
    Bytes(&'a [u8]),
}

/// The parameter struct of a method: plain data of a fixed size that can be
/// made from nothing and read from exactly that many bytes.
pub trait MethodParams: Sized {
    /// The size of the struct in bytes.
    spec fn size() -> nat;

    /// The parameters that a buffer of `size()` bytes spells.
    spec fn decoded(bytes: Seq<u8>) -> Self;

    /// The parameters that a method runs with when it is given none.
    spec fn defaults() -> Self;

    /// The parameters behind a type-erased handle, where the handle holds
    /// this very struct.
    spec fn typed(any: AnyParams) -> Option<Self>;

    fn byte_size() -> (size: usize)
        ensures
            size == Self::size(),
    ;

    fn from_bytes(bytes: &[u8]) -> (params: Self)
        requires
            bytes@.len() == Self::size(),
        ensures
            params == Self::decoded(bytes@),
    ;

    fn default_params() -> (params: Self)
        ensures
            params == Self::defaults(),
    ;

    fn downcast<'a>(any: &AnyParams<'a>) -> (params: Option<&'a Self>)
        ensures
            match params {
                Some(p) => Self::typed(*any) == Some(*p),
                None => Self::typed(*any) is None,
            },
    ;
}

/// The parameters that a method of parameter type `U` runs with, given what
/// the caller handed in; nothing where the handle is of no use to it.
///
/// No handle means the defaults. A handle of the method's own type is taken
/// as it is. Raw bytes are read as the struct when there are exactly as many
/// as the struct has, not more and not fewer.
pub open spec fn resolved<U: MethodParams>(params: Option<AnyParams>) -> Option<U> {
    match params {
        None => Some(U::defaults()),
        Some(any) => match U::typed(any) {
            Some(p) => Some(p),
            None => match any {
                AnyParams::Bytes(buf) => if buf@.len() == U::size() {
                    Some(U::decoded(buf@))
                } else {
                    None
                },
                _ => None,
            },
        },
    }
}

/// Raw bytes are accepted by their number alone: where a buffer is not the
/// struct itself, it gives parameters exactly when it has as many bytes as
/// the struct, and then those that the bytes spell.
pub proof fn lemma_bytes_size_exact<U: MethodParams>(buf: &[u8])
    requires
        U::typed(AnyParams::Bytes(buf)) is None,
    ensures
        resolved::<U>(Some(AnyParams::Bytes(buf))) is Some <==> buf@.len() == U::size(),
        buf@.len() == U::size() ==> resolved::<U>(Some(AnyParams::Bytes(buf))) == Some(
            U::decoded(buf@),
        ),
{
}

/// The struct that is read from the caller's bytes, where the caller handed
/// in bytes that are not the struct itself and are as many as it has.
pub open spec fn read_from_bytes<U: MethodParams>(params: Option<AnyParams>) -> Option<U> {
    match params {
        Some(AnyParams::Bytes(buf)) => if U::typed(AnyParams::Bytes(buf)) is None && buf@.len()
            == U::size() {
            Some(U::decoded(buf@))
        } else {
            None
        },
        _ => None,
    }
}

/// Try to downcast a generic params struct into the target params type.
///
/// `default_params` is the caller's scratch space for the defaults: it is
/// written when the caller handed in nothing, and only then. `decoded` is the
/// caller's place for a struct read from bytes: it is written when bytes of
/// the exact size were read, and only then. A struct of the method's own
/// type is used where it is; nothing is written.
pub fn downcast_params<'u, U: MethodParams>(
    params: Option<&AnyParams<'u>>,
    default_params: &'u mut Option<U>,
    decoded: &'u mut Option<U>,
) -> (outcome: Result<&'u U, Error>)
    ensures
        match outcome {
            Ok(p) => resolved::<U>(handed(params)) == Some(*p),
            Err(e) => e == Error::InvalidParameters && resolved::<U>(handed(params)) is None,
        },
        *final(default_params) == match params {
            None => Some(U::defaults()),
            Some(_) => *old(default_params),
        },
        *final(decoded) == match read_from_bytes::<U>(handed(params)) {
            Some(p) => Some(p),
            None => *old(decoded),
        },
{
    match params {
        Some(any) => {
            match U::downcast(any) {
                Some(p) => Ok(p),
                None => match any {
                    AnyParams::Bytes(buf) => {
                        if buf.len() != U::byte_size() {
                            return Err(Error::InvalidParameters);
                        }
                        *decoded = Some(U::from_bytes(buf));
                        Ok(decoded.as_ref().unwrap())
                    },
                    _ => Err(Error::InvalidParameters),
                },
            }
        },
        None => {
            *default_params = Some(U::default_params());
            Ok(default_params.as_ref().unwrap())
        },
    }
}

} // verus!
