use crate::method::registry::MethodRegistry;
use crate::method::MethodKind;
use vstd::prelude::*;

pub mod value_noise;
pub mod white_noise;

verus! {

/// The entries of the registry of the methods that ship with the library,
/// in the order of their registration.
pub open spec fn builtin_entries() -> Seq<(Seq<char>, MethodKind)> {
    seq![
        ("debug"@, MethodKind::Debug),
        ("white_noise"@, MethodKind::WhiteNoise),
        ("value_noise"@, MethodKind::ValueNoise),
        ("gradient_noise"@, MethodKind::GradientNoise),
        ("simplex_noise"@, MethodKind::SimplexNoise),
        ("phasor_noise"@, MethodKind::PhasorNoise),
    ]
}

/// The registry of the methods that ship with the library.
pub fn new_registry() -> (registry: MethodRegistry)
    ensures
        registry@ == builtin_entries(),
{
    let mut registry = MethodRegistry::new();
    registry.register("debug", MethodKind::Debug);
    registry.register("white_noise", MethodKind::WhiteNoise);
    registry.register("value_noise", MethodKind::ValueNoise);
    registry.register("gradient_noise", MethodKind::GradientNoise);
    registry.register("simplex_noise", MethodKind::SimplexNoise);
    registry.register("phasor_noise", MethodKind::PhasorNoise);
    registry
}

} // verus!
