use vstd::prelude::*;
use uuid::Uuid;

verus! {

#[verifier::external_type_specification]
#[verifier::external_body]
pub struct ExUuid(Uuid);

/// Relies on `uuid::Uuid::new_v4`: a random identifier. Nothing is promised
/// of its value.
#[verifier::external_body]
pub(crate) fn fresh_id() -> (r: Uuid) {
    Uuid::new_v4()
}

/// Relies on `macroquad::rand::gen_range` (the `quad_rand` generator): for an
/// integer type it returns `low + (high - low) * f` truncated, where `f` is a
/// fraction in `[0, 1)`; with bounds this small the float arithmetic is
/// exact enough that the result stays in `[low, high)`.
#[verifier::external_body]
pub(crate) fn random_in(low: u32, high: u32) -> (r: u32)
    requires
        low < high,
        high <= 65536,
    ensures
        low <= r < high,
{
    macroquad::rand::gen_range(low, high)
}

} // verus!
