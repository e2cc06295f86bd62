use vstd::prelude::*;
use quinn_proto::VarIntBoundsExceeded;

verus! {

/// The largest value that a QUIC variable-length integer can hold, 2^62 - 1.
pub const VARINT_MAX: u64 = 0x3fff_ffff_ffff_ffff;

#[verifier::external_type_specification]
#[verifier::external_body]
pub struct ExVarIntBoundsExceeded(VarIntBoundsExceeded);

/// `quinn_proto::VarInt::MAX`, read out with `into_inner`; the crate's source
/// defines it as `(1 << 62) - 1`.
#[verifier::external_body]
pub(crate) fn varint_max() -> (value: u64)
    ensures
        value == VARINT_MAX,
{
    quinn_proto::VarInt::MAX.into_inner()
}

/// `quinn_proto::VarInt::from_u64`, with the integer read back out of the
/// `VarInt` by `into_inner`. The crate documents (and its source shows) that it
/// succeeds iff `x < 2^62`, and that the `VarInt` then holds `x`.
#[verifier::external_body]
pub(crate) fn varint_from_u64(x: u64) -> (converted: Result<u64, VarIntBoundsExceeded>)
    ensures
        converted is Ok <==> x <= VARINT_MAX,
        converted is Ok ==> converted->Ok_0 == x,
{
    match quinn_proto::VarInt::from_u64(x) {
        Ok(v) => Ok(v.into_inner()),
        Err(e) => Err(e),
    }
}

/// `quinn_proto::VarInt::from_u32`, infallible; the `VarInt` holds `x`
/// (read back by `into_inner`).
#[verifier::external_body]
pub(crate) fn varint_from_u32(x: u32) -> (value: u64)
    ensures
        value == x,
{
    quinn_proto::VarInt::from_u32(x).into_inner()
}

} // verus!
