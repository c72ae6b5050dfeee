//! What this crate takes from other crates: opaque types that it carries, and
//! the few calls that it makes.
use vstd::prelude::*;

verus! {

/// A parsed URL (`url::Url`), carried and never looked into.
#[verifier::external_type_specification]
#[verifier::external_body]
pub struct ExUrl(url::Url);

/// An intercepted request (`http::Request`), carried to the host's callback.
#[verifier::external_type_specification]
#[verifier::external_body]
#[verifier::reject_recursive_types(T)]
pub struct ExRequest<T>(http::Request<T>);

/// A size in either unit (`dpi::Size`), carried to the windowing system.
#[verifier::external_type_specification]
#[verifier::external_body]
pub struct ExSize(dpi::Size);

/// A position in either unit (`dpi::Position`), carried to the windowing system.
#[verifier::external_type_specification]
#[verifier::external_body]
pub struct ExPosition(dpi::Position);

/// A size in pixels (`dpi::PhysicalSize`), carried back to the host.
#[verifier::external_type_specification]
#[verifier::external_body]
#[verifier::reject_recursive_types(P)]
pub struct ExPhysicalSize<P>(dpi::PhysicalSize<P>);

/// A position in pixels (`dpi::PhysicalPosition`), carried back to the host.
#[verifier::external_type_specification]
#[verifier::external_body]
#[verifier::reject_recursive_types(P)]
pub struct ExPhysicalPosition<P>(dpi::PhysicalPosition<P>);

/// Why bytes could not be decoded (`bincode::ErrorKind`).
#[verifier::external_type_specification]
#[verifier::external_body]
pub struct ExErrorKind(bincode::ErrorKind);

/// `<url::Url as Clone>::clone`: the clone is the same URL.
pub assume_specification[ <url::Url as Clone>::clone ](u: &url::Url) -> (r: url::Url)
    ensures
        r == *u,
;

/// The four bytes of `bytes` from `at` on, least significant first, as a number.
pub open spec fn le_u32(bytes: Seq<u8>, at: int) -> int {
    bytes[at] + 0x100 * bytes[at + 1] + 0x1_0000 * bytes[at + 2] + 0x100_0000 * bytes[at + 3]
}

/// `bytes` begin with two little-endian words, the second of them not zero.
pub open spec fn index_pair_decodes(bytes: Seq<u8>) -> bool {
    bytes.len() >= 8 && le_u32(bytes, 4) != 0
}

/// `bincode::deserialize` at a `u32` followed by a `NonZeroU32`. It reads fixed
/// little-endian words, fails where fewer than eight bytes are there or where the
/// second word is zero, and takes no notice of further bytes.
#[verifier::external_body]
pub(crate) fn decode_index_pair(bytes: &[u8]) -> (r: Result<(u32, u32), Box<bincode::ErrorKind>>)
    ensures
        r is Ok <==> index_pair_decodes(bytes@),
        r matches Ok(p) ==> p.0 == le_u32(bytes@, 0) && p.1 == le_u32(bytes@, 4),
{
    let pair: (u32, std::num::NonZeroU32) = bincode::deserialize(bytes)?;
    Ok((pair.0, pair.1.get()))
}

/// The number `id`, written as a UUID, says of itself that it is random: the
/// version digit is 4 and the two variant bits are `10`.
pub open spec fn random_id(id: u128) -> bool {
    &&& id / 0x1000_0000_0000_0000_0000 % 0x10 == 4
    &&& id / 0x4000_0000_0000_0000 % 4 == 2
}

/// `uuid::Uuid::new_v4`, as the number it stands for. Which number comes is up to
/// chance; of every outcome it holds that the version and the variant are set. That
/// no number comes twice is not stated. There is no outcome, but a panic, where the
/// system has no random bytes to give.
#[verifier::external_body]
pub(crate) fn new_v4() -> (id: u128)
    ensures
        random_id(id),
{
    uuid::Uuid::new_v4().as_u128()
}

} // verus!
