//! Identifiers, as plain integers.
use vstd::prelude::*;

use crate::foreign::decode_index_pair;
#[allow(unused_imports)]
use crate::foreign::{index_pair_decodes, le_u32};

verus! {

/// A window of the windowing system, by the number the system gives it.
pub type WindowId = u64;

/// The name of one question asked of the browser, repeated in its answer.
pub type RequestId = u128;

/// A web view: a tab's page, a panel, a menu.
#[derive(Clone, Copy, Debug, PartialEq, Eq, Structural)]
pub struct WebViewId {
    pub namespace: u32,
    pub index: u32,
}

/// A pipeline of the engine. Its index is never zero.
#[derive(Clone, Copy, Debug, PartialEq, Eq, Structural)]
pub struct PipelineId {
    pub namespace: u32,
    pub index: u32,
}

/// A document of the renderer.
#[derive(Clone, Copy, Debug, PartialEq, Eq, Structural)]
pub struct DocumentId {
    pub namespace: u32,
    pub id: u32,
}

/// `bytes` begin with a pipeline's namespace and its non-zero index.
pub open spec fn names_pipeline(bytes: Seq<u8>) -> bool {
    index_pair_decodes(bytes)
}

/// The pipeline that `bytes` begin with: two little-endian words.
pub open spec fn pipeline_named(bytes: Seq<u8>) -> PipelineId {
    PipelineId { namespace: le_u32(bytes, 0) as u32, index: le_u32(bytes, 4) as u32 }
}

impl PipelineId {
    /// Reads a pipeline from the bytes that a navigation question was sent with.
    /// Bytes after the first eight are ignored.
    pub fn decode(bytes: &[u8]) -> (r: Option<PipelineId>)
        ensures
            r == (if names_pipeline(bytes@) { Some(pipeline_named(bytes@)) } else { None }),
            r matches Some(id) ==> id.index != 0,
    {
        match decode_index_pair(bytes) {
            Ok((namespace, index)) => Some(PipelineId { namespace, index }),
            Err(_) => None,
        }
    }
}

/// The number under which a window's document is added to the renderer: the low
/// half of the window's own number.
pub fn document_number(window: WindowId) -> (r: u32)
    ensures
        r == window % 0x1_0000_0000,
{
    assert(window as u32 == window % 0x1_0000_0000) by (bit_vector);
    #[verifier::truncate]
    (window as u32)
}

} // verus!
