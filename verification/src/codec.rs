//! Identity codec: a stable, size-fixed byte encoding for [`ResourceId`] and
//! [`ResourceConsumerId`].
//!
//! Independently compiled plugins exchange these identities across a boundary
//! with no shared compiled layout, so the only safe representation is an
//! explicit, versioned byte layout: one discriminant byte, followed by the
//! numeric payload in little-endian order, padded with zeroes to a fixed
//! width. Plugins never build the tagged unions by hand; they call the
//! exported constructor functions and receive the encoded form.
//!
//! Encoding and decoding are exact inverses: see
//! [`lemma_resource_round_trip`] and [`lemma_consumer_round_trip`].

use vstd::prelude::*;

use crate::resources::ResourceConsumerId;
use crate::resources::ResourceId;

verus! {

/// Width, in bytes, of an encoded identity. Part of the versioned binary
/// contract: a plugin built against a different width must be refused at
/// load time (see [`crate::plugin::layout_compatible`]).
pub const ENCODED_ID_WIDTH: usize = 56;

/// The fixed byte layout: discriminant first, then the payload in
/// little-endian order, then zero padding.
pub open spec fn spec_encode_id(tag: u8, payload: u32) -> Seq<u8> {
    Seq::new(
        56,
        |i: int|
            if i == 0 {
                tag
            } else if i == 1 {
                (payload & 0xff) as u8
            } else if i == 2 {
                ((payload >> 8) & 0xff) as u8
            } else if i == 3 {
                ((payload >> 16) & 0xff) as u8
            } else if i == 4 {
                ((payload >> 24) & 0xff) as u8
            } else {
                0u8
            },
    )
}

/// The little-endian payload held in an encoded identity.
pub open spec fn spec_payload(bytes: Seq<u8>) -> u32
    recommends
        bytes.len() == 56,
{
    (bytes[1] as u32) | ((bytes[2] as u32) << 8) | ((bytes[3] as u32) << 16) | ((
    bytes[4] as u32) << 24)
}

/// What a [`ResourceId`] encodes to.
pub open spec fn spec_encode_resource(r: ResourceId) -> Seq<u8> {
    match r {
        ResourceId::LocalMachine => spec_encode_id(0, 0),
        ResourceId::CpuPackage { id } => spec_encode_id(1, id),
    }
}

/// What a sequence of bytes decodes to, as a [`ResourceId`].
pub open spec fn spec_decode_resource(bytes: Seq<u8>) -> ResourceId {
    if bytes[0] == 1u8 {
        ResourceId::CpuPackage { id: spec_payload(bytes) }
    } else {
        ResourceId::LocalMachine
    }
}

/// What a [`ResourceConsumerId`] encodes to.
pub open spec fn spec_encode_consumer(c: ResourceConsumerId) -> Seq<u8> {
    match c {
        ResourceConsumerId::LocalMachine => spec_encode_id(0, 0),
        ResourceConsumerId::Process { pid } => spec_encode_id(1, pid),
    }
}

/// What a sequence of bytes decodes to, as a [`ResourceConsumerId`].
pub open spec fn spec_decode_consumer(bytes: Seq<u8>) -> ResourceConsumerId {
    if bytes[0] == 1u8 {
        ResourceConsumerId::Process { pid: spec_payload(bytes) }
    } else {
        ResourceConsumerId::LocalMachine
    }
}

/// A [`ResourceId`] in its fixed-size encoded form, the only form that may
/// cross the plugin boundary.
pub struct FfiResourceId {
    bytes: [u8; 56],
}

impl View for FfiResourceId {
    type V = Seq<u8>;

    closed spec fn view(&self) -> Seq<u8> {
        self.bytes@
    }
}

/// A [`ResourceConsumerId`] in its fixed-size encoded form.
pub struct FfiConsumerId {
    bytes: [u8; 56],
}

impl View for FfiConsumerId {
    type V = Seq<u8>;

    closed spec fn view(&self) -> Seq<u8> {
        self.bytes@
    }
}

/// Fills in the fixed layout for one discriminant and one payload.
fn encode_id(tag: u8, payload: u32) -> (r: [u8; 56])
    ensures
        r@ == spec_encode_id(tag, payload),
{
    let mut bytes: [u8; 56] = [0u8; 56];
    bytes[0] = tag;
    bytes[1] = (payload & 0xff) as u8;
    bytes[2] = ((payload >> 8) & 0xff) as u8;
    bytes[3] = ((payload >> 16) & 0xff) as u8;
    bytes[4] = ((payload >> 24) & 0xff) as u8;
    proof {
        assert(bytes@ =~= spec_encode_id(tag, payload));
    }
    bytes
}

impl ResourceId {
    /// Encodes this identity into its fixed-size byte form.
    pub fn encode(self) -> (r: FfiResourceId)
        ensures
            r@ == spec_encode_resource(self),
    {
        match self {
            ResourceId::LocalMachine => FfiResourceId { bytes: encode_id(0, 0) },
            ResourceId::CpuPackage { id } => FfiResourceId { bytes: encode_id(1, id) },
        }
    }
}

impl FfiResourceId {
    /// Decodes the byte form back into the tagged union.
    pub fn decode(&self) -> (r: ResourceId)
        ensures
            r == spec_decode_resource(self@),
    {
        if self.bytes[0] == 1 {
            ResourceId::CpuPackage { id: decode_payload(&self.bytes) }
        } else {
            ResourceId::LocalMachine
        }
    }
}

impl ResourceConsumerId {
    /// Encodes this identity into its fixed-size byte form.
    pub fn encode(self) -> (r: FfiConsumerId)
        ensures
            r@ == spec_encode_consumer(self),
    {
        match self {
            ResourceConsumerId::LocalMachine => FfiConsumerId { bytes: encode_id(0, 0) },
            ResourceConsumerId::Process { pid } => FfiConsumerId { bytes: encode_id(1, pid) },
        }
    }
}

impl FfiConsumerId {
    /// Decodes the byte form back into the tagged union.
    pub fn decode(&self) -> (r: ResourceConsumerId)
        ensures
            r == spec_decode_consumer(self@),
    {
        if self.bytes[0] == 1 {
            ResourceConsumerId::Process { pid: decode_payload(&self.bytes) }
        } else {
            ResourceConsumerId::LocalMachine
        }
    }
}

/// Reads the little-endian payload back out of the fixed layout.
fn decode_payload(bytes: &[u8; 56]) -> (r: u32)
    ensures
        r == spec_payload(bytes@),
{
    (bytes[1] as u32) | ((bytes[2] as u32) << 8) | ((bytes[3] as u32) << 16) | ((
    bytes[4] as u32) << 24)
}

/// Splitting a 32-bit value into little-endian bytes and recombining them
/// gives the value back.
proof fn lemma_le32_round_trip(v: u32)
    ensures
        ((((v & 0xff) as u8) as u32) | ((((v >> 8) & 0xff) as u8) as u32) << 8 | ((((v >> 16)
            & 0xff) as u8) as u32) << 16 | ((((v >> 24) & 0xff) as u8) as u32) << 24) == v,
{
    assert(((((v & 0xff) as u8) as u32) | ((((v >> 8) & 0xff) as u8) as u32) << 8 | ((((v >> 16)
        & 0xff) as u8) as u32) << 16 | ((((v >> 24) & 0xff) as u8) as u32) << 24) == v)
        by (bit_vector);
}

/// Round-trip law: decoding an encoded [`ResourceId`] gives the identity
/// back, for every constructible identity.
pub proof fn lemma_resource_round_trip(r: ResourceId)
    ensures
        spec_decode_resource(spec_encode_resource(r)) == r,
{
    match r {
        ResourceId::LocalMachine => {
        },
        ResourceId::CpuPackage { id } => {
            lemma_le32_round_trip(id);
        },
    }
}

/// Round-trip law: decoding an encoded [`ResourceConsumerId`] gives the
/// identity back, for every constructible identity.
pub proof fn lemma_consumer_round_trip(c: ResourceConsumerId)
    ensures
        spec_decode_consumer(spec_encode_consumer(c)) == c,
{
    match c {
        ResourceConsumerId::LocalMachine => {
        },
        ResourceConsumerId::Process { pid } => {
            lemma_le32_round_trip(pid);
        },
    }
}

/// Exported constructor: the local-machine resource, in encoded form.
pub fn resource_new_local_machine() -> (r: FfiResourceId)
    ensures
        r@ == spec_encode_resource(ResourceId::LocalMachine),
{
    ResourceId::LocalMachine.encode()
}

/// Exported constructor: one CPU package, in encoded form.
pub fn resource_new_cpu_package(pkg_id: u32) -> (r: FfiResourceId)
    ensures
        r@ == spec_encode_resource(ResourceId::CpuPackage { id: pkg_id }),
{
    ResourceId::CpuPackage { id: pkg_id }.encode()
}

/// Exported constructor: the local-machine consumer, in encoded form.
pub fn consumer_new_local_machine() -> (r: FfiConsumerId)
    ensures
        r@ == spec_encode_consumer(ResourceConsumerId::LocalMachine),
{
    ResourceConsumerId::LocalMachine.encode()
}

/// Exported constructor: a process consumer, in encoded form.
pub fn consumer_new_process(pid: u32) -> (r: FfiConsumerId)
    ensures
        r@ == spec_encode_consumer(ResourceConsumerId::Process { pid }),
{
    ResourceConsumerId::Process { pid }.encode()
}

} // verus!
