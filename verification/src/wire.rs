//! Marshalling of the virtual chip creation request into its fixed-size
//! wire form.
//!
//! The wire struct carries the requested id and group as `u32` fields
//! (with the sentinel standing for "let the wire level assign one"), a
//! 32-byte zero-padded template name, and 64 reserved bytes that must
//! stay zero.  Marshalling is total; the name is silently truncated to
//! the wire width, so callers that rely on name uniqueness must keep
//! identifying names within 32 bytes.

use vstd::prelude::*;
use vstd::string::StrSliceExecFns;
use vstd::utf8::encode_utf8;
use crate::enums::VChipCreateParam;

verus! {

/// Sentinel wire value meaning "let the wire level assign the id".
pub const AUTO_SENTINEL: u32 = 0xffff_ffff;

/// Width of the template-name field on the wire, in bytes.
pub const WIRE_TEMPLATE_NAME_LEN: usize = 32;

/// Width of the reserved field on the wire, in bytes.
pub const WIRE_RESERVED_LEN: usize = 64;

/// The fixed-size wire form of a virtual chip creation request.
pub struct CreateVChipRequest {
    /// Requested virtual chip id, or the sentinel for auto-assignment
    pub vdev_id: u32,
    /// Requested group id, or the sentinel for auto-assignment
    pub vfg_id: u32,
    /// Template name, truncated to 32 bytes and zero padded
    pub template_name: Vec<u8>,
    /// Reserved bytes, all zero
    pub reserved: Vec<u8>,
}

/// The id a creation parameter puts on the wire: the explicit id, or
/// the sentinel when the caller left it unspecified.
pub open spec fn wire_id_of(param: VChipCreateParam) -> u32 {
    match param {
        VChipCreateParam::TemplateName(_) => AUTO_SENTINEL,
        VChipCreateParam::SpecificId { id, .. } => id,
    }
}

/// The group a creation parameter puts on the wire: the explicit group,
/// or the sentinel when the caller left it unspecified.
pub open spec fn wire_group_of(param: VChipCreateParam) -> u32 {
    match param {
        VChipCreateParam::TemplateName(_) => AUTO_SENTINEL,
        VChipCreateParam::SpecificId { group_id, .. } => group_id,
    }
}

/// The template name a creation parameter carries.
pub open spec fn template_name_of(param: VChipCreateParam) -> Seq<char> {
    match param {
        VChipCreateParam::TemplateName(template_name) => template_name@,
        VChipCreateParam::SpecificId { template_name, .. } => template_name@,
    }
}

/// The wire form of a name: exactly its first 32 bytes, zero padded
/// when the name is shorter.
pub open spec fn truncated_name(bytes: Seq<u8>) -> Seq<u8> {
    Seq::new(
        WIRE_TEMPLATE_NAME_LEN as nat,
        |i: int| if i < bytes.len() { bytes[i] } else { 0u8 },
    )
}

/// A sequence of zero bytes of the given length.
pub open spec fn zero_bytes(n: nat) -> Seq<u8> {
    Seq::new(n, |i: int| 0u8)
}

/// Well-formedness of the wire form: both fixed-size fields have their
/// wire width.
pub open spec fn wire_request_wf(r: CreateVChipRequest) -> bool {
    r.template_name@.len() == WIRE_TEMPLATE_NAME_LEN && r.reserved@.len() == WIRE_RESERVED_LEN
}

/// Reading an id field back from the wire: the sentinel means the field
/// was left to the wire level, any other value is the explicit id.
pub open spec fn unmarshal_id(raw: u32) -> Option<u32> {
    if raw == AUTO_SENTINEL {
        None
    } else {
        Some(raw)
    }
}

impl CreateVChipRequest {
    /// Marshal a creation parameter to its wire form: sentinel for every
    /// unspecified field, the template name truncated to the wire width
    /// and zero padded, all reserved bytes zero.
    pub fn from_param(param: VChipCreateParam) -> (r: CreateVChipRequest)
        ensures
            wire_request_wf(r),
            r.vdev_id == wire_id_of(param),
            r.vfg_id == wire_group_of(param),
            r.template_name@ == truncated_name(encode_utf8(template_name_of(param))),
            r.reserved@ == zero_bytes(WIRE_RESERVED_LEN as nat),
    {
        let (vdev_id, vfg_id, name): (u32, u32, String) = match param {
            VChipCreateParam::TemplateName(template_name) => {
                (AUTO_SENTINEL, AUTO_SENTINEL, template_name)
            },
            VChipCreateParam::SpecificId { template_name, id, group_id } => {
                (id, group_id, template_name)
            },
        };
        let name_bytes: Vec<u8> = name.as_str().as_bytes_vec();
        let mut template_name: Vec<u8> = Vec::new();
        let mut i: usize = 0;
        while i < WIRE_TEMPLATE_NAME_LEN
            invariant
                i <= WIRE_TEMPLATE_NAME_LEN,
                template_name@.len() == i,
                name_bytes@ == encode_utf8(name@),
                forall|j: int|
                    0 <= j < i ==> template_name@[j] == (if j < name_bytes@.len() {
                        name_bytes@[j]
                    } else {
                        0u8
                    }),
            decreases WIRE_TEMPLATE_NAME_LEN - i,
        {
            if i < name_bytes.len() {
                let b = name_bytes[i];
                template_name.push(b);
            } else {
                template_name.push(0u8);
            }
            i += 1;
        }
        let mut reserved: Vec<u8> = Vec::new();
        let mut k: usize = 0;
        while k < WIRE_RESERVED_LEN
            invariant
                k <= WIRE_RESERVED_LEN,
                reserved@.len() == k,
                forall|j: int| 0 <= j < k ==> reserved@[j] == 0u8,
            decreases WIRE_RESERVED_LEN - k,
        {
            reserved.push(0u8);
            k += 1;
        }
        proof {
            assert(template_name@ =~= truncated_name(encode_utf8(template_name_of(param))));
            assert(reserved@ =~= zero_bytes(WIRE_RESERVED_LEN as nat));
        }
        CreateVChipRequest { vdev_id, vfg_id, template_name, reserved }
    }

    /// Read the requested virtual chip id back from the wire form.
    pub fn requested_vchip_id(&self) -> (r: Option<u32>)
        ensures
            r == unmarshal_id(self.vdev_id),
    {
        if self.vdev_id == AUTO_SENTINEL {
            None
        } else {
            Some(self.vdev_id)
        }
    }

    /// Read the requested group id back from the wire form.
    pub fn requested_group_id(&self) -> (r: Option<u32>)
        ensures
            r == unmarshal_id(self.vfg_id),
    {
        if self.vfg_id == AUTO_SENTINEL {
            None
        } else {
            Some(self.vfg_id)
        }
    }
}

/// Round trip of create parameters: a parameter with an explicit id and
/// group marshals to a wire request whose id fields read back as exactly
/// those values, and the template-name-only form marshals both id fields
/// to the auto-assign sentinel.
pub proof fn lemma_create_param_id_round_trip(param: VChipCreateParam)
    ensures
        param matches VChipCreateParam::SpecificId { id, group_id, .. } ==> ((id != AUTO_SENTINEL
            ==> unmarshal_id(wire_id_of(param)) == Some(id)) && (group_id != AUTO_SENTINEL
            ==> unmarshal_id(wire_group_of(param)) == Some(group_id))),
        param matches VChipCreateParam::TemplateName(_) ==> wire_id_of(param) == AUTO_SENTINEL
            && wire_group_of(param) == AUTO_SENTINEL,
{
}

/// Name truncation: the wire form of a name has exactly the wire width;
/// it carries the name's first 32 bytes unchanged, and zero in every
/// position past the name's end.  Names of 32 bytes or fewer are
/// preserved in full.
pub proof fn lemma_template_name_truncation(bytes: Seq<u8>)
    ensures
        truncated_name(bytes).len() == WIRE_TEMPLATE_NAME_LEN,
        forall|i: int|
            0 <= i < WIRE_TEMPLATE_NAME_LEN && i < bytes.len() ==> truncated_name(bytes)[i]
                == bytes[i],
        forall|i: int|
            bytes.len() <= i < WIRE_TEMPLATE_NAME_LEN ==> truncated_name(bytes)[i] == 0u8,
        bytes.len() <= WIRE_TEMPLATE_NAME_LEN ==> truncated_name(bytes).take(bytes.len() as int)
            == bytes,
{
    if bytes.len() <= WIRE_TEMPLATE_NAME_LEN {
        assert(truncated_name(bytes).take(bytes.len() as int) =~= bytes);
    }
}

} // verus!
