//! The platform record: one root configuration record per administrator.
use crate::bytes::{has_prefix, push_bytes, push_u64, read_array, read_u64};
use crate::error::UniPinoNftErr;
use vstd::bytes::*;
use vstd::prelude::*;

verus! {

/// Size in bytes of an encoded platform record.
pub const PLATFORM_LEN: usize = 225;

/// Leading tag of a platform record: `"platform"`.
pub const PLATFORM_TAG: [u8; 8] = [0x70, 0x6c, 0x61, 0x74, 0x66, 0x6f, 0x72, 0x6d];

pub open spec fn platform_tag() -> Seq<u8> {
    seq![0x70u8, 0x6c, 0x61, 0x74, 0x66, 0x6f, 0x72, 0x6d]
}

/// The fields of a platform record, as values.
pub ghost struct PlatformView {
    pub discriminator: Seq<u8>,
    pub administrator: Seq<u8>,
    pub fee_receiver: Seq<u8>,
    pub total_users: u64,
    pub total_mints: u64,
    pub mint_fee: u64,
    pub bump: u8,
    pub reserved: Seq<u8>,
}

impl PlatformView {
    /// Every fixed-width field has its width.
    pub open spec fn wf(self) -> bool {
        &&& self.discriminator.len() == 8
        &&& self.administrator.len() == 32
        &&& self.fee_receiver.len() == 32
        &&& self.reserved.len() == 128
    }

    /// The record's byte layout: fields in order, integers little-endian.
    pub open spec fn bytes(self) -> Seq<u8> {
        self.discriminator + self.administrator + self.fee_receiver + spec_u64_to_le_bytes(
            self.total_users,
        ) + spec_u64_to_le_bytes(self.total_mints) + spec_u64_to_le_bytes(self.mint_fee) + seq![
            self.bump,
        ] + self.reserved
    }
}

/// Whether `s` has a platform record's size and tag.
pub open spec fn is_platform_record(s: Seq<u8>) -> bool {
    s.len() == PLATFORM_LEN && s.subrange(0, 8) == platform_tag()
}

/// The fields read from their offsets in `s`.
pub open spec fn parse_platform(s: Seq<u8>) -> PlatformView {
    PlatformView {
        discriminator: s.subrange(0, 8),
        administrator: s.subrange(8, 40),
        fee_receiver: s.subrange(40, 72),
        total_users: spec_u64_from_le_bytes(s.subrange(72, 80)),
        total_mints: spec_u64_from_le_bytes(s.subrange(80, 88)),
        mint_fee: spec_u64_from_le_bytes(s.subrange(88, 96)),
        bump: s[96],
        reserved: s.subrange(97, 225),
    }
}

/// A fresh record for `administrator`: it also receives the fees, counters
/// and fee are zero.
pub open spec fn fresh_platform(administrator: Seq<u8>, bump: u8) -> PlatformView {
    PlatformView {
        discriminator: platform_tag(),
        administrator,
        fee_receiver: administrator,
        total_users: 0,
        total_mints: 0,
        mint_fee: 0,
        bump,
        reserved: Seq::new(128, |i: int| 0u8),
    }
}

/// Encoding and then decoding a record gives it back.
pub proof fn lemma_platform_decode_encode(v: PlatformView)
    requires
        v.wf(),
    ensures
        v.bytes().len() == PLATFORM_LEN,
        parse_platform(v.bytes()) == v,
{
    lemma_auto_spec_u64_to_from_le_bytes();
    let b = v.bytes();
    assert(b.subrange(0, 8) == v.discriminator);
    assert(b.subrange(8, 40) == v.administrator);
    assert(b.subrange(40, 72) == v.fee_receiver);
    assert(b.subrange(72, 80) == spec_u64_to_le_bytes(v.total_users));
    assert(b.subrange(80, 88) == spec_u64_to_le_bytes(v.total_mints));
    assert(b.subrange(88, 96) == spec_u64_to_le_bytes(v.mint_fee));
    assert(b.subrange(97, 225) == v.reserved);
}

/// Decoding a record-sized byte string and encoding it again gives it back.
pub proof fn lemma_platform_encode_decode(s: Seq<u8>)
    requires
        s.len() == PLATFORM_LEN,
    ensures
        parse_platform(s).wf(),
        parse_platform(s).bytes() == s,
{
    lemma_auto_spec_u64_to_from_le_bytes();
    let v = parse_platform(s);
    assert(spec_u64_to_le_bytes(v.total_users) == s.subrange(72, 80));
    assert(spec_u64_to_le_bytes(v.total_mints) == s.subrange(80, 88));
    assert(spec_u64_to_le_bytes(v.mint_fee) == s.subrange(88, 96));
    assert(v.bytes() =~= s);
}

/// The platform record.
#[derive(Clone, Copy)]
pub struct Platform {
    pub discriminator: [u8; 8],
    pub administrator: [u8; 32],
    pub fee_receiver: [u8; 32],
    pub total_users: u64,
    pub total_mints: u64,
    pub mint_fee: u64,
    pub bump: u8,
    pub reserved: [u8; 128],
}

impl View for Platform {
    type V = PlatformView;

    open spec fn view(&self) -> PlatformView {
        PlatformView {
            discriminator: self.discriminator@,
            administrator: self.administrator@,
            fee_receiver: self.fee_receiver@,
            total_users: self.total_users,
            total_mints: self.total_mints,
            mint_fee: self.mint_fee,
            bump: self.bump,
            reserved: self.reserved@,
        }
    }
}

impl Platform {
    /// A fresh record for `authority` with the derivation bump `bump`.
    pub fn new(authority: [u8; 32], bump: u8) -> (r: Self)
        ensures
            r@ == fresh_platform(authority@, bump),
    {
        let r = Platform {
            discriminator: PLATFORM_TAG,
            administrator: authority,
            fee_receiver: authority,
            total_users: 0,
            total_mints: 0,
            mint_fee: 0,
            bump,
            reserved: [0u8; 128],
        };
        assert(r.discriminator@ == platform_tag());
        assert(r.reserved@ == Seq::new(128, |i: int| 0u8));
        r
    }

    /// Decodes a platform record, checking its size and tag first.
    pub fn try_from_bytes(data: &[u8]) -> (r: Result<Self, UniPinoNftErr>)
        ensures
            match r {
                Ok(p) => is_platform_record(data@) && p@ == parse_platform(data@),
                Err(e) => !is_platform_record(data@) && e == UniPinoNftErr::MalformedRecord,
            },
    {
        if data.len() != PLATFORM_LEN {
            return Err(UniPinoNftErr::MalformedRecord);
        }
        let tag = PLATFORM_TAG;
        assert(tag@ == platform_tag());
        if !has_prefix(data, tag.as_slice()) {
            return Err(UniPinoNftErr::MalformedRecord);
        }
        let r = Platform {
            discriminator: read_array(data, 0),
            administrator: read_array(data, 8),
            fee_receiver: read_array(data, 40),
            total_users: read_u64(data, 72),
            total_mints: read_u64(data, 80),
            mint_fee: read_u64(data, 88),
            bump: data[96],
            reserved: read_array(data, 97),
        };
        Ok(r)
    }

    /// The record's bytes.
    pub fn to_bytes(&self) -> (r: Vec<u8>)
        ensures
            r@ == self@.bytes(),
    {
        let mut out: Vec<u8> = Vec::new();
        push_bytes(&mut out, self.discriminator.as_slice());
        push_bytes(&mut out, self.administrator.as_slice());
        push_bytes(&mut out, self.fee_receiver.as_slice());
        push_u64(&mut out, self.total_users);
        push_u64(&mut out, self.total_mints);
        push_u64(&mut out, self.mint_fee);
        out.push(self.bump);
        push_bytes(&mut out, self.reserved.as_slice());
        assert(out@ =~= self@.bytes());
        out
    }
}

} // verus!
