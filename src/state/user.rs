//! The user record: one per (platform, uuid) pair.
use crate::bytes::{has_prefix, push_bytes, push_u128, push_u32, read_array, read_u128, read_u32};
use crate::error::UniPinoNftErr;
use vstd::bytes::*;
use vstd::prelude::*;

verus! {

/// Size in bytes of an encoded user record.
pub const USER_LEN: usize = 129;

/// Leading tag of a user record: `"usermeta"`.
pub const USER_TAG: [u8; 8] = [0x75, 0x73, 0x65, 0x72, 0x6d, 0x65, 0x74, 0x61];

pub open spec fn user_tag() -> Seq<u8> {
    seq![0x75u8, 0x73, 0x65, 0x72, 0x6d, 0x65, 0x74, 0x61]
}

/// The fields of a user record, as values.
pub ghost struct UserView {
    pub discriminator: Seq<u8>,
    pub user_uuid: u128,
    pub owner: Seq<u8>,
    pub nft_count: u32,
    pub collection_count: u32,
    pub bump: u8,
    pub reserved: Seq<u8>,
}

impl UserView {
    /// Every fixed-width field has its width.
    pub open spec fn wf(self) -> bool {
        &&& self.discriminator.len() == 8
        &&& self.owner.len() == 32
        &&& self.reserved.len() == 64
    }

    /// The record's byte layout: fields in order, integers little-endian.
    pub open spec fn bytes(self) -> Seq<u8> {
        self.discriminator + spec_u128_to_le_bytes(self.user_uuid) + self.owner
            + spec_u32_to_le_bytes(self.nft_count) + spec_u32_to_le_bytes(self.collection_count)
            + seq![self.bump] + self.reserved
    }
}

/// Whether `s` has a user record's size and tag.
pub open spec fn is_user_record(s: Seq<u8>) -> bool {
    s.len() == USER_LEN && s.subrange(0, 8) == user_tag()
}

/// The fields read from their offsets in `s`.
pub open spec fn parse_user(s: Seq<u8>) -> UserView {
    UserView {
        discriminator: s.subrange(0, 8),
        user_uuid: spec_u128_from_le_bytes(s.subrange(8, 24)),
        owner: s.subrange(24, 56),
        nft_count: spec_u32_from_le_bytes(s.subrange(56, 60)),
        collection_count: spec_u32_from_le_bytes(s.subrange(60, 64)),
        bump: s[64],
        reserved: s.subrange(65, 129),
    }
}

/// A fresh record for `user_uuid` under the platform record at `platform`,
/// with zero counters.
pub open spec fn fresh_user(platform: Seq<u8>, user_uuid: u128, bump: u8) -> UserView {
    UserView {
        discriminator: user_tag(),
        user_uuid,
        owner: platform,
        nft_count: 0,
        collection_count: 0,
        bump,
        reserved: Seq::new(64, |i: int| 0u8),
    }
}

/// Encoding and then decoding a record gives it back.
pub proof fn lemma_user_decode_encode(v: UserView)
    requires
        v.wf(),
    ensures
        v.bytes().len() == USER_LEN,
        parse_user(v.bytes()) == v,
{
    lemma_auto_spec_u32_to_from_le_bytes();
    lemma_auto_spec_u128_to_from_le_bytes();
    let b = v.bytes();
    assert(b.subrange(0, 8) == v.discriminator);
    assert(b.subrange(8, 24) == spec_u128_to_le_bytes(v.user_uuid));
    assert(b.subrange(24, 56) == v.owner);
    assert(b.subrange(56, 60) == spec_u32_to_le_bytes(v.nft_count));
    assert(b.subrange(60, 64) == spec_u32_to_le_bytes(v.collection_count));
    assert(b.subrange(65, 129) == v.reserved);
}

/// Decoding a record-sized byte string and encoding it again gives it back.
pub proof fn lemma_user_encode_decode(s: Seq<u8>)
    requires
        s.len() == USER_LEN,
    ensures
        parse_user(s).wf(),
        parse_user(s).bytes() == s,
{
    lemma_auto_spec_u32_to_from_le_bytes();
    lemma_auto_spec_u128_to_from_le_bytes();
    let v = parse_user(s);
    assert(spec_u128_to_le_bytes(v.user_uuid) == s.subrange(8, 24));
    assert(spec_u32_to_le_bytes(v.nft_count) == s.subrange(56, 60));
    assert(spec_u32_to_le_bytes(v.collection_count) == s.subrange(60, 64));
    assert(v.bytes() =~= s);
}

/// The user record.
#[derive(Clone, Copy)]
pub struct User {
    pub discriminator: [u8; 8],
    pub user_uuid: u128,
    pub owner: [u8; 32],
    pub nft_count: u32,
    pub collection_count: u32,
    pub bump: u8,
    pub reserved: [u8; 64],
}

impl View for User {
    type V = UserView;

    open spec fn view(&self) -> UserView {
        UserView {
            discriminator: self.discriminator@,
            user_uuid: self.user_uuid,
            owner: self.owner@,
            nft_count: self.nft_count,
            collection_count: self.collection_count,
            bump: self.bump,
            reserved: self.reserved@,
        }
    }
}

impl User {
    /// A fresh record for `user_uuid` owned by the platform record at
    /// `platform_pda`.
    pub fn new(platform_pda: [u8; 32], user_uuid: u128, user_bump: u8) -> (r: Self)
        ensures
            r@ == fresh_user(platform_pda@, user_uuid, user_bump),
    {
        let r = User {
            discriminator: USER_TAG,
            user_uuid,
            owner: platform_pda,
            nft_count: 0,
            collection_count: 0,
            bump: user_bump,
            reserved: [0u8; 64],
        };
        assert(r.discriminator@ == user_tag());
        assert(r.reserved@ == Seq::new(64, |i: int| 0u8));
        r
    }

    /// Decodes a user record, checking its size and tag first.
    pub fn try_from_bytes(data: &[u8]) -> (r: Result<Self, UniPinoNftErr>)
        ensures
            match r {
                Ok(u) => is_user_record(data@) && u@ == parse_user(data@),
                Err(e) => !is_user_record(data@) && e == UniPinoNftErr::MalformedRecord,
            },
    {
        if data.len() != USER_LEN {
            return Err(UniPinoNftErr::MalformedRecord);
        }
        let tag = USER_TAG;
        assert(tag@ == user_tag());
        if !has_prefix(data, tag.as_slice()) {
            return Err(UniPinoNftErr::MalformedRecord);
        }
        Ok(
            User {
                discriminator: read_array(data, 0),
                user_uuid: read_u128(data, 8),
                owner: read_array(data, 24),
                nft_count: read_u32(data, 56),
                collection_count: read_u32(data, 60),
                bump: data[64],
                reserved: read_array(data, 65),
            },
        )
    }

    /// The record's bytes.
    pub fn to_bytes(&self) -> (r: Vec<u8>)
        ensures
            r@ == self@.bytes(),
    {
        let mut out: Vec<u8> = Vec::new();
        push_bytes(&mut out, self.discriminator.as_slice());
        push_u128(&mut out, self.user_uuid);
        push_bytes(&mut out, self.owner.as_slice());
        push_u32(&mut out, self.nft_count);
        push_u32(&mut out, self.collection_count);
        out.push(self.bump);
        push_bytes(&mut out, self.reserved.as_slice());
        assert(out@ =~= self@.bytes());
        out
    }
}

} // verus!
