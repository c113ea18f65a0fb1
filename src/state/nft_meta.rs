//! The asset metadata record: one per minted asset.
use crate::bytes::{has_prefix, push_bytes, read_array};
use crate::error::UniPinoNftErr;
use vstd::prelude::*;

verus! {

/// Size in bytes of an encoded metadata record.
pub const NFT_META_LEN: usize = 840;

/// Leading tag of a metadata record: `"nftmeta"` and a zero byte.
pub const NFT_META_TAG: [u8; 8] = [0x6e, 0x66, 0x74, 0x6d, 0x65, 0x74, 0x61, 0x00];

pub open spec fn nft_meta_tag() -> Seq<u8> {
    seq![0x6eu8, 0x66, 0x74, 0x6d, 0x65, 0x74, 0x61, 0x00]
}

/// The fields of a metadata record, as values.
pub ghost struct NftMetaView {
    pub discriminator: Seq<u8>,
    pub name: Seq<u8>,
    pub collection: Seq<u8>,
    pub uri: Seq<u8>,
    pub description: Seq<u8>,
}

impl NftMetaView {
    /// Every fixed-width field has its width.
    pub open spec fn wf(self) -> bool {
        &&& self.discriminator.len() == 8
        &&& self.name.len() == 256
        &&& self.collection.len() == 64
        &&& self.uri.len() == 256
        &&& self.description.len() == 256
    }

    /// The record's byte layout: fields in order.
    pub open spec fn bytes(self) -> Seq<u8> {
        self.discriminator + self.name + self.collection + self.uri + self.description
    }
}

/// Whether `s` has a metadata record's size and tag.
pub open spec fn is_nft_meta_record(s: Seq<u8>) -> bool {
    s.len() == NFT_META_LEN && s.subrange(0, 8) == nft_meta_tag()
}

/// The fields read from their offsets in `s`.
pub open spec fn parse_nft_meta(s: Seq<u8>) -> NftMetaView {
    NftMetaView {
        discriminator: s.subrange(0, 8),
        name: s.subrange(8, 264),
        collection: s.subrange(264, 328),
        uri: s.subrange(328, 584),
        description: s.subrange(584, 840),
    }
}

/// Encoding and then decoding a record gives it back.
pub proof fn lemma_nft_meta_decode_encode(v: NftMetaView)
    requires
        v.wf(),
    ensures
        v.bytes().len() == NFT_META_LEN,
        parse_nft_meta(v.bytes()) == v,
{
    let b = v.bytes();
    assert(b.subrange(0, 8) == v.discriminator);
    assert(b.subrange(8, 264) == v.name);
    assert(b.subrange(264, 328) == v.collection);
    assert(b.subrange(328, 584) == v.uri);
    assert(b.subrange(584, 840) == v.description);
}

/// Decoding a record-sized byte string and encoding it again gives it back.
pub proof fn lemma_nft_meta_encode_decode(s: Seq<u8>)
    requires
        s.len() == NFT_META_LEN,
    ensures
        parse_nft_meta(s).wf(),
        parse_nft_meta(s).bytes() == s,
{
    assert(parse_nft_meta(s).bytes() =~= s);
}

/// The metadata record of one asset.
#[derive(Clone, Copy)]
pub struct NftMeta {
    pub discriminator: [u8; 8],
    pub name: [u8; 256],
    pub collection: [u8; 64],
    pub uri: [u8; 256],
    pub description: [u8; 256],
}

impl View for NftMeta {
    type V = NftMetaView;

    open spec fn view(&self) -> NftMetaView {
        NftMetaView {
            discriminator: self.discriminator@,
            name: self.name@,
            collection: self.collection@,
            uri: self.uri@,
            description: self.description@,
        }
    }
}

impl NftMeta {
    /// A record with the metadata tag and the given fields.
    pub fn new(name: [u8; 256], collection: [u8; 64], uri: [u8; 256], description: [u8; 256]) -> (r: Self)
        ensures
            r@ == (NftMetaView {
                discriminator: nft_meta_tag(),
                name: name@,
                collection: collection@,
                uri: uri@,
                description: description@,
            }),
    {
        let r = NftMeta { discriminator: NFT_META_TAG, name, collection, uri, description };
        assert(r.discriminator@ == nft_meta_tag());
        r
    }

    /// Reads the fields at their offsets without looking at the tag; the
    /// argument bundle of a metadata update has this layout.
    pub fn from_layout(data: &[u8]) -> (r: Option<Self>)
        ensures
            match r {
                Some(m) => data@.len() == NFT_META_LEN && m@ == parse_nft_meta(data@),
                None => data@.len() != NFT_META_LEN,
            },
    {
        if data.len() != NFT_META_LEN {
            return None;
        }
        Some(
            NftMeta {
                discriminator: read_array(data, 0),
                name: read_array(data, 8),
                collection: read_array(data, 264),
                uri: read_array(data, 328),
                description: read_array(data, 584),
            },
        )
    }

    /// Decodes a metadata record, checking its size and tag first.
    pub fn try_from_bytes(data: &[u8]) -> (r: Result<Self, UniPinoNftErr>)
        ensures
            match r {
                Ok(m) => is_nft_meta_record(data@) && m@ == parse_nft_meta(data@),
                Err(e) => !is_nft_meta_record(data@) && e == UniPinoNftErr::MalformedRecord,
            },
    {
        if data.len() != NFT_META_LEN {
            return Err(UniPinoNftErr::MalformedRecord);
        }
        let tag = NFT_META_TAG;
        assert(tag@ == nft_meta_tag());
        if !has_prefix(data, tag.as_slice()) {
            return Err(UniPinoNftErr::MalformedRecord);
        }
        match NftMeta::from_layout(data) {
            Some(m) => Ok(m),
            None => Err(UniPinoNftErr::MalformedRecord),
        }
    }

    /// The record's bytes.
    pub fn to_bytes(&self) -> (r: Vec<u8>)
        ensures
            r@ == self@.bytes(),
    {
        let mut out: Vec<u8> = Vec::new();
        push_bytes(&mut out, self.discriminator.as_slice());
        push_bytes(&mut out, self.name.as_slice());
        push_bytes(&mut out, self.collection.as_slice());
        push_bytes(&mut out, self.uri.as_slice());
        push_bytes(&mut out, self.description.as_slice());
        assert(out@ =~= self@.bytes());
        out
    }
}

} // verus!
