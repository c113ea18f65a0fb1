//! The operations: their argument bundles, the request decoder, and the
//! handlers.
use crate::bytes::{read_array, read_u128, read_u64};
use crate::error::UniPinoNftErr;
use crate::state::nft_meta::{parse_nft_meta, NftMeta, NftMetaView, NFT_META_LEN};
use vstd::bytes::*;
use vstd::prelude::*;

pub mod nft;
pub mod platform;
pub mod user;

verus! {

/// Size in bytes of the platform update arguments.
pub const UPDATE_PLATFORM_ARGS_LEN: usize = 41;

/// Size in bytes of the mint arguments.
pub const MINT_NFT_ARGS_LEN: usize = 784;

/// Arguments of a platform update: the new fee, and a new fee receiver
/// that counts only when the flag byte is not zero.
#[derive(Clone, Copy)]
pub struct UpdatePlatformArgs {
    pub is_receiver_valid: u8,
    pub fee_receiver: [u8; 32],
    pub mint_fee: u64,
}

pub ghost struct UpdatePlatformArgsView {
    pub is_receiver_valid: u8,
    pub fee_receiver: Seq<u8>,
    pub mint_fee: u64,
}

impl View for UpdatePlatformArgs {
    type V = UpdatePlatformArgsView;

    open spec fn view(&self) -> UpdatePlatformArgsView {
        UpdatePlatformArgsView {
            is_receiver_valid: self.is_receiver_valid,
            fee_receiver: self.fee_receiver@,
            mint_fee: self.mint_fee,
        }
    }
}

/// The platform update arguments read from their offsets in `s`.
pub open spec fn parse_update_platform_args(s: Seq<u8>) -> UpdatePlatformArgsView {
    UpdatePlatformArgsView {
        is_receiver_valid: s[0],
        fee_receiver: s.subrange(1, 33),
        mint_fee: spec_u64_from_le_bytes(s.subrange(33, 41)),
    }
}

impl UpdatePlatformArgs {
    /// Decodes the arguments; they must have exactly their size.
    pub fn try_from_bytes(data: &[u8]) -> (r: Result<Self, UniPinoNftErr>)
        ensures
            match r {
                Ok(a) => data@.len() == UPDATE_PLATFORM_ARGS_LEN && a@ == parse_update_platform_args(
                    data@,
                ),
                Err(e) => data@.len() != UPDATE_PLATFORM_ARGS_LEN && e
                    == UniPinoNftErr::InvalidInstructionData,
            },
    {
        if data.len() != UPDATE_PLATFORM_ARGS_LEN {
            return Err(UniPinoNftErr::InvalidInstructionData);
        }
        Ok(
            UpdatePlatformArgs {
                is_receiver_valid: data[0],
                fee_receiver: read_array(data, 1),
                mint_fee: read_u64(data, 33),
            },
        )
    }
}

/// Arguments of a mint: which asset of the user, and its name, location and
/// description.
#[derive(Clone, Copy)]
pub struct MintNftArgs {
    pub user_uuid: u128,
    pub asset_name: [u8; 256],
    pub uri: [u8; 256],
    pub desc: [u8; 256],
}

pub ghost struct MintNftArgsView {
    pub user_uuid: u128,
    pub asset_name: Seq<u8>,
    pub uri: Seq<u8>,
    pub desc: Seq<u8>,
}

impl View for MintNftArgs {
    type V = MintNftArgsView;

    open spec fn view(&self) -> MintNftArgsView {
        MintNftArgsView {
            user_uuid: self.user_uuid,
            asset_name: self.asset_name@,
            uri: self.uri@,
            desc: self.desc@,
        }
    }
}

/// The mint arguments read from their offsets in `s`.
pub open spec fn parse_mint_nft_args(s: Seq<u8>) -> MintNftArgsView {
    MintNftArgsView {
        user_uuid: spec_u128_from_le_bytes(s.subrange(0, 16)),
        asset_name: s.subrange(16, 272),
        uri: s.subrange(272, 528),
        desc: s.subrange(528, 784),
    }
}

impl MintNftArgs {
    /// Decodes the arguments; they must have exactly their size.
    pub fn try_from_bytes(data: &[u8]) -> (r: Result<Self, UniPinoNftErr>)
        ensures
            match r {
                Ok(a) => data@.len() == MINT_NFT_ARGS_LEN && a@ == parse_mint_nft_args(data@),
                Err(e) => data@.len() != MINT_NFT_ARGS_LEN && e
                    == UniPinoNftErr::InvalidInstructionData,
            },
    {
        if data.len() != MINT_NFT_ARGS_LEN {
            return Err(UniPinoNftErr::InvalidInstructionData);
        }
        Ok(
            MintNftArgs {
                user_uuid: read_u128(data, 0),
                asset_name: read_array(data, 16),
                uri: read_array(data, 272),
                desc: read_array(data, 528),
            },
        )
    }
}

/// A decoded request: the operation its selector byte names, with its
/// arguments.
pub enum UniPinoNftInstruction {
    InitPlatform,
    UpdatePlatform { update_args: UpdatePlatformArgs },
    CreateUser { user_uuid: u128 },
    MintNft { mint_args: MintNftArgs },
    UpdateNFTMetadata { meta: NftMeta },
    BurnNFT,
}

pub ghost enum InstructionView {
    InitPlatform,
    UpdatePlatform { update_args: UpdatePlatformArgsView },
    CreateUser { user_uuid: u128 },
    MintNft { mint_args: MintNftArgsView },
    UpdateNFTMetadata { meta: NftMetaView },
    BurnNFT,
}

impl View for UniPinoNftInstruction {
    type V = InstructionView;

    open spec fn view(&self) -> InstructionView {
        match self {
            UniPinoNftInstruction::InitPlatform => InstructionView::InitPlatform,
            UniPinoNftInstruction::UpdatePlatform { update_args } => {
                InstructionView::UpdatePlatform { update_args: update_args@ }
            },
            UniPinoNftInstruction::CreateUser { user_uuid } => InstructionView::CreateUser {
                user_uuid: *user_uuid,
            },
            UniPinoNftInstruction::MintNft { mint_args } => InstructionView::MintNft {
                mint_args: mint_args@,
            },
            UniPinoNftInstruction::UpdateNFTMetadata { meta } => {
                InstructionView::UpdateNFTMetadata { meta: meta@ }
            },
            UniPinoNftInstruction::BurnNFT => InstructionView::BurnNFT,
        }
    }
}

/// The request that `data` encodes: one selector byte, then the arguments
/// in their fixed layout. Operations without arguments ignore the rest.
pub open spec fn parse_instruction(data: Seq<u8>) -> Result<InstructionView, UniPinoNftErr> {
    if data.len() == 0 {
        Err(UniPinoNftErr::UnknownOperation)
    } else {
        let rest = data.subrange(1, data.len() as int);
        if data[0] == 0 {
            Ok(InstructionView::InitPlatform)
        } else if data[0] == 1 {
            if rest.len() == UPDATE_PLATFORM_ARGS_LEN {
                Ok(
                    InstructionView::UpdatePlatform {
                        update_args: parse_update_platform_args(rest),
                    },
                )
            } else {
                Err(UniPinoNftErr::InvalidInstructionData)
            }
        } else if data[0] == 2 {
            if rest.len() == 16 {
                Ok(InstructionView::CreateUser { user_uuid: spec_u128_from_le_bytes(rest) })
            } else {
                Err(UniPinoNftErr::InvalidInstructionData)
            }
        } else if data[0] == 3 {
            if rest.len() == MINT_NFT_ARGS_LEN {
                Ok(InstructionView::MintNft { mint_args: parse_mint_nft_args(rest) })
            } else {
                Err(UniPinoNftErr::InvalidInstructionData)
            }
        } else if data[0] == 4 {
            if rest.len() == NFT_META_LEN {
                Ok(InstructionView::UpdateNFTMetadata { meta: parse_nft_meta(rest) })
            } else {
                Err(UniPinoNftErr::InvalidInstructionData)
            }
        } else if data[0] == 5 {
            Ok(InstructionView::BurnNFT)
        } else {
            Err(UniPinoNftErr::UnknownOperation)
        }
    }
}

impl UniPinoNftInstruction {
    /// Decodes a request.
    pub fn unpack(data: &[u8]) -> (r: Result<Self, UniPinoNftErr>)
        ensures
            match parse_instruction(data@) {
                Ok(i) => r is Ok && r->Ok_0@ == i,
                Err(e) => r is Err && r->Err_0 == e,
            },
    {
        if data.len() == 0 {
            return Err(UniPinoNftErr::UnknownOperation);
        }
        let selector = data[0];
        let rest = vstd::slice::slice_subrange(data, 1, data.len());
        assert(rest@ == data@.subrange(1, data@.len() as int));
        if selector == 0 {
            Ok(UniPinoNftInstruction::InitPlatform)
        } else if selector == 1 {
            let update_args = UpdatePlatformArgs::try_from_bytes(rest)?;
            Ok(UniPinoNftInstruction::UpdatePlatform { update_args })
        } else if selector == 2 {
            if rest.len() != 16 {
                return Err(UniPinoNftErr::InvalidInstructionData);
            }
            assert(rest@.subrange(0, 16) == rest@);
            Ok(UniPinoNftInstruction::CreateUser { user_uuid: read_u128(rest, 0) })
        } else if selector == 3 {
            let mint_args = MintNftArgs::try_from_bytes(rest)?;
            Ok(UniPinoNftInstruction::MintNft { mint_args })
        } else if selector == 4 {
            match NftMeta::from_layout(rest) {
                Some(meta) => Ok(UniPinoNftInstruction::UpdateNFTMetadata { meta }),
                None => Err(UniPinoNftErr::InvalidInstructionData),
            }
        } else if selector == 5 {
            Ok(UniPinoNftInstruction::BurnNFT)
        } else {
            Err(UniPinoNftErr::UnknownOperation)
        }
    }
}

} // verus!
