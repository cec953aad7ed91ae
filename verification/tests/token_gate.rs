use anchor_spl::token_2022::spl_token_2022::extension::ExtensionType;
use anchor_spl::token_2022::spl_token_2022::native_mint;
use token2022_amm::common::error::AMMError;
use token2022_amm::state::pubkey::Pubkey;
use token2022_amm::utils::token::{
    get_token_extension_types, is_supported, read_u16_le_from_slice,
    verify_supported_extension_data, verify_supported_extensions, verify_supported_token_mint,
    ExtensionKind, MintInfo,
};

const TRANSFER_FEE_CONFIG: u16 = 1;
const MINT_CLOSE_AUTHORITY: u16 = 3;
const NON_TRANSFERABLE: u16 = 9;
const INTEREST_BEARING_CONFIG: u16 = 10;
const PERMANENT_DELEGATE: u16 = 12;
const TRANSFER_HOOK: u16 = 14;
const METADATA_POINTER: u16 = 18;
const TOKEN_METADATA: u16 = 19;

fn entry(tag: u16, value: &[u8]) -> Vec<u8> {
    let mut bytes = Vec::new();
    bytes.extend_from_slice(&tag.to_le_bytes());
    bytes.extend_from_slice(&(value.len() as u16).to_le_bytes());
    bytes.extend_from_slice(value);
    bytes
}

/// The data of an initialized mint account with the given extension data.
fn mint_account(tlv_data: &[u8]) -> Vec<u8> {
    let mut data = vec![0u8; 82];
    data[0] = 1; // a mint authority is set
    data[4..36].copy_from_slice(&[9; 32]);
    data[36..44].copy_from_slice(&1_000_000u64.to_le_bytes());
    data[44] = 6; // decimals
    data[45] = 1; // initialized
    if !tlv_data.is_empty() {
        data.resize(165, 0);
        data.push(1); // the account is a mint
        data.extend_from_slice(tlv_data);
    }
    data
}

fn mint_with(tlv_data: Vec<u8>) -> MintInfo {
    MintInfo {
        key: Pubkey::new_from_array([42; 32]),
        has_extensions: true,
        freeze_authority: None,
        data: mint_account(&tlv_data),
    }
}

#[test]
fn reads_little_endian_numbers() {
    assert_eq!(read_u16_le_from_slice(&[0x34, 0x12]), Ok(0x1234));
    assert_eq!(read_u16_le_from_slice(&[0xff, 0xff, 0x01]), Ok(0xffff));
    assert_eq!(read_u16_le_from_slice(&[0x00, 0x01]), Ok(256));
    assert_eq!(read_u16_le_from_slice(&[0x01]), Err(AMMError::MalformedExtensionData));
    assert_eq!(read_u16_le_from_slice(&[]), Err(AMMError::MalformedExtensionData));
}

#[test]
fn lists_extensions_in_order() {
    let mut data = entry(TRANSFER_FEE_CONFIG, &[7; 108]);
    data.extend(entry(TRANSFER_HOOK, &[1; 64]));
    data.extend(entry(TOKEN_METADATA, &[]));
    assert_eq!(
        get_token_extension_types(&data),
        Ok(vec![
            ExtensionKind::TransferFeeConfig,
            ExtensionKind::TransferHook,
            ExtensionKind::TokenMetadata,
        ])
    );
}

#[test]
fn tags_are_those_of_the_token_program() {
    for (extension, kind) in [
        (ExtensionType::TransferFeeConfig, ExtensionKind::TransferFeeConfig),
        (ExtensionType::InterestBearingConfig, ExtensionKind::InterestBearingConfig),
        (ExtensionType::TokenMetadata, ExtensionKind::TokenMetadata),
        (ExtensionType::MetadataPointer, ExtensionKind::MetadataPointer),
        (ExtensionType::ConfidentialTransferMint, ExtensionKind::ConfidentialTransferMint),
        (ExtensionType::ConfidentialTransferFeeConfig, ExtensionKind::ConfidentialTransferFeeConfig),
        (ExtensionType::PermanentDelegate, ExtensionKind::PermanentDelegate),
        (ExtensionType::TransferHook, ExtensionKind::TransferHook),
        (ExtensionType::NonTransferable, ExtensionKind::NonTransferable),
        (ExtensionType::TransferFeeAmount, ExtensionKind::Other),
        (ExtensionType::MintCloseAuthority, ExtensionKind::Other),
        (ExtensionType::ConfidentialTransferAccount, ExtensionKind::Other),
        (ExtensionType::DefaultAccountState, ExtensionKind::Other),
        (ExtensionType::ImmutableOwner, ExtensionKind::Other),
        (ExtensionType::MemoTransfer, ExtensionKind::Other),
        (ExtensionType::CpiGuard, ExtensionKind::Other),
        (ExtensionType::NonTransferableAccount, ExtensionKind::Other),
        (ExtensionType::TransferHookAccount, ExtensionKind::Other),
        (ExtensionType::ConfidentialTransferFeeAmount, ExtensionKind::Other),
        (ExtensionType::GroupPointer, ExtensionKind::Other),
        (ExtensionType::TokenGroup, ExtensionKind::Other),
        (ExtensionType::GroupMemberPointer, ExtensionKind::Other),
        (ExtensionType::TokenGroupMember, ExtensionKind::Other),
        (ExtensionType::ConfidentialMintBurn, ExtensionKind::Other),
    ] {
        let data = entry(u16::from(extension), &[0; 3]);
        assert_eq!(get_token_extension_types(&data), Ok(vec![kind]));
    }
    assert_eq!(u16::from(ExtensionType::Uninitialized), 0);
    assert_eq!(u16::from(ExtensionType::TransferFeeConfig), TRANSFER_FEE_CONFIG);
    assert_eq!(u16::from(ExtensionType::TransferHook), TRANSFER_HOOK);
}

#[test]
fn empty_data_holds_no_extension() {
    assert_eq!(get_token_extension_types(&[]), Ok(vec![]));
}

#[test]
fn stops_at_uninitialized_entry() {
    let mut data = entry(METADATA_POINTER, &[0; 64]);
    data.extend_from_slice(&[0, 0]);
    data.extend(entry(TRANSFER_HOOK, &[1; 64]));
    assert_eq!(get_token_extension_types(&data), Ok(vec![ExtensionKind::MetadataPointer]));
    // nothing is read after the marker, not even a length
    assert_eq!(get_token_extension_types(&[0, 0]), Ok(vec![]));
    assert_eq!(get_token_extension_types(&[0, 0, 9]), Ok(vec![]));
}

#[test]
fn a_single_trailing_byte_ends_the_data() {
    let mut data = entry(METADATA_POINTER, &[0; 64]);
    data.push(1);
    assert_eq!(get_token_extension_types(&data), Ok(vec![ExtensionKind::MetadataPointer]));
    assert_eq!(get_token_extension_types(&[1]), Ok(vec![]));
}

#[test]
fn truncated_length_is_malformed() {
    assert_eq!(get_token_extension_types(&[1, 0]), Err(AMMError::MalformedExtensionData));
    assert_eq!(get_token_extension_types(&[1, 0, 4]), Err(AMMError::MalformedExtensionData));
    let mut data = entry(METADATA_POINTER, &[0; 64]);
    data.extend_from_slice(&[14, 0, 0]);
    assert_eq!(get_token_extension_types(&data), Err(AMMError::MalformedExtensionData));
}

#[test]
fn value_past_the_end_is_malformed() {
    assert_eq!(get_token_extension_types(&[1, 0, 4, 0, 9, 9, 9]), Err(AMMError::MalformedExtensionData));
    assert_eq!(get_token_extension_types(&[1, 0, 0xff, 0xff]), Err(AMMError::MalformedExtensionData));
    assert_eq!(get_token_extension_types(&[1, 0, 3, 0, 9, 9, 9]), Ok(vec![ExtensionKind::TransferFeeConfig]));
}

#[test]
fn unknown_tag_is_listed_as_unknown() {
    let mut data = entry(0x7777, &[5; 2]);
    data.extend(entry(TRANSFER_FEE_CONFIG, &[]));
    assert_eq!(
        get_token_extension_types(&data),
        Ok(vec![ExtensionKind::Unknown, ExtensionKind::TransferFeeConfig])
    );
}

#[test]
fn supported_extensions_are_the_listed_ones() {
    for extension in [
        ExtensionKind::TransferFeeConfig,
        ExtensionKind::InterestBearingConfig,
        ExtensionKind::TokenMetadata,
        ExtensionKind::MetadataPointer,
        ExtensionKind::ConfidentialTransferMint,
        ExtensionKind::ConfidentialTransferFeeConfig,
    ] {
        assert!(is_supported(extension));
        assert_eq!(verify_supported_extensions(&vec![extension]), Ok(true));
    }
    for extension in [
        ExtensionKind::Uninitialized,
        ExtensionKind::PermanentDelegate,
        ExtensionKind::TransferHook,
        ExtensionKind::NonTransferable,
        ExtensionKind::Other,
        ExtensionKind::Unknown,
    ] {
        assert!(!is_supported(extension));
        assert_eq!(
            verify_supported_extensions(&vec![ExtensionKind::TokenMetadata, extension]),
            Err(AMMError::NotAllowedTokenExtension)
        );
    }
    assert_eq!(verify_supported_extensions(&vec![]), Ok(true));
}

#[test]
fn every_extension_of_the_token_program_but_the_listed_ones_keeps_a_mint_out() {
    let supported = [
        ExtensionType::TransferFeeConfig,
        ExtensionType::InterestBearingConfig,
        ExtensionType::TokenMetadata,
        ExtensionType::MetadataPointer,
        ExtensionType::ConfidentialTransferMint,
        ExtensionType::ConfidentialTransferFeeConfig,
    ];
    for tag in 1..=u16::MAX {
        let expected = match ExtensionType::try_from(tag) {
            Ok(extension) if supported.contains(&extension) => Ok(true),
            _ => Err(AMMError::NotAllowedTokenExtension),
        };
        assert_eq!(verify_supported_extension_data(&entry(tag, &[0; 3])), expected);
    }
}

#[test]
fn legacy_mint_is_supported() {
    let mut mint = mint_with(vec![1, 0, 0xff]);
    mint.has_extensions = false;
    assert_eq!(verify_supported_token_mint(&mint), Ok(true));
    mint.data = vec![7; 5];
    mint.freeze_authority = Some(Pubkey::new_from_array([1; 32]));
    mint.key = Pubkey::new_from_array(native_mint::id().to_bytes());
    assert_eq!(verify_supported_token_mint(&mint), Ok(true));
}

#[test]
fn mint_without_extensions_is_supported() {
    assert_eq!(verify_supported_token_mint(&mint_with(vec![])), Ok(true));
}

#[test]
fn mint_with_transfer_fee_only_is_supported() {
    let mint = mint_with(entry(TRANSFER_FEE_CONFIG, &[0; 108]));
    assert_eq!(verify_supported_token_mint(&mint), Ok(true));
}

#[test]
fn mint_with_all_supported_extensions_is_supported() {
    let mut data = entry(TRANSFER_FEE_CONFIG, &[0; 108]);
    data.extend(entry(INTEREST_BEARING_CONFIG, &[0; 52]));
    data.extend(entry(METADATA_POINTER, &[0; 64]));
    data.extend(entry(TOKEN_METADATA, &[0; 200]));
    assert_eq!(verify_supported_token_mint(&mint_with(data)), Ok(true));
}

#[test]
fn mint_with_transfer_hook_is_rejected() {
    let mint = mint_with(entry(TRANSFER_HOOK, &[0; 64]));
    assert_eq!(verify_supported_token_mint(&mint), Err(AMMError::NotAllowedTokenExtension));

    // whatever else the mint carries
    let mut data = entry(TRANSFER_FEE_CONFIG, &[0; 108]);
    data.extend(entry(TOKEN_METADATA, &[0; 10]));
    data.extend(entry(TRANSFER_HOOK, &[0; 64]));
    assert_eq!(verify_supported_token_mint(&mint_with(data)), Err(AMMError::NotAllowedTokenExtension));
}

#[test]
fn mint_with_denied_or_unlisted_extension_is_rejected() {
    for tag in [NON_TRANSFERABLE, PERMANENT_DELEGATE, MINT_CLOSE_AUTHORITY, 0x7777] {
        let mut data = entry(TRANSFER_FEE_CONFIG, &[0; 108]);
        data.extend(entry(tag, &[0; 32]));
        assert_eq!(
            verify_supported_token_mint(&mint_with(data)),
            Err(AMMError::NotAllowedTokenExtension)
        );
    }
}

#[test]
fn mint_with_freeze_authority_is_not_supported() {
    let mut mint = mint_with(entry(TRANSFER_FEE_CONFIG, &[0; 108]));
    mint.freeze_authority = Some(Pubkey::new_from_array([1; 32]));
    assert_eq!(verify_supported_token_mint(&mint), Ok(false));
    // the account data is not looked at
    mint.data = vec![1, 0, 0xff];
    assert_eq!(verify_supported_token_mint(&mint), Ok(false));
}

#[test]
fn native_mint_is_not_supported() {
    let mut mint = mint_with(vec![]);
    mint.key = Pubkey::new_from_array(native_mint::id().to_bytes());
    assert_eq!(verify_supported_token_mint(&mint), Ok(false));
    mint.key = Pubkey::new_from_array([
        131, 13, 252, 159, 222, 95, 230, 184, 170, 124, 4, 164, 118, 233, 30, 138, 198, 187, 38,
        74, 173, 144, 250, 25, 201, 223, 73, 216, 92, 62, 91, 94,
    ]);
    assert_eq!(verify_supported_token_mint(&mint), Ok(false));
    let mut bytes = native_mint::id().to_bytes();
    bytes[31] ^= 1;
    mint.key = Pubkey::new_from_array(bytes);
    assert_eq!(verify_supported_token_mint(&mint), Ok(true));
}

#[test]
fn mint_with_malformed_extension_data_is_an_error() {
    let mut data = entry(TRANSFER_FEE_CONFIG, &[0; 108]);
    data.extend_from_slice(&[18, 0, 64, 0, 1, 2, 3]);
    assert_eq!(verify_supported_token_mint(&mint_with(data)), Err(AMMError::MalformedExtensionData));
    // malformed data counts before an extension that is not supported
    let mut data = entry(TRANSFER_HOOK, &[0; 64]);
    data.extend_from_slice(&[18, 0, 64]);
    assert_eq!(verify_supported_token_mint(&mint_with(data)), Err(AMMError::MalformedExtensionData));
}

#[test]
fn data_that_is_no_mint_account_is_an_error() {
    let mut mint = mint_with(vec![]);
    mint.data = vec![7; 5];
    assert_eq!(verify_supported_token_mint(&mint), Err(AMMError::MalformedExtensionData));
    // a mint that was never initialized
    let mut data = mint_account(&[]);
    data[45] = 0;
    mint.data = data;
    assert_eq!(verify_supported_token_mint(&mint), Err(AMMError::MalformedExtensionData));
    // a token account in place of a mint
    let mut data = mint_account(&[1, 0, 0, 0]);
    data[165] = 2;
    mint.data = data;
    assert_eq!(verify_supported_token_mint(&mint), Err(AMMError::MalformedExtensionData));
}

#[test]
fn extension_data_is_checked_as_the_mint_is() {
    let data = entry(TRANSFER_FEE_CONFIG, &[0; 108]);
    assert_eq!(verify_supported_extension_data(&data), Ok(true));
    assert_eq!(verify_supported_extension_data(&[]), Ok(true));
    let data = entry(TRANSFER_HOOK, &[0; 64]);
    assert_eq!(verify_supported_extension_data(&data), Err(AMMError::NotAllowedTokenExtension));
    assert_eq!(verify_supported_extension_data(&[1, 0, 9]), Err(AMMError::MalformedExtensionData));
}
