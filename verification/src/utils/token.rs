use crate::common::error::AMMError;
use crate::state::pubkey::Pubkey;
use crate::utils::math::{ceil_div, lemma_ceil_div_bounds, lemma_ceil_div_is};
use anchor_spl::token_2022::spl_token_2022::extension::transfer_fee::TransferFee as TokenTransferFee;
use anchor_spl::token_2022::spl_token_2022::extension::transfer_fee::TransferFeeConfig as TokenTransferFeeConfig;
use anchor_spl::token_2022::spl_token_2022::extension::BaseStateWithExtensions;
use anchor_spl::token_2022::spl_token_2022::extension::ExtensionType;
use anchor_spl::token_2022::spl_token_2022::extension::StateWithExtensions;
use anchor_spl::token_2022::spl_token_2022::native_mint;
use anchor_spl::token_2022::spl_token_2022::solana_program::program_error::ProgramError;
use anchor_spl::token_2022::spl_token_2022::solana_program::pubkey::Pubkey as ProgramPubkey;
use anchor_spl::token_2022::spl_token_2022::state::Mint;
use vstd::prelude::*;

verus! {

/// `ProgramError` of the ledger: what the token program fails with. Nothing
/// is known of one but that it is an error.
#[verifier::external_type_specification]
#[verifier::external_body]
pub struct ExProgramError(ProgramError);

/// A fee rate of one hundred percent, in basis points.
pub const MAX_FEE_BASIS_POINTS: u16 = 10_000;

/// What a pool tells apart among the extensions of a mint.
#[derive(Clone, Copy, Debug, PartialEq, Eq, Structural)]
pub enum ExtensionKind {
    /// No extension: the marker that ends extension data.
    Uninitialized,
    TransferFeeConfig,
    InterestBearingConfig,
    TokenMetadata,
    MetadataPointer,
    ConfidentialTransferMint,
    ConfidentialTransferFeeConfig,
    PermanentDelegate,
    TransferHook,
    NonTransferable,
    /// Any other extension that the token program knows.
    Other,
    /// A type tag that the token program does not know.
    Unknown,
}

/// What a pool needs to know of a token mint: who it is, which token program
/// owns it, whether it can be frozen, and what its account holds.
#[derive(Clone, Debug, PartialEq, Eq)]
pub struct MintInfo {
    pub key: Pubkey,
    /// The mint belongs to the token program with extensions, not to the
    /// legacy one.
    pub has_extensions: bool,
    pub freeze_authority: Option<Pubkey>,
    /// The data of the mint account.
    pub data: Vec<u8>,
}

/// A transfer fee: a rate, a cap, and the epoch from which both apply.
#[derive(Clone, Copy, Debug, PartialEq, Eq, Structural)]
pub struct TransferFee {
    pub epoch: u64,
    pub maximum_fee: u64,
    pub transfer_fee_basis_points: u16,
}

/// The transfer fees of a mint: the one in force and the one it replaced.
#[derive(Clone, Copy, Debug, PartialEq, Eq, Structural)]
pub struct TransferFeeConfig {
    pub older_transfer_fee: TransferFee,
    pub newer_transfer_fee: TransferFee,
}

/// An amount as sent, with the fee that its transfer costs.
#[derive(Clone, Copy, Debug, PartialEq, Eq, Structural)]
pub struct TransferFeeIncludedAmount {
    pub amount: u64,
    pub transfer_fee: u64,
}

/// An amount as received, with the fee that its transfer cost.
#[derive(Clone, Copy, Debug, PartialEq, Eq, Structural)]
pub struct TransferFeeExcludedAmount {
    pub amount: u64,
    pub transfer_fee: u64,
}

/// The identifier of the native mint of the token program with extensions.
pub open spec fn native_mint_id() -> Seq<u8> {
    seq![
        131u8, 13, 252, 159, 222, 95, 230, 184, 170, 124, 4, 164, 118, 233, 30, 138,
        198, 187, 38, 74, 173, 144, 250, 25, 201, 223, 73, 216, 92, 62, 91, 94,
    ]
}

/// What the token program reads a type tag as, as far as a pool tells
/// extensions apart.
pub uninterp spec fn extension_kind_of_tag(tag: u16) -> ExtensionKind;

/// The extension data that the token program finds in the data of a mint
/// account: a run of entries, each a type tag and a length of two
/// little-endian bytes each, then the value. There is none where the data is
/// not that of a mint.
pub uninterp spec fn unpacked_tlv_data(data: Seq<u8>) -> Option<Seq<u8>>;

/// The transfer fees that the token program finds in the data of a mint
/// account: nothing where the data is not that of a mint, and no fees where
/// the mint has no readable transfer fee extension.
pub uninterp spec fn unpacked_transfer_fee_config(data: Seq<u8>) -> Option<Option<TransferFeeConfig>>;

/// The number that two little-endian bytes stand for.
pub open spec fn u16_from_le(low: u8, high: u8) -> u16 {
    (low + 256 * high) as u16
}

/// The entries of extension data from `cursor` on: the extension of each
/// entry, in order, up to the end of the data or to an entry tagged as
/// uninitialized, whichever comes first.
///
/// Less than two bytes left are the end of the data. An entry whose length
/// is cut off, or whose value runs past the end of the data, makes the data
/// malformed.
pub open spec fn extension_types_from(tlv_data: Seq<u8>, cursor: int) -> Result<
    Seq<ExtensionKind>,
    AMMError,
>
    decreases tlv_data.len() - cursor,
{
    if cursor < 0 || tlv_data.len() - cursor < 2 {
        Ok(Seq::empty())
    } else {
        let extension = extension_kind_of_tag(
            u16_from_le(tlv_data[cursor], tlv_data[cursor + 1]),
        );
        if extension == ExtensionKind::Uninitialized {
            Ok(Seq::empty())
        } else if tlv_data.len() - cursor < 4 {
            Err(AMMError::MalformedExtensionData)
        } else {
            let length = u16_from_le(tlv_data[cursor + 2], tlv_data[cursor + 3]);
            let value_end = cursor + 4 + length;
            if value_end > tlv_data.len() {
                Err(AMMError::MalformedExtensionData)
            } else {
                match extension_types_from(tlv_data, value_end) {
                    Ok(rest) => Ok(seq![extension] + rest),
                    Err(e) => Err(e),
                }
            }
        }
    }
}

/// The extensions that extension data holds, in order.
pub open spec fn extension_types_of(tlv_data: Seq<u8>) -> Result<Seq<ExtensionKind>, AMMError> {
    extension_types_from(tlv_data, 0)
}

/// The extensions that never enter a pool: each lets someone other than the
/// holder stop, redirect or take back tokens.
pub open spec fn is_denied_extension(extension: ExtensionKind) -> bool {
    match extension {
        ExtensionKind::PermanentDelegate => true,
        ExtensionKind::TransferHook => true,
        ExtensionKind::NonTransferable => true,
        _ => false,
    }
}

/// The extensions that a mint in a pool may carry. Every other one, and a
/// type tag that the token program does not know, keeps the mint out.
pub open spec fn is_supported_extension(extension: ExtensionKind) -> bool {
    match extension {
        ExtensionKind::TransferFeeConfig => true,
        ExtensionKind::InterestBearingConfig => true,
        ExtensionKind::TokenMetadata => true,
        ExtensionKind::MetadataPointer => true,
        ExtensionKind::ConfidentialTransferMint => true,
        ExtensionKind::ConfidentialTransferFeeConfig => true,
        _ => false,
    }
}

/// Every one of the extensions is supported.
pub open spec fn all_supported(extensions: Seq<ExtensionKind>) -> bool {
    forall|i: int| 0 <= i < extensions.len() ==> is_supported_extension(#[trigger] extensions[i])
}

/// Whether a mint with this extension data has only supported extensions:
/// it is an error if one is not, or if the data is malformed.
pub open spec fn supported_extension_data(tlv_data: Seq<u8>) -> Result<bool, AMMError> {
    match extension_types_of(tlv_data) {
        Err(e) => Err(e),
        Ok(extensions) => if all_supported(extensions) {
            Ok(true)
        } else {
            Err(AMMError::NotAllowedTokenExtension)
        },
    }
}

/// Whether a mint may enter a pool.
///
/// A mint of the legacy token program may. Under the token program with
/// extensions, the native mint and a mint with a freeze authority may not;
/// any other mint may if all its extensions are supported, and is an error
/// if one is not or if its account data or extension data is malformed.
pub open spec fn supported_token_mint(token_mint: MintInfo) -> Result<bool, AMMError> {
    if !token_mint.has_extensions {
        Ok(true)
    } else if token_mint.key.bytes@ == native_mint_id() {
        Ok(false)
    } else if token_mint.freeze_authority is Some {
        Ok(false)
    } else {
        match unpacked_tlv_data(token_mint.data@) {
            None => Err(AMMError::MalformedExtensionData),
            Some(tlv_data) => supported_extension_data(tlv_data),
        }
    }
}

/// A mint under the token program with extensions whose extension data
/// holds a denied extension, a transfer hook for one, never enters a pool,
/// whatever else is true of it.
pub proof fn lemma_denied_extension_keeps_mint_out(
    token_mint: MintInfo,
    extension: ExtensionKind,
)
    requires
        token_mint.has_extensions,
        is_denied_extension(extension),
        unpacked_tlv_data(token_mint.data@) is Some,
        extension_types_of(unpacked_tlv_data(token_mint.data@)->Some_0) is Ok,
        extension_types_of(unpacked_tlv_data(token_mint.data@)->Some_0)->Ok_0.contains(extension),
    ensures
        supported_token_mint(token_mint) != Ok::<bool, AMMError>(true),
{
    let extensions = extension_types_of(unpacked_tlv_data(token_mint.data@)->Some_0)->Ok_0;
    let i = choose|i: int| 0 <= i < extensions.len() && extensions[i] == extension;
    assert(!is_supported_extension(extensions[i]));
}

/// `ExtensionType::try_from` of the token program, on a type tag: the
/// extension that the tag stands for, under its own name where a pool tells
/// it apart, as `Other` where it is another extension that the token program
/// knows, and as `Unknown` where the token program does not know the tag.
/// The result depends on the tag alone.
#[verifier::external_body]
fn extension_kind_from_tag(tag: u16) -> (extension: ExtensionKind)
    ensures
        extension == extension_kind_of_tag(tag),
{
    match ExtensionType::try_from(tag) {
        Ok(ExtensionType::Uninitialized) => ExtensionKind::Uninitialized,
        Ok(ExtensionType::TransferFeeConfig) => ExtensionKind::TransferFeeConfig,
        Ok(ExtensionType::InterestBearingConfig) => ExtensionKind::InterestBearingConfig,
        Ok(ExtensionType::TokenMetadata) => ExtensionKind::TokenMetadata,
        Ok(ExtensionType::MetadataPointer) => ExtensionKind::MetadataPointer,
        Ok(ExtensionType::ConfidentialTransferMint) => ExtensionKind::ConfidentialTransferMint,
        Ok(ExtensionType::ConfidentialTransferFeeConfig) => ExtensionKind::ConfidentialTransferFeeConfig,
        Ok(ExtensionType::PermanentDelegate) => ExtensionKind::PermanentDelegate,
        Ok(ExtensionType::TransferHook) => ExtensionKind::TransferHook,
        Ok(ExtensionType::NonTransferable) => ExtensionKind::NonTransferable,
        Ok(_) => ExtensionKind::Other,
        Err(_) => ExtensionKind::Unknown,
    }
}

/// `native_mint::check_id` of the token program with extensions: whether a
/// key is the native mint's, that is, whether its bytes are those of the
/// identifier that the token program declares for it.
#[verifier::external_body]
fn is_native_mint(key: &Pubkey) -> (r: bool)
    ensures
        r == (key.bytes@ == native_mint_id()),
{
    native_mint::check_id(&ProgramPubkey::new_from_array(key.bytes))
}

/// `StateWithExtensions::<Mint>::unpack` of the token program, and
/// `get_tlv_data` of what it gives: the extension data in the data of a mint
/// account, or the token program's error where the data is not that of a
/// mint. The result depends on the data alone.
#[verifier::external_body]
fn unpack_tlv_data(data: &[u8]) -> (r: Result<Vec<u8>, ProgramError>)
    ensures
        match unpacked_tlv_data(data@) {
            Some(tlv_data) => r is Ok && r->Ok_0@ == tlv_data,
            None => r is Err,
        },
{
    StateWithExtensions::<Mint>::unpack(data).map(|state| state.get_tlv_data().to_vec())
}

/// `StateWithExtensions::<Mint>::unpack` of the token program, and
/// `get_extension::<TransferFeeConfig>` of what it gives: the two transfer
/// fees in the data of a mint account, none where the extension cannot be
/// read, or the token program's error where the data is not that of a mint.
/// The result depends on the data alone.
#[verifier::external_body]
fn unpack_transfer_fee_config(data: &[u8]) -> (r: Result<Option<TransferFeeConfig>, ProgramError>)
    ensures
        match unpacked_transfer_fee_config(data@) {
            Some(transfer_fee_config) => r is Ok && r->Ok_0 == transfer_fee_config,
            None => r is Err,
        },
{
    let state = StateWithExtensions::<Mint>::unpack(data)?;
    Ok(state.get_extension::<TokenTransferFeeConfig>().ok().map(|config| TransferFeeConfig {
        older_transfer_fee: TransferFee {
            epoch: config.older_transfer_fee.epoch.into(),
            maximum_fee: config.older_transfer_fee.maximum_fee.into(),
            transfer_fee_basis_points: config.older_transfer_fee.transfer_fee_basis_points.into(),
        },
        newer_transfer_fee: TransferFee {
            epoch: config.newer_transfer_fee.epoch.into(),
            maximum_fee: config.newer_transfer_fee.maximum_fee.into(),
            transfer_fee_basis_points: config.newer_transfer_fee.transfer_fee_basis_points.into(),
        },
    }))
}

/// Reads the number that the first two bytes of `slice` stand for, low byte
/// first.
pub fn read_u16_le_from_slice(slice: &[u8]) -> (r: Result<u16, AMMError>)
    ensures
        slice@.len() < 2 ==> r == Err::<u16, AMMError>(AMMError::MalformedExtensionData),
        slice@.len() >= 2 ==> r == Ok::<u16, AMMError>(u16_from_le(slice@[0], slice@[1])),
{
    if slice.len() < 2 {
        return Err(AMMError::MalformedExtensionData);
    }
    Ok(slice[0] as u16 + 256 * (slice[1] as u16))
}

/// Lists the extensions that extension data holds, in order.
pub fn get_token_extension_types(tlv_data: &[u8]) -> (r: Result<
    Vec<ExtensionKind>,
    AMMError,
>)
    ensures
        match extension_types_of(tlv_data@) {
            Ok(extensions) => r is Ok && r->Ok_0@ == extensions,
            Err(e) => r == Err::<Vec<ExtensionKind>, AMMError>(e),
        },
{
    let mut extension_types: Vec<ExtensionKind> = Vec::new();
    let mut cursor: usize = 0;

    while cursor < tlv_data.len()
        invariant
            cursor <= tlv_data.len(),
            extension_types_of(tlv_data@) == match extension_types_from(tlv_data@, cursor as int) {
                Ok(rest) => Ok::<Seq<ExtensionKind>, AMMError>(extension_types@ + rest),
                Err(e) => Err(e),
            },
        decreases tlv_data.len() - cursor,
    {
        if tlv_data.len() - cursor < 2 {
            // There aren't enough bytes to store the next type, which means we
            // got to the end.
            return Ok(extension_types);
        }
        let tlv_length_start = cursor + 2;
        let extension_type_num = match read_u16_le_from_slice(&tlv_data[cursor..tlv_length_start]) {
            Ok(n) => n,
            Err(e) => {
                return Err(e);
            },
        };
        let extension_type = extension_kind_from_tag(extension_type_num);

        if extension_type == ExtensionKind::Uninitialized {
            return Ok(extension_types);
        }
        if tlv_data.len() - cursor < 4 {
            // not enough bytes to store the length, malformed
            return Err(AMMError::MalformedExtensionData);
        }
        let tlv_value_start = cursor + 4;
        let length = match read_u16_le_from_slice(&tlv_data[tlv_length_start..tlv_value_start]) {
            Ok(n) => n,
            Err(e) => {
                return Err(e);
            },
        };
        if length as usize > tlv_data.len() - tlv_value_start {
            // value blows past the size of the slice, malformed
            return Err(AMMError::MalformedExtensionData);
        }
        proof {
            let rest = extension_types_from(tlv_data@, tlv_value_start + length);
            if let Ok(rest) = rest {
                assert(extension_types@.push(extension_type) + rest =~= extension_types@ + (
                seq![extension_type] + rest));
            }
        }
        extension_types.push(extension_type);
        cursor = tlv_value_start + length as usize;
    }
    Ok(extension_types)
}

/// Tells whether a mint in a pool may carry the extension.
pub fn is_supported(extension: ExtensionKind) -> (r: bool)
    ensures
        r == is_supported_extension(extension),
        is_denied_extension(extension) ==> !r,
{
    match extension {
        // supported extensions
        ExtensionKind::TransferFeeConfig => true,
        ExtensionKind::InterestBearingConfig => true,
        ExtensionKind::TokenMetadata => true,
        ExtensionKind::MetadataPointer => true,
        // supported, but non-confidential transfer only
        ExtensionKind::ConfidentialTransferMint => true,
        ExtensionKind::ConfidentialTransferFeeConfig => true,
        // explicitly not allowed
        ExtensionKind::PermanentDelegate => false,
        ExtensionKind::TransferHook => false,
        ExtensionKind::NonTransferable => false,
        // every other extension, and an unknown tag: be conservative
        ExtensionKind::Uninitialized => false,
        ExtensionKind::Other => false,
        ExtensionKind::Unknown => false,
    }
}

/// Checks the extensions of a mint: all of them must be supported.
pub fn verify_supported_extensions(extensions: &Vec<ExtensionKind>) -> (r: Result<
    bool,
    AMMError,
>)
    ensures
        all_supported(extensions@) ==> r == Ok::<bool, AMMError>(true),
        !all_supported(extensions@) ==> r == Err::<bool, AMMError>(
            AMMError::NotAllowedTokenExtension,
        ),
{
    let mut i: usize = 0;
    while i < extensions.len()
        invariant
            i <= extensions.len(),
            forall|j: int| 0 <= j < i ==> is_supported_extension(#[trigger] extensions@[j]),
        decreases extensions.len() - i,
    {
        if !is_supported(extensions[i]) {
            return Err(AMMError::NotAllowedTokenExtension);
        }
        i += 1;
    }
    Ok(true)
}

/// Checks the extension data of a mint: its entries must be well formed and
/// all its extensions supported.
pub fn verify_supported_extension_data(tlv_data: &[u8]) -> (r: Result<bool, AMMError>)
    ensures
        r == supported_extension_data(tlv_data@),
{
    let extensions = match get_token_extension_types(tlv_data) {
        Ok(extensions) => extensions,
        Err(e) => {
            return Err(e);
        },
    };
    verify_supported_extensions(&extensions)
}

/// Decides whether a mint may enter a pool.
pub fn verify_supported_token_mint(token_mint: &MintInfo) -> (r: Result<bool, AMMError>)
    ensures
        r == supported_token_mint(*token_mint),
{
    // a mint of the legacy token program is supported
    if !token_mint.has_extensions {
        return Ok(true);
    }
    // reject the native mint, so that its liquidity is not split over pools
    if is_native_mint(&token_mint.key) {
        return Ok(false);
    }
    // reject if mint has freeze_authority
    if token_mint.freeze_authority.is_some() {
        return Ok(false);
    }
    let tlv_data = match unpack_tlv_data(token_mint.data.as_slice()) {
        Ok(tlv_data) => tlv_data,
        Err(_) => {
            return Err(AMMError::MalformedExtensionData);
        },
    };
    verify_supported_extension_data(tlv_data.as_slice())
}

impl TransferFee {
    /// The fee on a transfer of `pre_fee_amount`: the rate's share of the
    /// amount, rounded up, and at most the cap. There is none where that
    /// share does not fit in 64 bits.
    pub open spec fn fee_on(self, pre_fee_amount: u64) -> Option<u64> {
        let raw_fee = ceil_div(pre_fee_amount * self.transfer_fee_basis_points, 10_000);
        if self.transfer_fee_basis_points == 0 || pre_fee_amount == 0 {
            Some(0)
        } else if raw_fee > u64::MAX {
            None
        } else if raw_fee <= self.maximum_fee {
            Some(raw_fee as u64)
        } else {
            Some(self.maximum_fee)
        }
    }

    /// The least amount to send so that `post_fee_amount` arrives, where one
    /// exists and fits in 64 bits.
    pub open spec fn pre_fee_amount_for(self, post_fee_amount: u64) -> Option<u64> {
        let rate = self.transfer_fee_basis_points as int;
        let raw_pre_fee_amount = ceil_div(post_fee_amount * 10_000, 10_000 - rate);
        if rate == 0 {
            Some(post_fee_amount)
        } else if post_fee_amount == 0 {
            Some(0)
        } else if rate == 10_000 {
            if self.maximum_fee + post_fee_amount > u64::MAX {
                None
            } else {
                Some((self.maximum_fee + post_fee_amount) as u64)
            }
        } else if rate > 10_000 {
            None
        } else if raw_pre_fee_amount < post_fee_amount {
            None
        } else if raw_pre_fee_amount - post_fee_amount >= self.maximum_fee {
            if post_fee_amount + self.maximum_fee > u64::MAX {
                None
            } else {
                Some((post_fee_amount + self.maximum_fee) as u64)
            }
        } else if raw_pre_fee_amount > u64::MAX {
            None
        } else {
            Some(raw_pre_fee_amount as u64)
        }
    }

    /// The fee on the least transfer that lets `post_fee_amount` arrive.
    pub open spec fn inverse_fee_on(self, post_fee_amount: u64) -> Option<u64> {
        match self.pre_fee_amount_for(post_fee_amount) {
            Some(pre_fee_amount) => self.fee_on(pre_fee_amount),
            None => None,
        }
    }

    /// `TransferFee::calculate_fee` of the token program, on a fee of this
    /// rate and cap: nothing is charged at rate zero or on amount zero; else
    /// the amount times the rate is divided by 10000 and rounded up, which
    /// fails where the quotient is beyond 64 bits, and the smaller of the
    /// quotient and the cap is charged.
    #[verifier::external_body]
    fn calculate_fee(&self, pre_fee_amount: u64) -> (fee: Option<u64>)
        ensures
            fee == self.fee_on(pre_fee_amount),
    {
        TokenTransferFee {
            epoch: self.epoch.into(),
            maximum_fee: self.maximum_fee.into(),
            transfer_fee_basis_points: self.transfer_fee_basis_points.into(),
        }.calculate_fee(pre_fee_amount)
    }

    /// `TransferFee::calculate_inverse_fee` of the token program, on a fee of
    /// this rate and cap: `calculate_fee` of the amount before the fee, which
    /// is the amount itself at rate zero, zero for amount zero, the amount
    /// plus the cap at rate 10000, and else the amount times 10000 divided by
    /// 10000 less the rate, rounded up, or the amount plus the cap where the
    /// difference to the amount reaches the cap. It fails at a rate above
    /// 10000 and where the amount before the fee is beyond 64 bits.
    #[verifier::external_body]
    fn calculate_inverse_fee(&self, post_fee_amount: u64) -> (fee: Option<u64>)
        ensures
            fee == self.inverse_fee_on(post_fee_amount),
    {
        TokenTransferFee {
            epoch: self.epoch.into(),
            maximum_fee: self.maximum_fee.into(),
            transfer_fee_basis_points: self.transfer_fee_basis_points.into(),
        }.calculate_inverse_fee(post_fee_amount)
    }
}

impl TransferFeeConfig {
    /// The fee in force in `epoch`: the newer one from its own epoch on, the
    /// older one before.
    pub open spec fn epoch_fee(self, epoch: u64) -> TransferFee {
        if epoch >= self.newer_transfer_fee.epoch {
            self.newer_transfer_fee
        } else {
            self.older_transfer_fee
        }
    }

    /// Picks the fee in force in `epoch`.
    pub fn get_epoch_fee(&self, epoch: u64) -> (fee: TransferFee)
        ensures
            fee == self.epoch_fee(epoch),
    {
        if epoch >= self.newer_transfer_fee.epoch {
            self.newer_transfer_fee
        } else {
            self.older_transfer_fee
        }
    }
}

/// The transfer fees of a mint: none under the legacy token program and none
/// without transfer fees in the account data. It is an error where the
/// account data is malformed.
pub open spec fn transfer_fee_config_of(token_mint: MintInfo) -> Result<
    Option<TransferFeeConfig>,
    AMMError,
> {
    if !token_mint.has_extensions {
        Ok(None)
    } else {
        match unpacked_transfer_fee_config(token_mint.data@) {
            None => Err(AMMError::MalformedExtensionData),
            Some(transfer_fee_config) => Ok(transfer_fee_config),
        }
    }
}

/// The transfer fee of a mint in `epoch`: of its transfer fees, if it has
/// any, the one in force then.
pub open spec fn epoch_transfer_fee(token_mint: MintInfo, epoch: u64) -> Result<
    Option<TransferFee>,
    AMMError,
> {
    match transfer_fee_config_of(token_mint) {
        Err(e) => Err(e),
        Ok(None) => Ok(None),
        Ok(Some(transfer_fee_config)) => Ok(Some(transfer_fee_config.epoch_fee(epoch))),
    }
}

/// What arrives of `transfer_fee_included_amount` sent, and the fee taken.
/// Without a fee all of it arrives.
pub open spec fn transfer_fee_excluded(
    epoch_transfer_fee: Option<TransferFee>,
    transfer_fee_included_amount: u64,
) -> Result<TransferFeeExcludedAmount, AMMError> {
    match epoch_transfer_fee {
        None => Ok(TransferFeeExcludedAmount { amount: transfer_fee_included_amount, transfer_fee: 0 }),
        Some(fee) => match fee.fee_on(transfer_fee_included_amount) {
            None => Err(AMMError::TransferFeeCalculationError),
            Some(transfer_fee) => if transfer_fee > transfer_fee_included_amount {
                Err(AMMError::TransferFeeCalculationError)
            } else {
                Ok(
                    TransferFeeExcludedAmount {
                        amount: (transfer_fee_included_amount - transfer_fee) as u64,
                        transfer_fee,
                    },
                )
            },
        },
    }
}

/// The fee to add to `transfer_fee_excluded_amount` so that it arrives: the
/// cap at a rate of one hundred percent, else the inverse fee.
pub open spec fn fee_to_add(fee: TransferFee, transfer_fee_excluded_amount: u64) -> Option<u64> {
    if fee.transfer_fee_basis_points == MAX_FEE_BASIS_POINTS {
        Some(fee.maximum_fee)
    } else {
        fee.inverse_fee_on(transfer_fee_excluded_amount)
    }
}

/// What to send so that `transfer_fee_excluded_amount` arrives, and the fee
/// in it. Nothing is sent for nothing, and without a fee the amount itself.
/// It is an error where the fee cannot be computed, where the sum is beyond
/// 64 bits, and where the fee on the sum is another than the fee added.
pub open spec fn transfer_fee_included(
    epoch_transfer_fee: Option<TransferFee>,
    transfer_fee_excluded_amount: u64,
) -> Result<TransferFeeIncludedAmount, AMMError> {
    if transfer_fee_excluded_amount == 0 {
        Ok(TransferFeeIncludedAmount { amount: 0, transfer_fee: 0 })
    } else {
        match epoch_transfer_fee {
            None => Ok(
                TransferFeeIncludedAmount { amount: transfer_fee_excluded_amount, transfer_fee: 0 },
            ),
            Some(fee) => match fee_to_add(fee, transfer_fee_excluded_amount) {
                None => Err(AMMError::TransferFeeCalculationError),
                Some(transfer_fee) => if transfer_fee_excluded_amount + transfer_fee > u64::MAX {
                    Err(AMMError::TransferFeeCalculationError)
                } else {
                    let amount = (transfer_fee_excluded_amount + transfer_fee) as u64;
                    if fee.fee_on(amount) == Some(transfer_fee) {
                        Ok(TransferFeeIncludedAmount { amount, transfer_fee })
                    } else {
                        Err(AMMError::TransferFeeCalculationError)
                    }
                },
            },
        }
    }
}

/// Finds the transfer fees of a mint, if it has any.
pub fn get_transfer_fee_config(token_mint: &MintInfo) -> (r: Result<
    Option<TransferFeeConfig>,
    AMMError,
>)
    ensures
        r == transfer_fee_config_of(*token_mint),
{
    if !token_mint.has_extensions {
        return Ok(None);
    }
    match unpack_transfer_fee_config(token_mint.data.as_slice()) {
        Ok(transfer_fee_config) => Ok(transfer_fee_config),
        Err(_) => Err(AMMError::MalformedExtensionData),
    }
}

/// Finds the transfer fee of a mint in `epoch`, if it has one.
pub fn get_epoch_transfer_fee(token_mint: &MintInfo, epoch: u64) -> (r: Result<
    Option<TransferFee>,
    AMMError,
>)
    ensures
        r == epoch_transfer_fee(*token_mint, epoch),
{
    let transfer_fee_config = match get_transfer_fee_config(token_mint) {
        Ok(transfer_fee_config) => transfer_fee_config,
        Err(e) => {
            return Err(e);
        },
    };
    if let Some(transfer_fee_config) = transfer_fee_config {
        return Ok(Some(transfer_fee_config.get_epoch_fee(epoch)));
    }
    Ok(None)
}

/// Computes what arrives of `transfer_fee_included_amount` sent under the
/// fee, and the fee taken.
pub fn transfer_fee_excluded_amount(
    epoch_transfer_fee: Option<TransferFee>,
    transfer_fee_included_amount: u64,
) -> (r: Result<TransferFeeExcludedAmount, AMMError>)
    ensures
        r == transfer_fee_excluded(epoch_transfer_fee, transfer_fee_included_amount),
{
    if let Some(epoch_transfer_fee) = epoch_transfer_fee {
        let transfer_fee = match epoch_transfer_fee.calculate_fee(transfer_fee_included_amount) {
            Some(fee) => fee,
            None => {
                return Err(AMMError::TransferFeeCalculationError);
            },
        };
        let transfer_fee_excluded_amount = match transfer_fee_included_amount.checked_sub(
            transfer_fee,
        ) {
            Some(amount) => amount,
            None => {
                return Err(AMMError::TransferFeeCalculationError);
            },
        };
        return Ok(TransferFeeExcludedAmount { amount: transfer_fee_excluded_amount, transfer_fee });
    }
    Ok(TransferFeeExcludedAmount { amount: transfer_fee_included_amount, transfer_fee: 0 })
}

/// Computes what to send under the fee so that `transfer_fee_excluded_amount`
/// arrives, and the fee in it.
pub fn transfer_fee_included_amount(
    epoch_transfer_fee: Option<TransferFee>,
    transfer_fee_excluded_amount: u64,
) -> (r: Result<TransferFeeIncludedAmount, AMMError>)
    ensures
        r == transfer_fee_included(epoch_transfer_fee, transfer_fee_excluded_amount),
{
    if transfer_fee_excluded_amount == 0 {
        return Ok(TransferFeeIncludedAmount { amount: 0, transfer_fee: 0 });
    }
    // now transfer_fee_excluded_amount > 0

    if let Some(epoch_transfer_fee) = epoch_transfer_fee {
        let transfer_fee: u64 = if epoch_transfer_fee.transfer_fee_basis_points
            == MAX_FEE_BASIS_POINTS {
            // at a rate of 100% the inverse is not determined by the rate:
            // the cap is the fee
            epoch_transfer_fee.maximum_fee
        } else {
            match epoch_transfer_fee.calculate_inverse_fee(transfer_fee_excluded_amount) {
                Some(fee) => fee,
                None => {
                    return Err(AMMError::TransferFeeCalculationError);
                },
            }
        };

        let transfer_fee_included_amount = match transfer_fee_excluded_amount.checked_add(
            transfer_fee,
        ) {
            Some(amount) => amount,
            None => {
                return Err(AMMError::TransferFeeCalculationError);
            },
        };

        // verify transfer fee calculation for safety
        let transfer_fee_verification = match epoch_transfer_fee.calculate_fee(
            transfer_fee_included_amount,
        ) {
            Some(fee) => fee,
            None => {
                return Err(AMMError::TransferFeeCalculationError);
            },
        };
        if transfer_fee != transfer_fee_verification {
            return Err(AMMError::TransferFeeCalculationError);
        }
        return Ok(TransferFeeIncludedAmount { amount: transfer_fee_included_amount, transfer_fee });
    }
    Ok(TransferFeeIncludedAmount { amount: transfer_fee_excluded_amount, transfer_fee: 0 })
}

/// Computes what arrives of `transfer_fee_included_amount` of a mint's tokens
/// sent in `epoch`, and the fee taken.
pub fn calculate_transfer_fee_excluded_amount(
    token_mint: &MintInfo,
    epoch: u64,
    transfer_fee_included_amount: u64,
) -> (r: Result<TransferFeeExcludedAmount, AMMError>)
    ensures
        r == match epoch_transfer_fee(*token_mint, epoch) {
            Ok(fee) => transfer_fee_excluded(fee, transfer_fee_included_amount),
            Err(e) => Err(e),
        },
{
    match get_epoch_transfer_fee(token_mint, epoch) {
        Ok(epoch_transfer_fee) => transfer_fee_excluded_amount(
            epoch_transfer_fee,
            transfer_fee_included_amount,
        ),
        Err(e) => Err(e),
    }
}

/// Computes what to send of a mint's tokens in `epoch` so that
/// `transfer_fee_excluded_amount` arrives, and the fee in it.
pub fn calculate_transfer_fee_included_amount(
    token_mint: &MintInfo,
    epoch: u64,
    transfer_fee_excluded_amount: u64,
) -> (r: Result<TransferFeeIncludedAmount, AMMError>)
    ensures
        r == if transfer_fee_excluded_amount == 0 {
            Ok(TransferFeeIncludedAmount { amount: 0, transfer_fee: 0 })
        } else {
            match epoch_transfer_fee(*token_mint, epoch) {
                Ok(fee) => transfer_fee_included(fee, transfer_fee_excluded_amount),
                Err(e) => Err(e),
            }
        },
{
    if transfer_fee_excluded_amount == 0 {
        return Ok(TransferFeeIncludedAmount { amount: 0, transfer_fee: 0 });
    }
    match get_epoch_transfer_fee(token_mint, epoch) {
        Ok(epoch_transfer_fee) => transfer_fee_included_amount(
            epoch_transfer_fee,
            transfer_fee_excluded_amount,
        ),
        Err(e) => Err(e),
    }
}

/// What was sent so that an amount arrives, sent, lets that amount arrive:
/// taking the fee off what `transfer_fee_included` gives for
/// `transfer_fee_excluded_amount` yields that amount again, with the same fee.
pub proof fn lemma_transfer_fee_round_trip(
    epoch_transfer_fee: Option<TransferFee>,
    transfer_fee_excluded_amount: u64,
)
    requires
        transfer_fee_included(epoch_transfer_fee, transfer_fee_excluded_amount) is Ok,
    ensures
        ({
            let included = transfer_fee_included(
                epoch_transfer_fee,
                transfer_fee_excluded_amount,
            )->Ok_0;
            transfer_fee_excluded(epoch_transfer_fee, included.amount) == Ok::<
                TransferFeeExcludedAmount,
                AMMError,
            >(
                TransferFeeExcludedAmount {
                    amount: transfer_fee_excluded_amount,
                    transfer_fee: included.transfer_fee,
                },
            )
        }),
{
}

/// Below a rate of one hundred percent, the fee on the least amount that
/// lets `post_fee_amount` arrive is exactly what that amount is above
/// `post_fee_amount`.
pub proof fn lemma_fee_on_pre_fee_amount(fee: TransferFee, post_fee_amount: u64)
    requires
        fee.transfer_fee_basis_points < MAX_FEE_BASIS_POINTS,
        fee.pre_fee_amount_for(post_fee_amount) is Some,
    ensures
        fee.pre_fee_amount_for(post_fee_amount)->Some_0 >= post_fee_amount,
        fee.fee_on(fee.pre_fee_amount_for(post_fee_amount)->Some_0) == Some(
            (fee.pre_fee_amount_for(post_fee_amount)->Some_0 - post_fee_amount) as u64,
        ),
{
    let rate = fee.transfer_fee_basis_points as int;
    let kept = 10_000 - rate;
    let pre = fee.pre_fee_amount_for(post_fee_amount)->Some_0 as int;
    if rate != 0 && post_fee_amount != 0 {
        let raw_pre = ceil_div(post_fee_amount * 10_000, kept);
        lemma_ceil_div_bounds(post_fee_amount * 10_000, kept);
        assert(raw_pre >= post_fee_amount) by (nonlinear_arith)
            requires
                post_fee_amount * 10_000 <= raw_pre * kept,
                0 < kept <= 10_000,
                post_fee_amount >= 0,
        ;
        // what is kept of `pre` is at most what arrives, and misses it by
        // less than one unit
        assert(pre * kept < post_fee_amount * 10_000 + 10_000) by (nonlinear_arith)
            requires
                raw_pre * kept < post_fee_amount * 10_000 + kept,
                0 <= pre <= raw_pre,
                0 < kept < 10_000,
        ;
        let fee_raw = ceil_div(pre * rate, 10_000);
        lemma_ceil_div_bounds(pre * rate, 10_000);
        assert(pre * rate == pre * 10_000 - pre * kept) by (nonlinear_arith)
            requires
                kept == 10_000 - rate,
        ;
        if pre == raw_pre {
            lemma_ceil_div_is(pre * rate, 10_000, pre - post_fee_amount);
        } else {
            // the fee is capped: `pre` is the amount to arrive plus the cap
            assert(fee_raw >= fee.maximum_fee) by (nonlinear_arith)
                requires
                    pre * rate <= fee_raw * 10_000,
                    pre * rate == pre * 10_000 - pre * kept,
                    pre * kept < post_fee_amount * 10_000 + 10_000,
                    pre == post_fee_amount + fee.maximum_fee,
            ;
        }
    }
}

/// Below a rate of one hundred percent, the two computations of the fee
/// never disagree: an amount to send is found for every amount to arrive
/// whose least such amount fits in 64 bits, and it is that least amount.
pub proof fn lemma_transfer_fee_included_below_full_rate(
    fee: TransferFee,
    transfer_fee_excluded_amount: u64,
)
    requires
        fee.transfer_fee_basis_points < MAX_FEE_BASIS_POINTS,
    ensures
        transfer_fee_included(Some(fee), transfer_fee_excluded_amount) == match fee.pre_fee_amount_for(
            transfer_fee_excluded_amount,
        ) {
            Some(amount) => Ok::<TransferFeeIncludedAmount, AMMError>(
                TransferFeeIncludedAmount {
                    amount,
                    transfer_fee: (amount - transfer_fee_excluded_amount) as u64,
                },
            ),
            None => Err(AMMError::TransferFeeCalculationError),
        },
{
    if fee.pre_fee_amount_for(transfer_fee_excluded_amount) is Some {
        lemma_fee_on_pre_fee_amount(fee, transfer_fee_excluded_amount);
    }
}

/// Below a rate of one hundred percent, whoever wants an amount to arrive,
/// and can send what that takes within 64 bits, is told what to send, and
/// sending it lets exactly that amount arrive.
pub proof fn lemma_transfer_fee_round_trip_below_full_rate(
    fee: TransferFee,
    transfer_fee_excluded_amount: u64,
)
    requires
        fee.transfer_fee_basis_points < MAX_FEE_BASIS_POINTS,
        transfer_fee_excluded_amount > 0,
        fee.pre_fee_amount_for(transfer_fee_excluded_amount) is Some,
    ensures
        transfer_fee_included(Some(fee), transfer_fee_excluded_amount) is Ok,
        transfer_fee_excluded(
            Some(fee),
            transfer_fee_included(Some(fee), transfer_fee_excluded_amount)->Ok_0.amount,
        ) is Ok,
        transfer_fee_excluded(
            Some(fee),
            transfer_fee_included(Some(fee), transfer_fee_excluded_amount)->Ok_0.amount,
        )->Ok_0.amount == transfer_fee_excluded_amount,
{
    lemma_transfer_fee_included_below_full_rate(fee, transfer_fee_excluded_amount);
    lemma_transfer_fee_round_trip(Some(fee), transfer_fee_excluded_amount);
}

} // verus!
