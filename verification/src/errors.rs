use vstd::prelude::*;

verus! {

/// Every way an operation can be rejected.
///
/// Validation failures (a supplied address that does not match its required
/// derivation, a missing or ill-typed account, a zero edition number) are
/// caught before any state change; the remaining variants wrap rejections
/// of the modelled token, metadata and system services. Whatever the
/// variant, a rejected operation leaves the ledger exactly as it was.
#[derive(Clone, Copy, Debug, PartialEq, Eq, Structural)]
pub enum Error {
    /// Allocating or funding a new account failed.
    AccountCreationFailed,
    /// The target account already carries state.
    AlreadyInitialized,
    /// The token service refused to mint: wrong authority, missing
    /// accounts, or a balance that would exceed one.
    MintFailed,
    /// The metadata service refused to create the metadata account.
    MetadataCreateFailed,
    /// The metadata service refused to create the master edition account.
    MasterEditionCreateFailed,
    /// The edition marker already witnesses this edition number.
    EditionAlreadyPrinted,
    /// The requested edition number exceeds the master edition's cap.
    EditionExceedsSupply,
    /// The caller does not hold a unit of the original mint.
    NotTokenHolder,
    /// A supplied address does not match its required derivation.
    WrongDerivedAddress,
    /// An account is missing or is not of the kind the operation needs.
    InvalidAccount,
    /// Edition numbers start at one.
    InvalidEditionNumber,
    /// The mint carries the permanent non-transferable flag.
    NonTransferable,
    /// A wallet balance is too small for the requested movement.
    InsufficientFunds,
    /// The transfer authority is not the owner of the source account.
    WrongOwner,
}

} // verus!
