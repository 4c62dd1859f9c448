use vstd::prelude::*;

verus! {

/// Errors of the marketplace: derivation, authorization, state and economic failures.
#[derive(Clone, Copy, Debug, PartialEq, Eq, Structural)]
pub enum AuctionHouseError {
    PublicKeyMismatch,
    UninitializedAccount,
    IncorrectOwner,
    NumericalOverflow,
    NoPayerPresent,
    DerivedKeyInvalid,
    MetadataDoesntExist,
    InvalidTokenAmount,
    BothPartiesNeedToAgreeToSale,
    CannotMatchFreeSalesWithoutAuctionHouseOrSellerSignoff,
    SaleRequiresSigner,
    SellerATACannotHaveDelegate,
    BuyerATACannotHaveDelegate,
    NoValidSignerPresent,
    InvalidBasisPoints,
    NoAuctioneerProgramSet,
    AuctionHouseNotDelegated,
    BumpSeedNotInHashMap,
    BuyerTradeStateNotValid,
    NotEnoughTokensAvailableForPurchase,
    AuctionHouseAlreadyDelegated,
    InsufficientFunds,
    /// An account's data does not decode as the record it should hold.
    InvalidAccountData,
    /// Fewer accounts were supplied than the operation reads.
    NotEnoughAccountKeys,
    /// A trade state is already open at that identity.
    TradeStateAlreadyOpen,
    /// No trade state is open at that identity.
    TradeStateNotOpen,
    /// The account to create already holds a record.
    AccountAlreadyInitialized,
}

/// Errors of the auctioneer's listing rules.
#[derive(Clone, Copy, Debug, PartialEq, Eq, Structural)]
pub enum AuctioneerError {
    BumpSeedNotInHashMap,
    SignerNotAuth,
    AuctionNotStarted,
    AuctionEnded,
    BelowReservePrice,
    BelowBidIncrement,
    CannotCancelHighestBid,
    NotHighestBidder,
    NumericalOverflow,
    /// A listing is already open for that sell order.
    ListingAlreadyOpen,
    /// No listing is open for that sell order.
    ListingNotOpen,
    /// The marketplace refused the operation.
    AuctionHouse(AuctionHouseError),
}

} // verus!
