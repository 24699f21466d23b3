//! The refusals of the library.

use vstd::prelude::*;

verus! {

/// Every way in which an operation of this library can be refused.
#[derive(Clone, Copy, Debug, PartialEq, Eq, Structural)]
pub enum ContractError {
    /// The global configuration has not been initialized.
    NotInitialized,
    /// The bonding curve has completed and accepts no further trades.
    BondingCurveComplete,
    /// The fee account handed in is not the configured fee receiver.
    InvalidFeeReceiver,
    /// A buy was requested with an amount of zero.
    MinBuy,
    /// A sell was requested with an amount of zero.
    MinSell,
    /// The seller holds fewer tokens than the amount offered.
    InsufficientUserTokens,
    /// The user holds too few lamports for the trade.
    InsufficientUserSOL,
    /// A checked arithmetic step overflowed, underflowed or divided by zero.
    CalculationError,
    /// The mint's decimal precision differs from the configured one.
    InvalidMintDecimals,
    /// The mint's authority is not the bonding curve.
    WrongAuthority,
}

impl ContractError {
    /// The text that [`ContractError::message`] gives.
    pub open spec fn spec_message(self) -> Seq<char> {
        match self {
            ContractError::NotInitialized => "Global Not Initialized"@,
            ContractError::BondingCurveComplete => "Bonding Curve Complete"@,
            ContractError::InvalidFeeReceiver => "Invalid Fee Receiver"@,
            ContractError::MinBuy => "Buy amount is 0"@,
            ContractError::MinSell => "Sell amount is 0"@,
            ContractError::InsufficientUserTokens => "Insufficient User Tokens"@,
            ContractError::InsufficientUserSOL => "Insufficient user SOL"@,
            ContractError::CalculationError => "Error while performing calculation"@,
            ContractError::InvalidMintDecimals => "Invalid Mint Decimals"@,
            ContractError::WrongAuthority => "Wrong Authority"@,
        }
    }

    /// The message to show for the error.
    pub fn message(&self) -> (text: &'static str)
        ensures
            text@ == self.spec_message(),
    {
        match self {
            ContractError::NotInitialized => "Global Not Initialized",
            ContractError::BondingCurveComplete => "Bonding Curve Complete",
            ContractError::InvalidFeeReceiver => "Invalid Fee Receiver",
            ContractError::MinBuy => "Buy amount is 0",
            ContractError::MinSell => "Sell amount is 0",
            ContractError::InsufficientUserTokens => "Insufficient User Tokens",
            ContractError::InsufficientUserSOL => "Insufficient user SOL",
            ContractError::CalculationError => "Error while performing calculation",
            ContractError::InvalidMintDecimals => "Invalid Mint Decimals",
            ContractError::WrongAuthority => "Wrong Authority",
        }
    }
}

} // verus!
