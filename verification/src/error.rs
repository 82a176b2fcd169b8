//! The error taxonomy shared by both engines. Every operation returns a
//! `Result`; the first error aborts the call and no state is changed.

use vstd::prelude::*;

verus! {

/// Terminal, user-visible failures of the engines.
#[derive(Clone, Copy, Debug, PartialEq, Eq, Structural)]
pub enum ContractError {
    /// The caller is not the address permitted for a restricted operation.
    Unauthorized,
    /// A deposit or withdrawal of zero was attempted.
    InvalidZeroAmount,
    /// Opening was attempted while a position is already open.
    PositionAlreadyOpen,
    /// Closing or liquidating was attempted on a position that is not open.
    PositionNotOpen,
    /// The position's margin ratio is still above the liquidation threshold.
    Unliquidatable,
    /// A market was registered twice under the same contract address.
    MarketAlreadyExists,
    /// No market is registered under the given contract address.
    MarketNotFound,
    /// No position record exists for the given market and user.
    PositionNotFound,
    /// A swap or simulation was requested with the `NOT_SET` direction.
    InvalidDirection,
}

impl ContractError {
    /// The text [`Self::as_text`] renders each error as.
    pub open spec fn text_spec(&self) -> Seq<char> {
        match self {
            ContractError::Unauthorized => "unauthorized"@,
            ContractError::InvalidZeroAmount => "invalid zero amount"@,
            ContractError::PositionAlreadyOpen => "position already open"@,
            ContractError::PositionNotOpen => "position not open"@,
            ContractError::Unliquidatable => "unliquidatable"@,
            ContractError::MarketAlreadyExists => "market already exists"@,
            ContractError::MarketNotFound => "market not found"@,
            ContractError::PositionNotFound => "position not found"@,
            ContractError::InvalidDirection => "invalid direction"@,
        }
    }

    /// A short name for the error, for callers that need to render it.
    pub fn as_text(&self) -> (r: String)
        ensures
            r@ == self.text_spec(),
    {
        match self {
            ContractError::Unauthorized => "unauthorized".to_owned(),
            ContractError::InvalidZeroAmount => "invalid zero amount".to_owned(),
            ContractError::PositionAlreadyOpen => "position already open".to_owned(),
            ContractError::PositionNotOpen => "position not open".to_owned(),
            ContractError::Unliquidatable => "unliquidatable".to_owned(),
            ContractError::MarketAlreadyExists => "market already exists".to_owned(),
            ContractError::MarketNotFound => "market not found".to_owned(),
            ContractError::PositionNotFound => "position not found".to_owned(),
            ContractError::InvalidDirection => "invalid direction".to_owned(),
        }
    }
}

} // verus!
