//! Recoverable business failures. Every command of the core returns one of
//! these instead of raising a fault; the caller decides whether to retry,
//! report, or abandon.

use vstd::prelude::*;

verus! {

#[derive(Clone, Copy, Debug, PartialEq, Eq, Structural)]
pub enum GameError {
    /// A ledger cannot cover a cost list.
    InsufficientResources,
    /// A city already holds as many buildings as its stats allow.
    BuildingLimitReached,
    /// Another building of the same city occupies the position.
    PositionOccupied,
    /// No building of the city carries the given id.
    BuildingNotFound,
    /// No market is registered under the given settlement name.
    MarketNotFound,
    /// The market carries no entry for the given resource kind.
    ResourceUntracked,
    /// A trade route endpoint has no registered market.
    RouteEndpointMissingMarket,
}

impl GameError {
    /// A short human-readable description, for the presentation layer.
    pub fn message(&self) -> &'static str {
        match self {
            GameError::InsufficientResources => "not enough resources",
            GameError::BuildingLimitReached => "building limit reached",
            GameError::PositionOccupied => "position already occupied",
            GameError::BuildingNotFound => "building not found",
            GameError::MarketNotFound => "market not found",
            GameError::ResourceUntracked => "resource not tracked on this market",
            GameError::RouteEndpointMissingMarket => "route endpoint has no market",
        }
    }
}

} // verus!
