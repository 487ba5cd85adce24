//! The answers of the chain's query surface as a client receives them: each
//! carries the protocol version, the number of the request, and either a
//! result or an error.

use crate::api;
use vstd::prelude::*;

verus! {

/// The error of an answer: its code and what it says.
#[derive(Clone, Debug)]
pub struct APIError {
    pub code: i32,
    pub message: String,
}

/// The answer to a ping.
#[derive(Clone, Debug)]
pub struct PingResponse {
    pub jsonrpc: String,
    pub id: u32,
    pub result: Option<api::PingResponse>,
    pub error: Option<APIError>,
}

/// The answer to a request to create a game.
#[derive(Clone, Debug)]
pub struct CreateGameResponse {
    pub jsonrpc: String,
    pub id: u32,
    pub result: Option<api::CreateGameResponse>,
    pub error: Option<APIError>,
}

/// The answer to a request for the position of a game.
#[derive(Clone, Debug)]
pub struct GetGameResponse {
    pub jsonrpc: String,
    pub id: u32,
    pub result: Option<api::GetGameResponse>,
    pub error: Option<APIError>,
}

/// The answer to a request to make a move.
#[derive(Clone, Debug)]
pub struct MakeMoveResponse {
    pub jsonrpc: String,
    pub id: u32,
    pub result: Option<api::MakeMoveResponse>,
    pub error: Option<APIError>,
}

/// The answer to the question whether a game exists.
#[derive(Clone, Debug)]
pub struct ExistsResponse {
    pub jsonrpc: String,
    pub id: u32,
    pub result: Option<api::ExistsResponse>,
    pub error: Option<APIError>,
}

/// The answer to a request for the block that was accepted last.
#[derive(Clone, Debug)]
pub struct LastAcceptedResponse {
    pub jsonrpc: String,
    pub id: u32,
    pub result: Option<api::LastAcceptedResponse>,
    pub error: Option<APIError>,
}

} // verus!
