//! The request/response surface of the engine: a pure decision function from a
//! parsed request and the shared board to the next board and a reply.
//!
//! The surrounding transport layer parses paths into [`ApiRequest`] values,
//! serialises each [`ApiReply`] (its status code and plain-text body), and
//! serialises access to the shared board; everything it must decide is decided
//! here. Reseeding the random source on reset is caller-level, as the engine
//! does not own the source.

use vstd::prelude::*;

use crate::board::empty_board;
use crate::board::spec_play;
use crate::board::spec_render;
use crate::board::Connect4;
use crate::board::MoveError;
use crate::board::Tile;

verus! {

/// A parsed request against the shared board.
#[derive(Clone, Copy, PartialEq, Eq, Structural, Debug)]
pub enum ApiRequest {
    /// Show the current board.
    Board,
    /// Replace the board with a fresh empty one and show it.
    Reset,
    /// Drop `team` into the 1-based column `column`.
    Place { team: Tile, column: usize },
}

/// The reply to a request: an HTTP-style status code and a plain-text body.
pub struct ApiReply {
    /// 200 on success, 400 for an out-of-range column, 503 for a move the
    /// current game state rejects.
    pub status: u16,
    /// The rendered board, or empty when the request itself was invalid.
    pub body: String,
}

/// Handles one request against the shared board.
///
/// A rejected move with an in-range column still shows the (unchanged) board,
/// as a "try later" reply; an out-of-range column is the caller's mistake and
/// gets a bare bad-request reply.
pub fn route(board: &mut Connect4, req: ApiRequest) -> (reply: ApiReply)
    ensures
        match req {
            ApiRequest::Board => final(board)@ == old(board)@ && reply.status == 200
                && reply.body@ == spec_render(old(board)@),
            ApiRequest::Reset => final(board)@ == empty_board() && reply.status == 200
                && reply.body@ == spec_render(empty_board()),
            ApiRequest::Place { team, column } => {
                &&& final(board)@ == spec_play(old(board)@, team, column as int).0
                &&& match spec_play(old(board)@, team, column as int).1 {
                    Ok(()) => reply.status == 200 && reply.body@ == spec_render(final(board)@),
                    Err(MoveError::InvalidColumn) => reply.status == 400 && reply.body@
                        == Seq::<char>::empty(),
                    Err(_) => reply.status == 503 && reply.body@ == spec_render(final(board)@),
                }
            },
        },
{
    match req {
        ApiRequest::Board => ApiReply { status: 200, body: board.render() },
        ApiRequest::Reset => {
            *board = Connect4::empty();
            ApiReply { status: 200, body: board.render() }
        },
        ApiRequest::Place { team, column } => {
            match board.play(team, column) {
                Ok(()) => ApiReply { status: 200, body: board.render() },
                Err(MoveError::InvalidColumn) => ApiReply { status: 400, body: String::new() },
                Err(_) => ApiReply { status: 503, body: board.render() },
            }
        },
    }
}

} // verus!
