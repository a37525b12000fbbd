//! Chess rules core: board representation, move legality, check, checkmate
//! and stalemate detection, and algebraic move notation.

pub mod board;
pub mod pieces;
pub mod moves;
pub mod rules;
pub mod state;

pub use board::BoardPosition;
pub use board::ChessBoard;
pub use pieces::ChessPiece;
pub use pieces::PieceColor;
pub use pieces::PieceType;
pub use moves::Move;
pub use moves::MoveCheckStatus;
pub use rules::MoveError;
pub use state::CastlingRights;
pub use state::ChessMove;
pub use state::GameStateResource;
pub use state::MoveHistory;
