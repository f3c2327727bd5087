//! What can go wrong with a board or a move.

use vstd::prelude::*;
use vstd::string::StringExecFns;
use crate::text::{decimal, to_decimal};

verus! {

/// Failures of the codec and the move engine, and of the collaborators
/// around them. None is retried: each ends the operation that met it, and
/// the session stays as it was.
#[derive(Debug, PartialEq, Eq)]
pub enum GameError {
    /// The board text does not have one character per cell.
    MalformedBoard,
    /// The chosen column is not on the board, which has `max_column` columns.
    InvalidColumn { max_column: usize },
    /// The chosen column has no empty cell left.
    ColumnFull,
    /// The store could not keep the move; the move counts as not made.
    PersistenceFailure(String),
    /// The collaborator could not be reached.
    TransportFailure(String),
}

impl GameError {
    /// What the user is told of the failure.
    pub open spec fn message_text(self) -> Seq<char> {
        match self {
            GameError::MalformedBoard => "The board does not have one character per cell"@,
            GameError::InvalidColumn { max_column } =>
                "There is no column with this number. Max column is: "@ + decimal(
                    max_column as nat,
                ),
            GameError::ColumnFull => "This column is full. Please, try another move"@,
            GameError::PersistenceFailure(reason) => reason@,
            GameError::TransportFailure(reason) => reason@,
        }
    }

    /// What the user is told of the failure.
    pub fn message(&self) -> (text: String)
        ensures
            text@ == self.message_text(),
    {
        match self {
            GameError::MalformedBoard => String::from_str(
                "The board does not have one character per cell",
            ),
            GameError::InvalidColumn { max_column } => {
                let mut text = String::from_str(
                    "There is no column with this number. Max column is: ",
                );
                let number = to_decimal(*max_column as u64);
                text.append(number.as_str());
                text
            },
            GameError::ColumnFull => String::from_str(
                "This column is full. Please, try another move",
            ),
            GameError::PersistenceFailure(reason) => reason.clone(),
            GameError::TransportFailure(reason) => reason.clone(),
        }
    }
}

/// A failure, as the worker reports it to a requester.
#[derive(Debug, Clone, PartialEq, Eq)]
pub struct ServerError {
    pub err: String,
}

impl View for ServerError {
    type V = Seq<char>;

    open spec fn view(&self) -> Seq<char> {
        self.err@
    }
}

/// A failure, as the transport reports it to the worker.
#[derive(Debug, Clone, PartialEq, Eq)]
pub struct RestError {
    pub err: String,
}

impl View for RestError {
    type V = Seq<char>;

    open spec fn view(&self) -> Seq<char> {
        self.err@
    }
}

} // verus!
