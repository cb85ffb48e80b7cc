//! The failures that the session core reports.

use vstd::prelude::*;
use vstd::string::*;

verus! {

/// Everything that can go wrong while driving an engine or analysing a game.
#[derive(Debug, Clone, PartialEq, Eq)]
pub enum Error {
    /// The handshake, or the wait for the engine to settle, ran out of time.
    EngineTimeout,
    /// The engine could not be started, or died.
    EngineCrashed(String),
    /// The engine showed no activity for too long.
    EngineUnresponsive,
    /// Writing to or reading from the engine failed.
    EngineCommunication(String),
    /// The operation makes no sense in the state the session is in.
    InvalidEngineState(String),
    /// The `MultiPV` option does not hold a number.
    InvalidMultiPvValue(String),
    /// The engine could not allocate its hash table, even at the smallest size.
    HashAllocationFailed,
    /// An analysis line carried no move.
    NoMovesFound,
    /// The starting position could not be set up.
    InvalidPosition,
    /// A move cannot be played in the position it is meant for.
    IllegalMove,
    /// Novelty annotation was asked for without a reference database.
    MissingReferenceDatabase,
    /// The engine process has no standard input.
    NoStdin,
    /// The engine process has no standard output.
    NoStdout,
    /// The puzzle database holds no puzzle in the rating range.
    NoPuzzles,
    /// The package manager is unknown or failed.
    PackageManager(String),
}

impl Error {
    /// The fixed part of the message of each kind of failure.
    pub open spec fn headline(self) -> Seq<char> {
        match self {
            Error::EngineTimeout => "Engine timeout"@,
            Error::EngineCrashed(_) => "Engine crashed: "@,
            Error::EngineUnresponsive => "Engine unresponsive"@,
            Error::EngineCommunication(_) => "Engine communication error: "@,
            Error::InvalidEngineState(_) => "Invalid engine state: "@,
            Error::InvalidMultiPvValue(_) => "Invalid MultiPV value: "@,
            Error::HashAllocationFailed => "Hash allocation failed"@,
            Error::NoMovesFound => "No moves found"@,
            Error::InvalidPosition => "Invalid position"@,
            Error::IllegalMove => "Illegal move"@,
            Error::MissingReferenceDatabase => "Missing reference database"@,
            Error::NoStdin => "No stdin"@,
            Error::NoStdout => "No stdout"@,
            Error::NoPuzzles => "No puzzles"@,
            Error::PackageManager(_) => "Package manager error: "@,
        }
    }

    /// The detail that some kinds of failure carry, empty for the others.
    pub open spec fn detail(self) -> Seq<char> {
        match self {
            Error::EngineCrashed(d) => d@,
            Error::EngineCommunication(d) => d@,
            Error::InvalidEngineState(d) => d@,
            Error::InvalidMultiPvValue(d) => d@,
            Error::PackageManager(d) => d@,
            _ => Seq::empty(),
        }
    }

    /// The text shown to the user: the headline followed by the detail.
    pub open spec fn message_spec(self) -> Seq<char> {
        self.headline() + self.detail()
    }

    /// The text shown to the user.
    pub fn message(&self) -> (r: String)
        ensures
            r@ == self.message_spec(),
    {
        let (head, detail): (&str, &str) = match self {
            Error::EngineTimeout => ("Engine timeout", ""),
            Error::EngineCrashed(d) => ("Engine crashed: ", d.as_str()),
            Error::EngineUnresponsive => ("Engine unresponsive", ""),
            Error::EngineCommunication(d) => ("Engine communication error: ", d.as_str()),
            Error::InvalidEngineState(d) => ("Invalid engine state: ", d.as_str()),
            Error::InvalidMultiPvValue(d) => ("Invalid MultiPV value: ", d.as_str()),
            Error::HashAllocationFailed => ("Hash allocation failed", ""),
            Error::NoMovesFound => ("No moves found", ""),
            Error::InvalidPosition => ("Invalid position", ""),
            Error::IllegalMove => ("Illegal move", ""),
            Error::MissingReferenceDatabase => ("Missing reference database", ""),
            Error::NoStdin => ("No stdin", ""),
            Error::NoStdout => ("No stdout", ""),
            Error::NoPuzzles => ("No puzzles", ""),
            Error::PackageManager(d) => ("Package manager error: ", d.as_str()),
        };
        proof {
            reveal_strlit("");
            assert(""@ =~= Seq::<char>::empty());
        }
        let mut r: String = String::from_str(head);
        r.append(detail);
        r
    }
}

} // verus!
