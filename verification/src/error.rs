//! Failures that the cube program reports to its callers.

use vstd::prelude::*;

verus! {

/// The ways in which an instruction can fail.
#[derive(Clone, Copy, PartialEq, Eq, Structural, Debug)]
pub enum Error {
    /// A token of the move sequence is not one of the eighteen moves.
    InvalidMove,
    /// The cube is not in the solved configuration.
    UnsolvedCube,
    /// The sponsor's name needs more bytes than its account reserves.
    SponsorNameTooLong,
    /// The sponsor's description needs more bytes than its account reserves.
    SponsorDescTooLong,
    /// The winner's name needs more bytes than its account reserves.
    WinnerNameTooLong,
}

impl Error {
    /// The text shown to a user for each failure.
    pub open spec fn message_text(self) -> Seq<char> {
        match self {
            Error::InvalidMove => "Invalid move"@,
            Error::UnsolvedCube => "Cube is not solved"@,
            Error::SponsorNameTooLong => "The sponsor's name is too long!"@,
            Error::SponsorDescTooLong => "The sponsor's description is too long!"@,
            Error::WinnerNameTooLong => "The winner's name is too long!"@,
        }
    }

    /// Returns the text shown to a user for this failure.
    pub fn message(&self) -> (text: &'static str)
        ensures
            text@ == self.message_text(),
    {
        match self {
            Error::InvalidMove => "Invalid move",
            Error::UnsolvedCube => "Cube is not solved",
            Error::SponsorNameTooLong => "The sponsor's name is too long!",
            Error::SponsorDescTooLong => "The sponsor's description is too long!",
            Error::WinnerNameTooLong => "The winner's name is too long!",
        }
    }
}

} // verus!
