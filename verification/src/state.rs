//! The data that the program keeps: the cube itself, and the records of
//! sponsors and winners.

use vstd::prelude::*;

verus! {

/// A cube: for each corner slot and each edge slot, the piece that sits in
/// it and how that piece is oriented.
#[derive(Clone, Copy, Debug, PartialEq, Eq)]
pub struct Cube {
    /// Corner orientation vector
    pub co: [u8; 8],
    /// Corner permutation vector
    pub cp: [u8; 8],
    /// Edge orientation vector
    pub eo: [u8; 12],
    /// Edge permutation vector
    pub ep: [u8; 12],
}

/// The mathematical content of a [`Cube`]: four sequences, indexed by slot.
pub struct CubeState {
    /// Twist of the corner in each corner slot.
    pub co: Seq<u8>,
    /// Label of the corner in each corner slot.
    pub cp: Seq<u8>,
    /// Flip of the edge in each edge slot.
    pub eo: Seq<u8>,
    /// Label of the edge in each edge slot.
    pub ep: Seq<u8>,
}

impl View for Cube {
    type V = CubeState;

    open spec fn view(&self) -> CubeState {
        CubeState { co: self.co@, cp: self.cp@, eo: self.eo@, ep: self.ep@ }
    }
}

/// `p` holds each of the labels `1..=n` exactly once.
pub open spec fn is_permutation(p: Seq<u8>, n: int) -> bool {
    &&& p.len() == n
    &&& forall|i: int| 0 <= i < n ==> 1 <= #[trigger] p[i] <= n
    &&& forall|i: int, j: int| 0 <= i < n && 0 <= j < n && i != j ==> #[trigger] p[i] != #[trigger] p[j]
}

/// `v` has `n` entries, each below `bound`.
pub open spec fn all_below(v: Seq<u8>, n: int, bound: int) -> bool {
    &&& v.len() == n
    &&& forall|i: int| 0 <= i < n ==> #[trigger] v[i] < bound
}

impl CubeState {
    /// The four vectors have the lengths of a cube: what every view of a
    /// [`Cube`] satisfies.
    pub open spec fn shaped(self) -> bool {
        &&& self.co.len() == 8
        &&& self.cp.len() == 8
        &&& self.eo.len() == 12
        &&& self.ep.len() == 12
    }

    /// Every corner twist is 0, 1 or 2 and every edge flip is 0 or 1.
    pub open spec fn oriented(self) -> bool {
        &&& self.shaped()
        &&& all_below(self.co, 8, 3)
        &&& all_below(self.eo, 12, 2)
    }

    /// The invariant of a cube: orientations in range, and each label
    /// in exactly one slot.
    pub open spec fn wf(self) -> bool {
        &&& self.oriented()
        &&& is_permutation(self.cp, 8)
        &&& is_permutation(self.ep, 12)
    }

    /// The cube as a record of 40 bytes: corner orientations, corner
    /// permutation, edge orientations, edge permutation, in this order.
    pub open spec fn record(self) -> Seq<u8> {
        self.co + self.cp + self.eo + self.ep
    }

    /// The solved configuration: every piece in the slot of its own label,
    /// untwisted and unflipped.
    pub open spec fn solved() -> CubeState {
        CubeState {
            co: Seq::new(8, |i: int| 0u8),
            cp: Seq::new(8, |i: int| (i + 1) as u8),
            eo: Seq::new(12, |i: int| 0u8),
            ep: Seq::new(12, |i: int| (i + 1) as u8),
        }
    }
}

impl Cube {
    /// Space of a cube account, in bytes.
    pub const LEN: usize =
        8 +             // Discriminator
        2 * (1 * 8) +   // Two [u8; 8]
        2 * (1 * 12)    // Two [u8; 12]
    ;

    /// The invariant of a cube, on its view.
    pub open spec fn wf(&self) -> bool {
        self@.wf()
    }

    /// Writes the cube as a record of 40 bytes.
    pub fn to_bytes(&self) -> (bytes: [u8; 40])
        ensures
            bytes@ == self@.record(),
    {
        let mut bytes: [u8; 40] = [0; 40];
        let mut slot: usize = 0;
        while slot < 8
            invariant
                slot <= 8,
                forall|i: int| 0 <= i < slot ==> bytes@[i] == self.co@[i] && bytes@[8 + i] == self.cp@[i],
            decreases 8 - slot,
        {
            bytes[slot] = self.co[slot];
            bytes[8 + slot] = self.cp[slot];
            slot += 1;
        }
        let mut slot: usize = 0;
        while slot < 12
            invariant
                slot <= 12,
                forall|i: int| 0 <= i < 8 ==> bytes@[i] == self.co@[i] && bytes@[8 + i] == self.cp@[i],
                forall|i: int| 0 <= i < slot ==> bytes@[16 + i] == self.eo@[i] && bytes@[28 + i] == self.ep@[i],
            decreases 12 - slot,
        {
            bytes[16 + slot] = self.eo[slot];
            bytes[28 + slot] = self.ep[slot];
            slot += 1;
        }
        assert(bytes@ =~= self@.record());
        bytes
    }

    /// Reads a cube from a record of 40 bytes. Every record is read: the
    /// cube that comes out need not satisfy the invariant.
    pub fn from_bytes(bytes: &[u8; 40]) -> (cube: Cube)
        ensures
            cube@.record() == bytes@,
    {
        let mut cube = Cube { co: [0; 8], cp: [0; 8], eo: [0; 12], ep: [0; 12] };
        let mut slot: usize = 0;
        while slot < 8
            invariant
                slot <= 8,
                forall|i: int| 0 <= i < slot ==> cube.co@[i] == bytes@[i] && cube.cp@[i] == bytes@[8 + i],
            decreases 8 - slot,
        {
            cube.co[slot] = bytes[slot];
            cube.cp[slot] = bytes[8 + slot];
            slot += 1;
        }
        let mut slot: usize = 0;
        while slot < 12
            invariant
                slot <= 12,
                forall|i: int| 0 <= i < 8 ==> cube.co@[i] == bytes@[i] && cube.cp@[i] == bytes@[8 + i],
                forall|i: int| 0 <= i < slot ==> cube.eo@[i] == bytes@[16 + i] && cube.ep@[i] == bytes@[28 + i],
            decreases 12 - slot,
        {
            cube.eo[slot] = bytes[16 + slot];
            cube.ep[slot] = bytes[28 + slot];
            slot += 1;
        }
        assert(cube@.record() =~= bytes@);
        cube
    }

    /// Returns the solved cube.
    pub fn solved() -> (cube: Cube)
        ensures
            cube@ == CubeState::solved(),
            cube.wf(),
    {
        let cube = Cube {
            co: [0, 0, 0, 0, 0, 0, 0, 0],
            cp: [1, 2, 3, 4, 5, 6, 7, 8],
            eo: [0, 0, 0, 0, 0, 0, 0, 0, 0, 0, 0, 0],
            ep: [1, 2, 3, 4, 5, 6, 7, 8, 9, 10, 11, 12],
        };
        assert(cube.co@ =~= CubeState::solved().co);
        assert(cube.cp@ =~= CubeState::solved().cp);
        assert(cube.eo@ =~= CubeState::solved().eo);
        assert(cube.ep@ =~= CubeState::solved().ep);
        cube
    }
}

/// The public key of an account.
pub type Address = [u8; 32];

/// Whoever funds challenges
#[derive(Debug, PartialEq, Eq)]
pub struct Sponsor {
    /// Owner of this sponsor
    pub owner: Address,
    /// Name of the company (30 bytes)
    pub name: String,
    /// Extra info (70 bytes)
    pub desc: String,
    /// Number of challenges created so far
    pub challenges_created: u64,
    /// Total lamports locked in challenges
    pub total_fund: u64,
}

impl Sponsor {
    /// Most bytes that a sponsor's name may take.
    pub const MAX_NAME_LEN: usize = 30;

    /// Most bytes that a sponsor's description may take.
    pub const MAX_DESC_LEN: usize = 70;

    /// Space of a sponsor account, in bytes.
    pub const LEN: usize =
        8 +                     // Discriminator
        32 +                    // One Pubkey
        2 * 8 +                 // Two u64
        Self::MAX_NAME_LEN +    // Name
        Self::MAX_DESC_LEN      // Desc
    ;

    /// The record after one more challenge with the prize `prize`: the
    /// first challenge also fills in who the sponsor is.
    pub open spec fn after_challenge(self, sponsor: Address, name: String, desc: String, prize: u64) -> Sponsor {
        let first = self.challenges_created == 0;
        Sponsor {
            owner: if first { sponsor } else { self.owner },
            name: if first { name } else { self.name },
            desc: if first { desc } else { self.desc },
            challenges_created: (self.challenges_created + 1) as u64,
            total_fund: (self.total_fund + prize) as u64,
        }
    }
}

/// Register of someone that won
#[derive(Debug, PartialEq, Eq)]
pub struct Winner {
    /// Who won
    pub winner: Address,
    /// Number of challenges won so far
    pub challenges_won: u64,
    /// Total lamports cashed from challenges
    pub cashed_prize: u64,
    /// Name of the winner (100 bytes)
    pub name: String,
}

impl Winner {
    /// Most bytes that a winner's name may take.
    pub const MAX_NAME_LEN: usize = 100;

    /// Space of a winner account, in bytes.
    pub const LEN: usize =
        8 +                     // Discriminator
        32 +                    // One Pubkey
        2 * 8 +                 // Two u64
        Self::MAX_NAME_LEN      // Name
    ;

    /// The record after one more win that cashed `lamports`: the first win
    /// also fills in who the winner is.
    pub open spec fn after_win(self, cuber: Address, lamports: u64) -> Winner {
        Winner {
            winner: if self.challenges_won == 0 { cuber } else { self.winner },
            challenges_won: (self.challenges_won + 1) as u64,
            cashed_prize: (self.cashed_prize + lamports) as u64,
            name: self.name,
        }
    }
}

} // verus!
