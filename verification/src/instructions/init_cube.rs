//! Opening a challenge: a sponsor puts up a scrambled cube and a prize.

use vstd::prelude::*;
use vstd::utf8::encode_utf8;
use crate::error::Error;
use crate::state::{Address, Cube, Sponsor};

verus! {

/// The accounts of a new challenge, by what they hold.
#[derive(Debug, PartialEq, Eq)]
pub struct InitCube {
    /// Who signs and pays
    pub sponsor: Address,
    /// The sponsor's record
    pub sponsor_data: Sponsor,
    /// The cube to be solved
    pub cube: Cube,
}

impl InitCube {
    /// The accounts after the challenge was recorded.
    pub open spec fn funded(self, sponsor_name: String, sponsor_desc: String, cube: Cube, prize: u64) -> InitCube {
        InitCube {
            sponsor: self.sponsor,
            sponsor_data: self.sponsor_data.after_challenge(
                self.sponsor,
                sponsor_name,
                sponsor_desc,
                prize,
            ),
            cube,
        }
    }
}

/// Whether a sponsor's name and description fit the space that the
/// sponsor's account reserves for them. Lengths are counted in bytes of
/// UTF-8; the name is looked at first.
pub open spec fn fitting(sponsor_name: Seq<char>, sponsor_desc: Seq<char>) -> Result<(), Error> {
    if encode_utf8(sponsor_name).len() > Sponsor::MAX_NAME_LEN {
        Err(Error::SponsorNameTooLong)
    } else if encode_utf8(sponsor_desc).len() > Sponsor::MAX_DESC_LEN {
        Err(Error::SponsorDescTooLong)
    } else {
        Ok(())
    }
}

/// Checks that the sponsor's name and description fit the space that the
/// sponsor's account reserves for them.
pub fn validate(sponsor_name: &String, sponsor_desc: &String) -> (checked: Result<(), Error>)
    ensures
        checked == fitting(sponsor_name@, sponsor_desc@),
{
    if sponsor_name.as_str().as_bytes().len() > Sponsor::MAX_NAME_LEN {
        return Err(Error::SponsorNameTooLong);
    }
    if sponsor_desc.as_str().as_bytes().len() > Sponsor::MAX_DESC_LEN {
        return Err(Error::SponsorDescTooLong);
    }

    Ok(())
}

/// Records a new challenge: the cube account takes the scramble `cube`, and
/// the sponsor's record counts one more challenge and `prize` more lamports.
/// The first challenge of a sponsor also fills in who the sponsor is.
pub fn handler(
    ctx: &mut InitCube,
    sponsor_name: String,
    sponsor_desc: String,
    cube: Cube,
    prize: u64,
)
    requires
        old(ctx).sponsor_data.challenges_created < u64::MAX,
        old(ctx).sponsor_data.total_fund + prize <= u64::MAX,
    ensures
        *final(ctx) == old(ctx).funded(sponsor_name, sponsor_desc, cube, prize),
{
    // Create cube
    let new_cube = &mut ctx.cube;

    new_cube.co = cube.co;
    new_cube.cp = cube.cp;
    new_cube.eo = cube.eo;
    new_cube.ep = cube.ep;

    // Create or update sponsor
    let sponsor_data = &mut ctx.sponsor_data;

    if sponsor_data.challenges_created == 0 {
        sponsor_data.owner = ctx.sponsor;
        sponsor_data.name = sponsor_name;
        sponsor_data.desc = sponsor_desc;
    }
    sponsor_data.challenges_created += 1;
    sponsor_data.total_fund += prize;
}

} // verus!
