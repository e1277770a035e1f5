//! What the asset names of a scene mean: the shape family each is drawn as,
//! and the fixed half-extents of assets that carry no size of their own.

use vstd::prelude::*;
use crate::shapes::Family;

verus! {

/// Half the width of a stud, the plane grid unit.
pub const STUD_WIDTH: u32 = 10;

/// Height of a full brick.
pub const STUD_HEIGHT: u32 = 12;

/// Height of a plate.
pub const PLATE_HEIGHT: u32 = 4;

/// Whether two strings hold the same characters.
pub fn str_eq(a: &str, b: &str) -> (r: bool)
    ensures
        r == (a@ == b@),
{
    let n = a.unicode_len();
    if n != b.unicode_len() {
        return false;
    }
    let mut i: usize = 0;
    while i < n
        invariant
            n == a@.len(),
            n == b@.len(),
            i <= n,
            forall|j: int| 0 <= j < i ==> a@[j] == b@[j],
        decreases n - i,
    {
        if a.get_char(i) != b.get_char(i) {
            return false;
        }
        i += 1;
    }
    assert(a@ =~= b@);
    true
}

/// The half-extents of the fixed-mesh assets that the renderer knows.
pub open spec fn catalog_size(name: Seq<char>) -> Option<(u32, u32, u32)> {
    if name == "B_2x2_Corner"@ {
        Some((STUD_WIDTH, STUD_WIDTH, (STUD_HEIGHT / 2) as u32))
    } else if name == "B_2x_Cube_Side"@ {
        Some((STUD_WIDTH, STUD_WIDTH, STUD_HEIGHT))
    } else if name == "B_1x1_Brick_Side"@ {
        Some(((STUD_WIDTH / 2) as u32, (STUD_WIDTH / 2) as u32, (STUD_HEIGHT / 2) as u32))
    } else if name == "B_1x4_Brick_Side"@ {
        Some(((STUD_WIDTH * 2) as u32, (STUD_WIDTH / 2) as u32, (STUD_HEIGHT / 2) as u32))
    } else if name == "B_1x2f_Plate_Center"@ {
        Some((STUD_WIDTH, (STUD_WIDTH / 2) as u32, (STUD_HEIGHT / 2) as u32))
    } else if name == "B_2x2f_Plate_Center"@ {
        Some((STUD_WIDTH, STUD_WIDTH, (PLATE_HEIGHT / 2) as u32))
    } else if name == "B_1x2f_Plate_Center_Inv"@ {
        Some((STUD_WIDTH, (STUD_WIDTH / 2) as u32, (STUD_HEIGHT / 2) as u32))
    } else if name == "B_2x2f_Plate_Center_Inv"@ {
        Some((STUD_WIDTH, STUD_WIDTH, (PLATE_HEIGHT / 2) as u32))
    } else if name == "B_1x1F_Round"@ {
        Some(((STUD_WIDTH / 2) as u32, (STUD_WIDTH / 2) as u32, (PLATE_HEIGHT / 2) as u32))
    } else if name == "B_1x1_Round"@ {
        Some(((STUD_WIDTH / 2) as u32, (STUD_WIDTH / 2) as u32, (STUD_HEIGHT / 2) as u32))
    } else if name == "B_2x2F_Round"@ {
        Some((STUD_WIDTH, STUD_WIDTH, (PLATE_HEIGHT / 2) as u32))
    } else if name == "B_2x2_Round"@ {
        Some((STUD_WIDTH, STUD_WIDTH, (STUD_HEIGHT / 2) as u32))
    } else if name == "B_4x4_Round"@ {
        Some(((STUD_WIDTH * 2) as u32, (STUD_WIDTH * 2) as u32, (STUD_HEIGHT / 2) as u32))
    } else {
        None
    }
}

/// The shape family an asset is drawn as.
pub open spec fn family_of(name: Seq<char>) -> Family {
    if name == "B_2x2_Corner"@ {
        Family::Corner
    } else if name == "PB_DefaultSideWedge"@ || name == "PB_DefaultSideWedgeTile"@
        || name == "PB_DefaultMicroWedge"@ {
        Family::SideWedge
    } else if name == "PB_DefaultWedge"@ {
        Family::Wedge
    } else if name == "PB_DefaultRamp"@ {
        Family::Ramp
    } else if name == "PB_DefaultRampCorner"@ {
        Family::RampCorner
    } else if name == "PB_DefaultRampCornerInverted"@ {
        Family::RampCornerInverted
    } else if name == "PB_DefaultRampCrest"@ {
        Family::RampCrest
    } else if name == "PB_DefaultRampCrestEnd"@ {
        Family::RampCrestEnd
    } else if name == "PB_DefaultPole"@ || name == "B_1x1F_Round"@ || name == "B_1x1_Round"@
        || name == "B_2x2F_Round"@ || name == "B_2x2_Round"@ || name == "B_4x4_Round"@ {
        Family::Round
    } else {
        Family::Plain
    }
}

/// Fixed half-extents of a known fixed-mesh asset, or `None`.
pub fn catalog_size_of(name: &str) -> (r: Option<(u32, u32, u32)>)
    ensures
        r == catalog_size(name@),
{
    if str_eq(name, "B_2x2_Corner") {
        Some((STUD_WIDTH, STUD_WIDTH, STUD_HEIGHT / 2))
    } else if str_eq(name, "B_2x_Cube_Side") {
        Some((STUD_WIDTH, STUD_WIDTH, STUD_HEIGHT))
    } else if str_eq(name, "B_1x1_Brick_Side") {
        Some((STUD_WIDTH / 2, STUD_WIDTH / 2, STUD_HEIGHT / 2))
    } else if str_eq(name, "B_1x4_Brick_Side") {
        Some((STUD_WIDTH * 2, STUD_WIDTH / 2, STUD_HEIGHT / 2))
    } else if str_eq(name, "B_1x2f_Plate_Center") {
        Some((STUD_WIDTH, STUD_WIDTH / 2, STUD_HEIGHT / 2))
    } else if str_eq(name, "B_2x2f_Plate_Center") {
        Some((STUD_WIDTH, STUD_WIDTH, PLATE_HEIGHT / 2))
    } else if str_eq(name, "B_1x2f_Plate_Center_Inv") {
        Some((STUD_WIDTH, STUD_WIDTH / 2, STUD_HEIGHT / 2))
    } else if str_eq(name, "B_2x2f_Plate_Center_Inv") {
        Some((STUD_WIDTH, STUD_WIDTH, PLATE_HEIGHT / 2))
    } else if str_eq(name, "B_1x1F_Round") {
        Some((STUD_WIDTH / 2, STUD_WIDTH / 2, PLATE_HEIGHT / 2))
    } else if str_eq(name, "B_1x1_Round") {
        Some((STUD_WIDTH / 2, STUD_WIDTH / 2, STUD_HEIGHT / 2))
    } else if str_eq(name, "B_2x2F_Round") {
        Some((STUD_WIDTH, STUD_WIDTH, PLATE_HEIGHT / 2))
    } else if str_eq(name, "B_2x2_Round") {
        Some((STUD_WIDTH, STUD_WIDTH, STUD_HEIGHT / 2))
    } else if str_eq(name, "B_4x4_Round") {
        Some((STUD_WIDTH * 2, STUD_WIDTH * 2, STUD_HEIGHT / 2))
    } else {
        None
    }
}

/// The shape family of an asset name; unknown names are plain.
pub fn family_of_name(name: &str) -> (f: Family)
    ensures
        f == family_of(name@),
{
    if str_eq(name, "B_2x2_Corner") {
        Family::Corner
    } else if str_eq(name, "PB_DefaultSideWedge") || str_eq(name, "PB_DefaultSideWedgeTile")
        || str_eq(name, "PB_DefaultMicroWedge") {
        Family::SideWedge
    } else if str_eq(name, "PB_DefaultWedge") {
        Family::Wedge
    } else if str_eq(name, "PB_DefaultRamp") {
        Family::Ramp
    } else if str_eq(name, "PB_DefaultRampCorner") {
        Family::RampCorner
    } else if str_eq(name, "PB_DefaultRampCornerInverted") {
        Family::RampCornerInverted
    } else if str_eq(name, "PB_DefaultRampCrest") {
        Family::RampCrest
    } else if str_eq(name, "PB_DefaultRampCrestEnd") {
        Family::RampCrestEnd
    } else if str_eq(name, "PB_DefaultPole") || str_eq(name, "B_1x1F_Round") || str_eq(
        name,
        "B_1x1_Round",
    ) || str_eq(name, "B_2x2F_Round") || str_eq(name, "B_2x2_Round") || str_eq(
        name,
        "B_4x4_Round",
    ) {
        Family::Round
    } else {
        Family::Plain
    }
}

} // verus!
