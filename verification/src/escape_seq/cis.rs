//! CSI escape sequences with plain numbers for their parameters.
//!
//! The sequences are those of [`crate::escape_seq::csi`]; SGR takes the
//! number of the rendition here.

use vstd::prelude::*;
use crate::csi::{push_numbered, sequence};
use crate::text::decimal;

pub use crate::escape_seq::csi::{
    cha, cnl, cpl, cub, cud, cuf, cup, cuu, decscusr, ed, el, rcp, rm, scp, sd, sm, su,
};

verus! {

/// The largest parameter that SGR takes.
pub const SGR_MAX: u32 = 107;

/// SGR: select graphic rendition. `n` is the number of the rendition, at
/// most 107; for a larger `n` nothing is appended.
pub fn sgr(w: &mut String, n: u32)
    ensures
        n <= SGR_MAX ==> final(w)@ == old(w)@ + sequence(decimal(n as nat), 'm'),
        n > SGR_MAX ==> final(w)@ == old(w)@,
{
    if n <= SGR_MAX {
        push_numbered(w, n, 'm');
    }
}

} // verus!
