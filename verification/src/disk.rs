//! The disk-usage widget's arithmetic: sizes of a mounted filesystem from
//! the raw block counts a filesystem-statistics call reports. Making that
//! call is the caller's concern; the counts arrive here as plain values.

use vstd::prelude::*;

use crate::digits::dec_seq;
use crate::digits::u128_to_string;

verus! {

/// Sizes of one mounted filesystem, in bytes.
#[derive(Clone, Copy, PartialEq, Eq, Structural, Debug)]
pub struct DiskInfo {
    /// Total size of the filesystem.
    pub total: u128,
    /// Space in use.
    pub used: u128,
    /// Space available to unprivileged users.
    pub free: u128,
}

impl DiskInfo {
    /// Sizes from the raw statistics: block counts scaled by the fragment
    /// size.
    pub fn new(blocks: u64, blocks_free: u64, blocks_available: u64, fragment_size: u64) -> (r:
        DiskInfo)
        requires
            blocks_free <= blocks,
        ensures
            r.total == blocks as int * fragment_size as int,
            r.used == (blocks - blocks_free) * fragment_size as int,
            r.free == blocks_available as int * fragment_size as int,
    {
        proof {
            assert((blocks as int) * (fragment_size as int) < 0x100000000000000000000000000000000int)
                by (nonlinear_arith)
                requires
                    blocks <= 0xffffffffffffffffu64,
                    fragment_size <= 0xffffffffffffffffu64,
            ;
            assert(((blocks - blocks_free) as int) * (fragment_size as int) <= (blocks as int) * (
            fragment_size as int)) by (nonlinear_arith)
                requires
                    0 <= blocks_free <= blocks,
            ;
            assert((blocks_available as int) * (fragment_size as int)
                < 0x100000000000000000000000000000000int) by (nonlinear_arith)
                requires
                    blocks_available <= 0xffffffffffffffffu64,
                    fragment_size <= 0xffffffffffffffffu64,
            ;
        }
        let total = (blocks as u128) * (fragment_size as u128);
        let used = ((blocks - blocks_free) as u128) * (fragment_size as u128);
        let free = (blocks_available as u128) * (fragment_size as u128);
        DiskInfo { total, used, free }
    }
}

/// A byte count as the nearest whole number of gibibytes.
pub open spec fn gib_of(bytes: nat) -> nat {
    (bytes + 536870912) / 1073741824
}

/// The text [`default_render`] produces.
pub open spec fn disk_render_view(info: DiskInfo) -> Seq<char> {
    "Disk: "@ + dec_seq(gib_of(info.used as nat)) + " GiB/"@ + dec_seq(gib_of(info.total as nat))
        + " GiB"@
}

/// The default rendering of a filesystem's sizes: used and total space in
/// whole gibibytes.
pub fn default_render(info: DiskInfo) -> (r: String)
    ensures
        r@ =~= disk_render_view(info),
{
    let mut s = "Disk: ".to_owned();
    let used = u128_to_string(info.used / 1073741824 + (if info.used % 1073741824 >= 536870912 {
        1
    } else {
        0
    }));
    proof {
        assert(info.used as nat / 1073741824 + (if info.used as nat % 1073741824 >= 536870912 {
            1nat
        } else {
            0nat
        }) == gib_of(info.used as nat));
    }
    s.append(used.as_str());
    s.append(" GiB/");
    let total = u128_to_string(
        info.total / 1073741824 + (if info.total % 1073741824 >= 536870912 {
            1
        } else {
            0
        }),
    );
    proof {
        assert(info.total as nat / 1073741824 + (if info.total as nat % 1073741824 >= 536870912 {
            1nat
        } else {
            0nat
        }) == gib_of(info.total as nat));
    }
    s.append(total.as_str());
    s.append(" GiB");
    s
}

} // verus!
