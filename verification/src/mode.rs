//! POSIX-style permission mode carried by `mkdir` and `chmod`.
//!
//! A mode is kept as its three permission classes so that contracts can
//! speak of each class directly; the engine receives the packed native
//! `mode_t` value produced by [`SmbMode::to_native`].

use vstd::prelude::*;

verus! {

/// Permission mode split into its user, group and other classes.
///
/// Each class holds the three `rwx` bits, so a well-formed class value is
/// below 8.
#[derive(Clone, Copy, Debug, PartialEq, Eq, Structural)]
pub struct SmbMode {
    /// Permission bits of the owning user (`rwx`, values 0 through 7).
    pub user: u8,
    /// Permission bits of the owning group.
    pub group: u8,
    /// Permission bits of everyone else.
    pub other: u8,
}

impl SmbMode {
    /// Every class holds only its three permission bits.
    pub open spec fn wf(self) -> bool {
        self.user < 8 && self.group < 8 && self.other < 8
    }

    /// The packed native value: user bits in positions 8..6, group bits in
    /// 5..3, other bits in 2..0.
    pub open spec fn spec_to_native(self) -> int {
        (self.user as u32) * 64 + (self.group as u32) * 8 + (self.other as u32)
    }

    /// The mode denoted by the low nine bits of a packed native value.
    pub open spec fn spec_from_native(bits: u32) -> SmbMode {
        SmbMode {
            user: (((bits / 64) % 8) as u8),
            group: (((bits / 8) % 8) as u8),
            other: ((bits % 8) as u8),
        }
    }

    /// Pack the three classes into the native `mode_t` representation.
    pub fn to_native(&self) -> (r: u32)
        requires
            self.wf(),
        ensures
            r == self.spec_to_native(),
            r <= 0o777,
    {
        (self.user as u32) * 64 + (self.group as u32) * 8 + (self.other as u32)
    }
}

impl From<u32> for SmbMode {
    /// Split the low nine bits of a packed native value into the three
    /// permission classes; higher bits (file-type bits of a stat mode) are
    /// discarded.
    fn from(bits: u32) -> (r: SmbMode) {
        let user: u8 = ((bits >> 6) & 7) as u8;
        let group: u8 = ((bits >> 3) & 7) as u8;
        let other: u8 = (bits & 7) as u8;
        proof {
            assert(user == ((bits / 64) % 8) && group == ((bits / 8) % 8) && other == (bits % 8))
                by (bit_vector)
                requires
                    user == ((bits >> 6u32) & 7) as u8 && group == ((bits >> 3u32) & 7) as u8
                        && other == (bits & 7) as u8,
            ;
        }
        SmbMode { user, group, other }
    }
}

impl vstd::std_specs::convert::FromSpecImpl<u32> for SmbMode {
    open spec fn obeys_from_spec() -> bool {
        true
    }

    open spec fn from_spec(bits: u32) -> SmbMode {
        SmbMode::spec_from_native(bits)
    }
}

/// A mode built from nine permission bits is well formed, and packing it
/// again restores exactly those nine bits: the native round trip loses
/// nothing below the file-type bits.
pub proof fn lemma_mode_native_round_trip(bits: u32)
    ensures
        SmbMode::spec_from_native(bits).wf(),
        SmbMode::spec_from_native(bits).spec_to_native() == bits % 0o1000,
{
    let m = SmbMode::spec_from_native(bits);
    assert(((bits / 64) % 8) < 8 && ((bits / 8) % 8) < 8 && (bits % 8) < 8) by (nonlinear_arith);
    assert(((bits / 64) % 8) * 64 + ((bits / 8) % 8) * 8 + (bits % 8) == bits % 512)
        by (nonlinear_arith);
}

} // verus!
