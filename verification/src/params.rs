//! The gain parameter set: four named, independently adjustable gain
//! controls, one per destination, each reporting a current linear amplitude
//! and a decibel display string. The controls are mutated only by the host's
//! automation and UI layer; the engine merely reads a snapshot of them once
//! per block.

use vstd::prelude::*;

use crate::curve::{
    amp_acc, amp_for_spec, amp_of_cdb_spec, amplitude_for_position, amplitude_of_cdb,
    lemma_acc_mono, level_of_amplitude, ACC_ONE, MAX_AMP_NANO, MAX_CDB, MIN_AMP_NANO, MIN_CDB, POS_UNIT,
};
use crate::NANO;
use crate::db_text::{format_cdb, format_spec, parse_db, parse_spec, DbTextError};

verus! {

/// One gain control: a current linear amplitude in nano units, and the
/// decibel level shown for it, both always inside the curve's range.
pub struct GainControl {
    amp_nano: u64,
    cdb: i32,
}

/// Every parsed value lies in the curve's range, because parsing clamps.
pub proof fn lemma_parse_in_range(s: Seq<char>)
    ensures
        match parse_spec(s) {
            Some(v) => MIN_CDB as int <= v <= MAX_CDB as int,
            None => true,
        },
{
}

/// The displayed level fits the stored amplitude: the amplitude lies, at
/// accumulator precision, no more than one centi-decibel step above or below
/// the level's own conversion value, except where it sits pinned at an end
/// of the curve's range. A display that shows `cdb` to two decimals is then
/// correct for `amp` to the precision it prints.
pub open spec fn level_matches(amp: u64, cdb: i32) -> bool {
    &&& MIN_CDB <= cdb <= MAX_CDB
    &&& (cdb == MAX_CDB || amp == MIN_AMP_NANO || (amp as int) * (ACC_ONE as int) <= amp_acc(
        cdb as int + 1,
    ))
    &&& (cdb == MIN_CDB || amp == MAX_AMP_NANO || amp_acc(cdb as int - 1) <= (amp as int + 1) * (
    ACC_ONE as int))
}

/// The level stored beside a converted amplitude fits it: converting a
/// decibel level and keeping that level as the display satisfies the
/// coupling.
pub proof fn lemma_conversion_level_matches(cdb: i32)
    requires
        MIN_CDB <= cdb <= MAX_CDB,
    ensures
        level_matches(amp_of_cdb_spec(cdb as int) as u64, cdb),
{
    let q = ACC_ONE as int;
    let acc = amp_acc(cdb as int);
    let f = acc / q;
    let a = crate::curve::clamp_amp(f);
    crate::curve::lemma_acc_bounds(cdb as int);
    vstd::arithmetic::div_mod::lemma_div_pos_is_pos(acc, q);
    vstd::arithmetic::div_mod::lemma_fundamental_div_mod(acc, q);
    vstd::arithmetic::div_mod::lemma_remainder_lower(acc, q);
    vstd::arithmetic::div_mod::lemma_remainder_upper(acc, q);
    if cdb < MAX_CDB {
        lemma_acc_mono(cdb as int, cdb as int + 1);
        if a != MIN_AMP_NANO as int {
            // Either the floor division value itself, or the ceiling clamp
            // below it: both sit at or under the level's own accumulator.
            assert(a * q <= f * q) by (nonlinear_arith)
                requires a <= f && q > 0;
            assert(f * q <= acc);
        }
    }
    if cdb > MIN_CDB {
        lemma_acc_mono(cdb as int - 1, cdb as int);
        if a != MAX_AMP_NANO as int {
            assert((f + 1) * q <= (a + 1) * q) by (nonlinear_arith)
                requires f <= a && q > 0;
            assert(acc < (f + 1) * q);
        }
    }
}

impl GainControl {
    /// The current linear amplitude, in nano units.
    pub closed spec fn amp_spec(&self) -> u64 {
        self.amp_nano
    }

    /// The decibel level shown for the control, in centi-decibels.
    pub closed spec fn cdb_spec(&self) -> i32 {
        self.cdb
    }

    /// Both stored values lie inside the curve's range, and the displayed
    /// level fits the stored amplitude.
    pub open spec fn wf(&self) -> bool {
        MIN_AMP_NANO <= self.amp_spec() <= MAX_AMP_NANO && MIN_CDB <= self.cdb_spec() <= MAX_CDB
            && level_matches(self.amp_spec(), self.cdb_spec())
    }

    /// A control at unity gain, the 0 dB default: one, exactly, in nano
    /// units.
    pub fn new_unity() -> (r: Self)
        ensures
            r.wf(),
            r.cdb_spec() == 0,
            r.amp_spec() == NANO,
            r.amp_spec() == amp_of_cdb_spec(0),
    {
        proof {
            lemma_conversion_level_matches(0);
        }
        GainControl { amp_nano: amplitude_of_cdb(0), cdb: 0 }
    }

    /// The current linear amplitude, in nano units.
    pub fn amplitude(&self) -> (r: u64)
        ensures
            r == self.amp_spec(),
    {
        self.amp_nano
    }

    /// The decibel level shown for the control, in centi-decibels.
    pub fn decibel_value(&self) -> (r: i32)
        ensures
            r == self.cdb_spec(),
    {
        self.cdb
    }

    /// Moves the control to normalized position `n` (a per-million fraction
    /// of the knob travel): the amplitude follows the skewed curve, and the
    /// displayed level is the decibel bracket of that amplitude, so the
    /// display always fits what the engine will apply.
    pub fn set_normalized(&mut self, n: u32)
        requires
            n <= POS_UNIT,
        ensures
            final(self).amp_spec() == amp_for_spec(n as int),
            amp_acc(final(self).cdb_spec() as int) <= (final(self).amp_spec() as int) * (
            ACC_ONE as int) || final(self).cdb_spec() == MIN_CDB,
            final(self).cdb_spec() == MAX_CDB || (final(self).amp_spec() as int) * (
            ACC_ONE as int) < amp_acc(final(self).cdb_spec() as int + 1),
            final(self).wf(),
    {
        let amp = amplitude_for_position(n);
        let cdb = level_of_amplitude(amp);
        proof {
            if cdb > MIN_CDB {
                lemma_acc_mono(cdb as int - 1, cdb as int);
                assert((amp as int) * (ACC_ONE as int) <= (amp as int + 1) * (ACC_ONE as int))
                    by (nonlinear_arith)
                    requires ACC_ONE as int > 0;
            }
        }
        self.amp_nano = amp;
        self.cdb = cdb;
    }

    /// Sets the control from user-entered decibel text, clamped to the
    /// curve's range. Text that does not parse is rejected and the control
    /// keeps its previous value.
    pub fn set_from_text(&mut self, s: &str) -> (r: Result<(), DbTextError>)
        ensures
            match parse_spec(s@) {
                Some(v) => r == Ok::<(), DbTextError>(()) && final(self).cdb_spec() == v
                    && final(self).amp_spec() == amp_of_cdb_spec(v) && final(self).wf(),
                None => r == Err::<(), DbTextError>(DbTextError::InvalidInput) && *final(self)
                    == *old(self),
            },
    {
        proof {
            lemma_parse_in_range(s@);
        }
        match parse_db(s) {
            Ok(cdb) => {
                proof {
                    lemma_conversion_level_matches(cdb);
                }
                self.cdb = cdb;
                self.amp_nano = amplitude_of_cdb(cdb);
                Ok(())
            },
            Err(e) => Err(e),
        }
    }

    /// The decibel display string of the control, such as `"-24.00 dB"`.
    pub fn display(&self) -> (r: String)
        requires
            self.wf(),
        ensures
            r@ == format_spec(self.cdb_spec() as int),
    {
        format_cdb(self.cdb)
    }
}

/// The stable label of destination `d`, the key under which the host
/// identifies and displays its gain parameter.
pub fn destination_label(d: usize) -> (r: &'static str)
    requires
        d < 4,
    ensures
        d == 0 ==> r@ == "FOH"@,
        d == 1 ==> r@ == "Axel"@,
        d == 2 ==> r@ == "Sebi"@,
        d == 3 ==> r@ == "Volki"@,
{
    if d == 0 {
        "FOH"
    } else if d == 1 {
        "Axel"
    } else if d == 2 {
        "Sebi"
    } else {
        "Volki"
    }
}

/// The four gain controls, one per destination, in the order the destinations
/// are laid out: front of house first, then the three personal monitors.
pub struct GainParams {
    pub foh: GainControl,
    pub axel: GainControl,
    pub sebi: GainControl,
    pub volki: GainControl,
}

/// The per-destination amplitudes read once at the start of a block; every
/// sample of the block is scaled with these values, whatever the controls do
/// in the meantime.
#[derive(Clone, Copy, PartialEq, Eq, Structural, Debug)]
pub struct GainSnapshot {
    pub foh: u64,
    pub axel: u64,
    pub sebi: u64,
    pub volki: u64,
}

impl GainParams {
    /// All four controls are inside the curve's range.
    pub open spec fn wf(&self) -> bool {
        self.foh.wf() && self.axel.wf() && self.sebi.wf() && self.volki.wf()
    }

    /// The amplitudes a snapshot of these controls carries.
    pub open spec fn snapshot_spec(&self) -> GainSnapshot {
        GainSnapshot {
            foh: self.foh.amp_spec(),
            axel: self.axel.amp_spec(),
            sebi: self.sebi.amp_spec(),
            volki: self.volki.amp_spec(),
        }
    }

    /// All four snapshot amplitudes are inside the curve's range.
    pub open spec fn snapshot_wf(s: GainSnapshot) -> bool {
        MIN_AMP_NANO <= s.foh <= MAX_AMP_NANO && MIN_AMP_NANO <= s.axel <= MAX_AMP_NANO
            && MIN_AMP_NANO <= s.sebi <= MAX_AMP_NANO && MIN_AMP_NANO <= s.volki <= MAX_AMP_NANO
    }

    /// Four controls at unity gain, the construction-time default.
    pub fn new_unity() -> (r: Self)
        ensures
            r.wf(),
            r.foh.cdb_spec() == 0 && r.axel.cdb_spec() == 0 && r.sebi.cdb_spec() == 0
                && r.volki.cdb_spec() == 0,
            r.foh.amp_spec() == NANO && r.axel.amp_spec() == NANO && r.sebi.amp_spec() == NANO
                && r.volki.amp_spec() == NANO,
    {
        GainParams {
            foh: GainControl::new_unity(),
            axel: GainControl::new_unity(),
            sebi: GainControl::new_unity(),
            volki: GainControl::new_unity(),
        }
    }

    /// Reads the four current amplitudes once, at the start of a block.
    pub fn snapshot(&self) -> (r: GainSnapshot)
        ensures
            r == self.snapshot_spec(),
            self.wf() ==> Self::snapshot_wf(r),
    {
        GainSnapshot {
            foh: self.foh.amplitude(),
            axel: self.axel.amplitude(),
            sebi: self.sebi.amplitude(),
            volki: self.volki.amplitude(),
        }
    }
}

impl Default for GainParams {
    /// The default parameter set: every send at unity gain, exactly.
    fn default() -> (r: Self)
        ensures
            r.wf(),
            r.foh.cdb_spec() == 0 && r.axel.cdb_spec() == 0 && r.sebi.cdb_spec() == 0
                && r.volki.cdb_spec() == 0,
            r.foh.amp_spec() == NANO && r.axel.amp_spec() == NANO && r.sebi.amp_spec() == NANO
                && r.volki.amp_spec() == NANO,
    {
        GainParams::new_unity()
    }
}

} // verus!
