//! A flaring air column with bore radius `r1 + r2*x + r3*x*x`.

use crate::models;
use crate::single::Single;
use vstd::prelude::*;

verus! {

/// How the keyboard drives the horn.
#[derive(Clone, Copy, Debug, PartialEq, Eq, Structural)]
pub enum PlayMode {
    /// The bore is resized so that its fundamental lands on the key.
    Chromatic,
    /// A fixed tube: the key selects the nearest natural resonance.
    Overblow,
    /// Overblow to a harmonic near the key, then tune the bore onto the key.
    OverblowTracked,
}

/// Wavefront geometry used to build the horn potential.
#[derive(Clone, Copy, Debug, PartialEq, Eq, Structural)]
pub enum Wavefront {
    /// Flat discs.
    Planar,
    /// Curved spherical caps.
    Spherical,
}

/// Boundary conditions at the two ends of the bore.
#[derive(Clone, Copy, Debug, PartialEq, Eq, Structural)]
pub enum Boundary {
    /// Open at both ends.
    Open,
    /// A closed mouthpiece and an open bell.
    Brass,
}

/// A flaring air column with bore radius `r1 + r2*x + r3*x*x`.
#[derive(Clone, Copy, Debug, PartialEq, Eq, Structural)]
pub struct WebsterHorn {
    /// Throat radius.
    pub r1: Single,
    /// Taper.
    pub r2: Single,
    /// Flare.
    pub r3: Single,
    /// Column length.
    pub length: Single,
    /// Wave speed, metres per second.
    pub wave_speed: Single,
    /// Excitation point, throat to bell.
    pub blow_pos: Single,
    /// Modes summed.
    pub depth: usize,
    /// Grid resolution of the eigensolve.
    pub resolution: usize,
    /// Uniform damping.
    pub damping: Single,
    /// Frequency-dependent damping.
    pub freq_dep_damping: Single,
    /// Viscothermal wall loss.
    pub visco_loss: Single,
    /// Radiation loss at the bell.
    pub radiation: Single,
    /// Ticks per damping period.
    pub damp_period: Single,
    /// Blow magnitude below which nothing sounds.
    pub play_magnitude: Single,
    /// Blow magnitude at full level.
    pub max_magnitude: Single,
    /// Whether the key sets the pitch.
    pub key_tracks_pitch: bool,
    /// End conditions.
    pub boundary: Boundary,
    /// Wavefront geometry.
    pub wavefront: Wavefront,
    /// How the keyboard drives the horn.
    pub play_mode: PlayMode,
    /// Semitones of valve tubing.
    pub valve_steps: u32,
    /// Fundamental of the longest bore, Hz.
    pub overblow_anchor_hz: Single,
    /// Whether overblown notes are nudged into tune.
    pub overblow_microtune: bool,
}

/// The settings a fresh WebsterHorn starts with.
pub open spec fn webster_horn_defaults() -> WebsterHorn {
    WebsterHorn {
        r1: Single { bits: 0x3F80_0000 },  // 1.0
        r2: Single { bits: 0x0000_0000 },  // 0.0
        r3: Single { bits: 0x4040_0000 },  // 3.0
        length: Single { bits: 0x3F80_0000 },  // 1.0
        wave_speed: Single { bits: 0x43AB_8000 },  // 343.0
        blow_pos: Single { bits: 0x3DF5_C28F },  // 0.12
        depth: 24,
        resolution: 80,
        damping: Single { bits: 0x4000_0000 },  // 2.0
        freq_dep_damping: Single { bits: 0xBD4C_CCCD },  // -0.05
        visco_loss: Single { bits: 0x0000_0000 },  // 0.0
        radiation: Single { bits: 0x0000_0000 },  // 0.0
        damp_period: Single { bits: 0x42C8_0000 },  // 100.0
        play_magnitude: Single { bits: 0x0000_0000 },  // 0.0
        max_magnitude: Single { bits: 0x451C_4000 },  // 2500.0
        key_tracks_pitch: true,
        boundary: Boundary::Open,
        wavefront: Wavefront::Planar,
        play_mode: PlayMode::Chromatic,
        valve_steps: 6,
        overblow_anchor_hz: Single { bits: 0x42A4_D1EC },  // 82.41
        overblow_microtune: true,
    }
}

impl Default for WebsterHorn {
    fn default() -> (r: Self)
        ensures
            r == webster_horn_defaults(),
    {
        WebsterHorn {
            r1: Single { bits: 0x3F80_0000 },  // 1.0
            r2: Single { bits: 0x0000_0000 },  // 0.0
            r3: Single { bits: 0x4040_0000 },  // 3.0
            length: Single { bits: 0x3F80_0000 },  // 1.0
            wave_speed: Single { bits: 0x43AB_8000 },  // 343.0
            blow_pos: Single { bits: 0x3DF5_C28F },  // 0.12
            depth: 24,
            resolution: 80,
            damping: Single { bits: 0x4000_0000 },  // 2.0
            freq_dep_damping: Single { bits: 0xBD4C_CCCD },  // -0.05
            visco_loss: Single { bits: 0x0000_0000 },  // 0.0
            radiation: Single { bits: 0x0000_0000 },  // 0.0
            damp_period: Single { bits: 0x42C8_0000 },  // 100.0
            play_magnitude: Single { bits: 0x0000_0000 },  // 0.0
            max_magnitude: Single { bits: 0x451C_4000 },  // 2500.0
            key_tracks_pitch: true,
            boundary: Boundary::Open,
            wavefront: Wavefront::Planar,
            play_mode: PlayMode::Chromatic,
            valve_steps: 6,
            overblow_anchor_hz: Single { bits: 0x42A4_D1EC },  // 82.41
            overblow_microtune: true,
        }
    }
}

/// The wavefront of a horn stored without one.
pub fn default_wavefront() -> (r: Wavefront)
    ensures
        r == Wavefront::Planar,
{
    Wavefront::Planar
}

/// How a horn stored without a way of playing is played.
pub fn default_playmode() -> (r: PlayMode)
    ensures
        r == PlayMode::Chromatic,
{
    PlayMode::Chromatic
}

/// The grid on which the modes of a horn are solved.
#[derive(Clone, Copy, Debug, PartialEq, Eq, Structural)]
pub struct Grid {
    /// How many steps the bore is cut into.
    pub steps: usize,
    /// How many grid points are unknown.
    pub unknowns: usize,
    /// The first unknown point. The bell is always known; an open throat is too.
    pub first: usize,
}

impl WebsterHorn {
    /// The grid: from 16 to 512 steps, of which a closed throat adds a point.
    pub open spec fn grid_of(self) -> Grid {
        let n: usize = if self.resolution < 16 {
            16
        } else if self.resolution > 512 {
            512
        } else {
            self.resolution
        };
        match self.boundary {
            Boundary::Brass => Grid { steps: n, unknowns: n, first: 0 },
            Boundary::Open => Grid { steps: n, unknowns: (n - 1) as usize, first: 1 },
        }
    }

    /// The grid on which the modes are solved.
    pub fn grid(&self) -> (r: Grid)
        ensures
            r == self.grid_of(),
    {
        let n: usize = if self.resolution < 16 {
            16
        } else if self.resolution > 512 {
            512
        } else {
            self.resolution
        };
        match self.boundary {
            Boundary::Brass => Grid { steps: n, unknowns: n, first: 0 },
            Boundary::Open => Grid { steps: n, unknowns: n - 1, first: 1 },
        }
    }

    /// The unknown that a point of the grid is nearest to.
    pub open spec fn unknown_at(self, point: int) -> int {
        let g = self.grid_of();
        if point - g.first < 0 {
            0
        } else if point - g.first > g.unknowns - 1 {
            g.unknowns - 1
        } else {
            point - g.first
        }
    }

    /// The unknown at which the horn is blown, given the grid point nearest to the
    /// blowing point.
    pub fn blown_at(&self, point: usize) -> (r: usize)
        ensures
            r == self.unknown_at(point as int),
            r < self.grid_of().unknowns,
    {
        let g = self.grid();
        if point < g.first {
            0
        } else if point - g.first > g.unknowns - 1 {
            g.unknowns - 1
        } else {
            point - g.first
        }
    }

    /// How many of `found` propagating modes are kept: as many as are asked for, but a
    /// grid resolves only the lowest third of its own.
    pub open spec fn modes_kept(self, found: int) -> int {
        let asked = models::modes_summed(self.depth) as int;
        let resolved = (self.grid_of().steps / 3) as int;
        if asked <= found && asked <= resolved {
            asked
        } else if found <= resolved {
            found
        } else {
            resolved
        }
    }

    /// How many of `found` propagating modes are kept.
    pub fn kept_modes(&self, found: usize) -> (r: usize)
        ensures
            r == self.modes_kept(found as int),
    {
        let asked: usize = models::mode_count(self.depth);
        let resolved: usize = self.grid().steps / 3;
        if asked <= found && asked <= resolved {
            asked
        } else if found <= resolved {
            found
        } else {
            resolved
        }
    }
}

/// A horn with any modes at all keeps some, and never more than its grid resolves or a
/// voice holds.
pub proof fn kept_modes_are_sound(h: WebsterHorn, found: int)
    requires
        found >= 1,
    ensures
        1 <= h.modes_kept(found) <= found,
        h.modes_kept(found) <= models::MAX_MODES,
        3 * h.modes_kept(found) <= h.grid_of().steps,
{
}

/// The grid has the resolution asked for, kept between 16 and 512 steps. A closed throat
/// leaves one unknown for each step, from the throat on; an open one, being known, one
/// fewer.
pub proof fn grids_follow_the_resolution(h: WebsterHorn)
    ensures
        16 <= h.resolution <= 512 ==> h.grid_of().steps == h.resolution,
        h.resolution < 16 ==> h.grid_of().steps == 16,
        h.resolution > 512 ==> h.grid_of().steps == 512,
        h.boundary == Boundary::Brass ==> h.grid_of().unknowns == h.grid_of().steps
            && h.grid_of().first == 0,
        h.boundary == Boundary::Open ==> h.grid_of().unknowns + 1 == h.grid_of().steps
            && h.grid_of().first == 1,
        h.grid_of().first + h.grid_of().unknowns == h.grid_of().steps,
{
}

/// A horn is blown at the unknown of the point where it is blown, or at the nearest one.
pub proof fn horns_are_blown_where_they_are_asked(h: WebsterHorn, point: int)
    ensures
        h.grid_of().first <= point < h.grid_of().steps ==> h.unknown_at(point)
            + h.grid_of().first == point,
        point < h.grid_of().first ==> h.unknown_at(point) == 0,
        point >= h.grid_of().steps ==> h.unknown_at(point) == h.grid_of().unknowns - 1,
{
}

/// As many modes are kept as are asked for, if so many are found and resolved.
pub proof fn modes_are_kept_as_asked(h: WebsterHorn, found: int)
    requires
        found >= 0,
    ensures
        1 <= h.depth <= models::MAX_MODES && h.depth <= found && 3 * h.depth <= h.grid_of().steps
            ==> h.modes_kept(found) == h.depth,
        h.modes_kept(found) == found || h.modes_kept(found) == h.grid_of().steps / 3
            || h.modes_kept(found) == models::modes_summed(h.depth),
        h.modes_kept(found) <= found,
        h.modes_kept(found) <= models::modes_summed(h.depth),
{
}

/// The settings to start with are these decimals.
pub proof fn webster_horn_starts_at()
    ensures
        webster_horn_defaults().r1 == crate::decimal::decimal(1_0000),
        webster_horn_defaults().r2.bits == 0,
        webster_horn_defaults().r3 == crate::decimal::decimal(3_0000),
        webster_horn_defaults().length == crate::decimal::decimal(1_0000),
        webster_horn_defaults().wave_speed == crate::decimal::decimal(343_0000),
        webster_horn_defaults().blow_pos == crate::decimal::decimal(0_1200),
        webster_horn_defaults().damping == crate::decimal::decimal(2_0000),
        webster_horn_defaults().freq_dep_damping == crate::decimal::minus(0_0500),
        webster_horn_defaults().visco_loss.bits == 0,
        webster_horn_defaults().radiation.bits == 0,
        webster_horn_defaults().damp_period == crate::decimal::decimal(100_0000),
        webster_horn_defaults().play_magnitude.bits == 0,
        webster_horn_defaults().max_magnitude == crate::decimal::decimal(2500_0000),
        webster_horn_defaults().overblow_anchor_hz == crate::decimal::decimal(82_4100),
        webster_horn_defaults().depth == 24,
        webster_horn_defaults().resolution == 80,
        webster_horn_defaults().key_tracks_pitch,
        webster_horn_defaults().boundary == Boundary::Open,
        webster_horn_defaults().wavefront == Wavefront::Planar,
        webster_horn_defaults().play_mode == PlayMode::Chromatic,
        webster_horn_defaults().valve_steps == 6,
        webster_horn_defaults().overblow_microtune,
{
    vstd::arithmetic::power2::lemma2_to64();
    vstd::arithmetic::power2::lemma2_to64_rest();
    crate::decimal::decimal_is(1_0000, 23, 0x800000, 0x800000);
    crate::decimal::decimal_is(3_0000, 22, 0x400000, 0xC00000);
    crate::decimal::decimal_is(343_0000, 15, 0x8000, 0xAB8000);
    crate::decimal::decimal_is(0_1200, 27, 0x8000000, 0xF5C28F);
    crate::decimal::decimal_is(2_0000, 22, 0x400000, 0x800000);
    crate::decimal::decimal_is(0_0500, 28, 0x10000000, 0xCCCCCD);
    crate::decimal::decimal_is(100_0000, 17, 0x20000, 0xC80000);
    crate::decimal::decimal_is(2500_0000, 12, 0x1000, 0x9C4000);
    crate::decimal::decimal_is(82_4100, 17, 0x20000, 0xA4D1EC);
}

} // verus!
