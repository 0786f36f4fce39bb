//! The tone-mapping operators the viewer can apply, the order in which a key press
//! cycles through them, and the names and codes under which they are shown and sent
//! to the shader.
use vstd::prelude::*;

verus! {

/// Number of tone-mapping modes.
pub const TONE_MAP_MODE_COUNT: u32 = 6;

/// A tone-mapping operator applied to the image before display.
#[derive(Clone, Copy, Debug, PartialEq, Eq, Structural)]
pub enum ToneMapMode {
    Off,
    Aces,
    RenoAces,
    GranTurismo7,
    Reinhard,
    Neutwo,
}

/// The mode with code `code`; codes past the last mode fall back to `Off`.
pub open spec fn mode_with_code(code: int) -> ToneMapMode {
    if code == 0 {
        ToneMapMode::Off
    } else if code == 1 {
        ToneMapMode::Aces
    } else if code == 2 {
        ToneMapMode::RenoAces
    } else if code == 3 {
        ToneMapMode::GranTurismo7
    } else if code == 4 {
        ToneMapMode::Reinhard
    } else if code == 5 {
        ToneMapMode::Neutwo
    } else {
        ToneMapMode::Off
    }
}

impl ToneMapMode {
    /// The code by which the shader tells the modes apart (0 to 5, in declaration order).
    pub open spec fn code(self) -> u32 {
        match self {
            ToneMapMode::Off => 0,
            ToneMapMode::Aces => 1,
            ToneMapMode::RenoAces => 2,
            ToneMapMode::GranTurismo7 => 3,
            ToneMapMode::Reinhard => 4,
            ToneMapMode::Neutwo => 5,
        }
    }

    /// The mode after this one in the cycle: the one with the next code, wrapping
    /// from the last back to `Off`.
    pub open spec fn following(self) -> ToneMapMode {
        mode_with_code((self.code() + 1) % (TONE_MAP_MODE_COUNT as int))
    }

    /// `self` advanced `n` times through the cycle.
    pub open spec fn advanced(self, n: nat) -> ToneMapMode
        decreases n,
    {
        if n == 0 {
            self
        } else {
            self.advanced((n - 1) as nat).following()
        }
    }

    /// The lower-case name of the mode.
    pub open spec fn name(self) -> Seq<char> {
        match self {
            ToneMapMode::Off => "off"@,
            ToneMapMode::Aces => "aces"@,
            ToneMapMode::RenoAces => "reno-aces"@,
            ToneMapMode::GranTurismo7 => "gt7"@,
            ToneMapMode::Reinhard => "reinhard"@,
            ToneMapMode::Neutwo => "neutwo"@,
        }
    }

    /// The short upper-case tag the on-screen overlay shows for the mode.
    pub open spec fn tag(self) -> Seq<char> {
        match self {
            ToneMapMode::Off => "OFF"@,
            ToneMapMode::Aces => "ACES"@,
            ToneMapMode::RenoAces => "RENO-ACES"@,
            ToneMapMode::GranTurismo7 => "GT7"@,
            ToneMapMode::Reinhard => "RH"@,
            ToneMapMode::Neutwo => "NEU"@,
        }
    }

    /// The lower-case name of the mode.
    pub fn label(self) -> (s: &'static str)
        ensures
            s@ == self.name(),
    {
        match self {
            ToneMapMode::Off => "off",
            ToneMapMode::Aces => "aces",
            ToneMapMode::RenoAces => "reno-aces",
            ToneMapMode::GranTurismo7 => "gt7",
            ToneMapMode::Reinhard => "reinhard",
            ToneMapMode::Neutwo => "neutwo",
        }
    }

    /// The short upper-case tag the on-screen overlay shows for the mode.
    pub fn overlay_tag(self) -> (s: &'static str)
        ensures
            s@ == self.tag(),
    {
        match self {
            ToneMapMode::Off => "OFF",
            ToneMapMode::Aces => "ACES",
            ToneMapMode::RenoAces => "RENO-ACES",
            ToneMapMode::GranTurismo7 => "GT7",
            ToneMapMode::Reinhard => "RH",
            ToneMapMode::Neutwo => "NEU",
        }
    }

    /// The next mode in the cycle Off, ACES, Reno-ACES, GT7, Reinhard, Neutwo, Off, ...
    pub fn next(self) -> (m: Self)
        ensures
            m == self.following(),
    {
        match self {
            ToneMapMode::Off => ToneMapMode::Aces,
            ToneMapMode::Aces => ToneMapMode::RenoAces,
            ToneMapMode::RenoAces => ToneMapMode::GranTurismo7,
            ToneMapMode::GranTurismo7 => ToneMapMode::Reinhard,
            ToneMapMode::Reinhard => ToneMapMode::Neutwo,
            ToneMapMode::Neutwo => ToneMapMode::Off,
        }
    }

    /// The code the shader receives for the mode.
    pub fn shader_code(self) -> (c: u32)
        ensures
            c == self.code(),
    {
        match self {
            ToneMapMode::Off => 0,
            ToneMapMode::Aces => 1,
            ToneMapMode::RenoAces => 2,
            ToneMapMode::GranTurismo7 => 3,
            ToneMapMode::Reinhard => 4,
            ToneMapMode::Neutwo => 5,
        }
    }
}

/// Codes tell the modes apart: every mode has a code below the mode count, and the
/// mode with that code is the mode itself.
pub proof fn lemma_code_roundtrip(m: ToneMapMode)
    ensures
        m.code() < TONE_MAP_MODE_COUNT,
        mode_with_code(m.code() as int) == m,
{
}

/// Advancing moves the code forward: `n` steps from `m` reach the mode whose code is
/// `m`'s code plus `n`, modulo the mode count.
pub proof fn lemma_advanced_code(m: ToneMapMode, n: nat)
    ensures
        m.advanced(n).code() == (m.code() + n) % (TONE_MAP_MODE_COUNT as int),
    decreases n,
{
    if n > 0 {
        lemma_advanced_code(m, (n - 1) as nat);
        let k = (m.code() + n - 1) % 6;
        assert(m.advanced((n - 1) as nat).code() == k);
        vstd::arithmetic::div_mod::lemma_add_mod_noop(m.code() + n - 1, 1, 6);
        vstd::arithmetic::div_mod::lemma_mod_self_0(6);
    }
}

/// Pressing the cycle key six times brings back the mode one started from, and fewer
/// presses never do: the cycle visits every mode once.
pub proof fn lemma_cycle_period(m: ToneMapMode, n: nat)
    requires
        0 < n < TONE_MAP_MODE_COUNT,
    ensures
        m.advanced(TONE_MAP_MODE_COUNT as nat) == m,
        m.advanced(n) != m,
{
    lemma_advanced_code(m, TONE_MAP_MODE_COUNT as nat);
    lemma_advanced_code(m, n);
    lemma_code_roundtrip(m);
    lemma_code_roundtrip(m.advanced(TONE_MAP_MODE_COUNT as nat));
    lemma_code_roundtrip(m.advanced(n));
}

/// Every mode is reached from `Off` by some number of presses below the mode count.
pub proof fn lemma_cycle_covers_all(m: ToneMapMode)
    ensures
        ToneMapMode::Off.advanced(m.code() as nat) == m,
{
    lemma_advanced_code(ToneMapMode::Off, m.code() as nat);
    lemma_code_roundtrip(m);
    lemma_code_roundtrip(ToneMapMode::Off.advanced(m.code() as nat));
}

/// Distinct modes have distinct successors: cycling never merges two modes.
pub proof fn lemma_following_injective(a: ToneMapMode, b: ToneMapMode)
    requires
        a.following() == b.following(),
    ensures
        a == b,
{
}

/// Distinct modes have distinct names and distinct overlay tags.
pub proof fn lemma_names_distinct(a: ToneMapMode, b: ToneMapMode)
    requires
        a != b,
    ensures
        a.name() != b.name(),
        a.tag() != b.tag(),
{
    reveal_strlit("off");
    reveal_strlit("aces");
    reveal_strlit("reno-aces");
    reveal_strlit("gt7");
    reveal_strlit("reinhard");
    reveal_strlit("neutwo");
    reveal_strlit("OFF");
    reveal_strlit("ACES");
    reveal_strlit("RENO-ACES");
    reveal_strlit("GT7");
    reveal_strlit("RH");
    reveal_strlit("NEU");
    assert(a.name().len() != b.name().len() || a.name()[0] != b.name()[0] || a.name()[1] != b.name()[1]);
    assert(a.tag().len() != b.tag().len() || a.tag()[0] != b.tag()[0]);
}

/// The cycle and the codes in full: Off (0), ACES (1), Reno-ACES (2), GT7 (3),
/// Reinhard (4), Neutwo (5), then back to Off.
pub proof fn lemma_cycle_order()
    ensures
        ToneMapMode::Off.following() == ToneMapMode::Aces,
        ToneMapMode::Aces.following() == ToneMapMode::RenoAces,
        ToneMapMode::RenoAces.following() == ToneMapMode::GranTurismo7,
        ToneMapMode::GranTurismo7.following() == ToneMapMode::Reinhard,
        ToneMapMode::Reinhard.following() == ToneMapMode::Neutwo,
        ToneMapMode::Neutwo.following() == ToneMapMode::Off,
        ToneMapMode::Off.code() == 0,
        ToneMapMode::Aces.code() == 1,
        ToneMapMode::RenoAces.code() == 2,
        ToneMapMode::GranTurismo7.code() == 3,
        ToneMapMode::Reinhard.code() == 4,
        ToneMapMode::Neutwo.code() == 5,
{
}

/// The names and overlay tags of the modes, spelled out.
pub proof fn lemma_names_spelled()
    ensures
        ToneMapMode::Off.name() == seq!['o', 'f', 'f'],
        ToneMapMode::Aces.name() == seq!['a', 'c', 'e', 's'],
        ToneMapMode::RenoAces.name() == seq!['r', 'e', 'n', 'o', '-', 'a', 'c', 'e', 's'],
        ToneMapMode::GranTurismo7.name() == seq!['g', 't', '7'],
        ToneMapMode::Reinhard.name() == seq!['r', 'e', 'i', 'n', 'h', 'a', 'r', 'd'],
        ToneMapMode::Neutwo.name() == seq!['n', 'e', 'u', 't', 'w', 'o'],
        ToneMapMode::Off.tag() == seq!['O', 'F', 'F'],
        ToneMapMode::Aces.tag() == seq!['A', 'C', 'E', 'S'],
        ToneMapMode::RenoAces.tag() == seq!['R', 'E', 'N', 'O', '-', 'A', 'C', 'E', 'S'],
        ToneMapMode::GranTurismo7.tag() == seq!['G', 'T', '7'],
        ToneMapMode::Reinhard.tag() == seq!['R', 'H'],
        ToneMapMode::Neutwo.tag() == seq!['N', 'E', 'U'],
{
    reveal_strlit("off");
    reveal_strlit("aces");
    reveal_strlit("reno-aces");
    reveal_strlit("gt7");
    reveal_strlit("reinhard");
    reveal_strlit("neutwo");
    reveal_strlit("OFF");
    reveal_strlit("ACES");
    reveal_strlit("RENO-ACES");
    reveal_strlit("GT7");
    reveal_strlit("RH");
    reveal_strlit("NEU");
    assert(ToneMapMode::Off.name() =~= seq!['o', 'f', 'f']);
    assert(ToneMapMode::Aces.name() =~= seq!['a', 'c', 'e', 's']);
    assert(ToneMapMode::RenoAces.name() =~= seq!['r', 'e', 'n', 'o', '-', 'a', 'c', 'e', 's']);
    assert(ToneMapMode::GranTurismo7.name() =~= seq!['g', 't', '7']);
    assert(ToneMapMode::Reinhard.name() =~= seq!['r', 'e', 'i', 'n', 'h', 'a', 'r', 'd']);
    assert(ToneMapMode::Neutwo.name() =~= seq!['n', 'e', 'u', 't', 'w', 'o']);
    assert(ToneMapMode::Off.tag() =~= seq!['O', 'F', 'F']);
    assert(ToneMapMode::Aces.tag() =~= seq!['A', 'C', 'E', 'S']);
    assert(ToneMapMode::RenoAces.tag() =~= seq!['R', 'E', 'N', 'O', '-', 'A', 'C', 'E', 'S']);
    assert(ToneMapMode::GranTurismo7.tag() =~= seq!['G', 'T', '7']);
    assert(ToneMapMode::Reinhard.tag() =~= seq!['R', 'H']);
    assert(ToneMapMode::Neutwo.tag() =~= seq!['N', 'E', 'U']);
}

} // verus!
