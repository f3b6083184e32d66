//! Stored attribute entries: which mode they are for, and counts per mode.
use vstd::prelude::*;

use crate::mods::ArchivedGameMods;

verus! {

/// Which mode's attributes an entry holds. The attribute values themselves are
/// floating-point numbers and stay with the program that reads and compares them.
#[derive(Clone, Copy, Debug, PartialEq, Eq, Structural)]
pub enum SimulateAttributes {
    Osu,
    Taiko,
    Catch,
    Mania,
}

/// A stored entry: the beatmap, the mods, and which mode's attributes it holds.
pub struct ArchivedSimulateObject {
    pub beatmap_id: i32,
    pub mods: ArchivedGameMods,
    pub attrs: SimulateAttributes,
}

/// The capitalised name of the mode of some attributes.
pub open spec fn attrs_mode_name(a: SimulateAttributes) -> Seq<char> {
    match a {
        SimulateAttributes::Osu => "Osu"@,
        SimulateAttributes::Taiko => "Taiko"@,
        SimulateAttributes::Catch => "Catch"@,
        SimulateAttributes::Mania => "Mania"@,
    }
}

impl SimulateAttributes {
    /// The capitalised name of the mode: `Osu`, `Taiko`, `Catch` or `Mania`.
    pub fn mode_name(&self) -> (r: &'static str)
        ensures
            r@ == attrs_mode_name(*self),
    {
        match self {
            SimulateAttributes::Osu => "Osu",
            SimulateAttributes::Taiko => "Taiko",
            SimulateAttributes::Catch => "Catch",
            SimulateAttributes::Mania => "Mania",
        }
    }
}

impl ArchivedSimulateObject {
    /// The capitalised name of the mode of the entry's attributes.
    pub fn mode(&self) -> (r: &'static str)
        ensures
            r@ == attrs_mode_name(self.attrs),
    {
        self.attrs.mode_name()
    }
}

/// Writes entries through `inner` and counts them per mode.
pub struct Serializer<W> {
    pub inner: W,
    pub osu: usize,
    pub taiko: usize,
    pub catch: usize,
    pub mania: usize,
}

impl<W> Serializer<W> {
    /// The count kept for the mode of `attrs`.
    pub open spec fn count_for(&self, attrs: SimulateAttributes) -> usize {
        match attrs {
            SimulateAttributes::Osu => self.osu,
            SimulateAttributes::Taiko => self.taiko,
            SimulateAttributes::Catch => self.catch,
            SimulateAttributes::Mania => self.mania,
        }
    }

    /// The count kept for the mode of `attrs`.
    pub fn count(&self, attrs: &SimulateAttributes) -> (r: usize)
        ensures
            r == self.count_for(*attrs),
    {
        match attrs {
            SimulateAttributes::Osu => self.osu,
            SimulateAttributes::Taiko => self.taiko,
            SimulateAttributes::Catch => self.catch,
            SimulateAttributes::Mania => self.mania,
        }
    }

    /// A serializer over `inner` that has counted nothing yet.
    pub fn new(inner: W) -> (r: Self)
        ensures
            r.inner == inner,
            r.osu == 0,
            r.taiko == 0,
            r.catch == 0,
            r.mania == 0,
    {
        Serializer { inner, osu: 0, taiko: 0, catch: 0, mania: 0 }
    }

    /// Counts one more entry for the mode of `attrs`.
    pub fn increment_mode(&mut self, attrs: &SimulateAttributes)
        requires
            old(self).count_for(*attrs) < usize::MAX,
        ensures
            final(self).inner == old(self).inner,
            forall|a: SimulateAttributes| #[trigger] final(self).count_for(a) == if a == *attrs {
                old(self).count_for(a) + 1
            } else {
                old(self).count_for(a) as int
            },
    {
        match attrs {
            SimulateAttributes::Osu => self.osu = self.osu + 1,
            SimulateAttributes::Taiko => self.taiko = self.taiko + 1,
            SimulateAttributes::Catch => self.catch = self.catch + 1,
            SimulateAttributes::Mania => self.mania = self.mania + 1,
        }
    }
}

} // verus!
