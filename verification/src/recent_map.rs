//! The most recently loaded beatmap, kept while entries for it follow.
use vstd::prelude::*;

verus! {

/// The last beatmap that was loaded, with its id.
pub struct RecentBeatmap<M> {
    pub inner: Option<(i32, M)>,
}

impl<M> RecentBeatmap<M> {
    /// The beatmap kept for `map_id`, if it is the one kept.
    pub open spec fn lookup(&self, map_id: i32) -> Option<M> {
        match self.inner {
            Some((id, map)) => if id == map_id {
                Some(map)
            } else {
                None
            },
            None => None,
        }
    }

    /// Nothing kept yet.
    pub fn new() -> (r: Self)
        ensures
            r.inner is None,
    {
        RecentBeatmap { inner: None }
    }

    /// The beatmap kept for `map_id`, if it is the one kept.
    pub fn cached(&self, map_id: i32) -> (r: Option<&M>)
        ensures
            r is Some <==> self.lookup(map_id) is Some,
            r matches Some(m) ==> self.lookup(map_id) == Some(*m),
    {
        match &self.inner {
            Some((id, map)) => if *id == map_id {
                Some(map)
            } else {
                None
            },
            None => None,
        }
    }

    /// Keeps `map` as the beatmap of `map_id`, in place of the one kept before.
    pub fn insert(&mut self, map_id: i32, map: M)
        ensures
            final(self).inner == Some((map_id, map)),
    {
        self.inner = Some((map_id, map));
    }
}

/// After a beatmap is kept for an id, a lookup of that id gives it back and a
/// lookup of any other id gives nothing.
pub proof fn lemma_recent_read_after_write<M>(cache: RecentBeatmap<M>, map_id: i32, map: M, other: i32)
    requires
        cache.inner == Some((map_id, map)),
    ensures
        cache.lookup(map_id) == Some(map),
        other != map_id ==> cache.lookup(other) is None,
{
}

} // verus!
