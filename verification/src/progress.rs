//! Progress over the scores compared so far.
use vstd::prelude::*;
use vstd::string::*;

use crate::text::{decimal, u64_to_string};

verus! {

/// How many of the scores have been compared, out of how many.
pub struct ScoresProgress {
    pub curr: usize,
    pub total: usize,
}

impl ScoresProgress {
    /// No score compared yet, out of `total`.
    pub open spec fn started(total: usize) -> Self {
        ScoresProgress { curr: 0, total }
    }

    /// One more score compared.
    pub open spec fn stepped(self) -> Self {
        ScoresProgress { curr: (self.curr + 1) as usize, total: self.total }
    }

    /// `k` more scores compared, one after another.
    pub open spec fn stepped_by(self, k: nat) -> Self
        decreases k,
    {
        if k == 0 {
            self
        } else {
            self.stepped_by((k - 1) as nat).stepped()
        }
    }

    /// The progress as shown.
    pub open spec fn shown(self) -> Seq<char> {
        "Scores: "@ + decimal(self.curr as nat) + "/"@ + decimal(self.total as nat)
    }

    /// No score compared yet, out of `total`.
    pub fn new(total: usize) -> (r: Self)
        ensures
            r == Self::started(total),
    {
        ScoresProgress { curr: 0, total }
    }

    /// One more score compared.
    pub fn inc(&mut self)
        requires
            old(self).curr < usize::MAX,
        ensures
            *final(self) == old(self).stepped(),
    {
        self.curr = self.curr + 1;
    }

    /// Back to no score compared.
    pub fn reset(&mut self)
        ensures
            *final(self) == Self::started(old(self).total),
    {
        self.curr = 0;
    }

    /// The progress as shown: `Scores: {curr}/{total}`.
    pub fn render(&self) -> (r: String)
        ensures
            r@ == self.shown(),
    {
        let mut out = String::from_str("Scores: ");
        let c = u64_to_string(self.curr as u64);
        out.append(c.as_str());
        out.append("/");
        let t = u64_to_string(self.total as u64);
        out.append(t.as_str());
        out
    }
}

/// After `k` increments of a fresh counter over `total` scores (or of one
/// just reset), it has counted `k`, still out of `total`, and shows
/// `Scores: k/total`.
pub proof fn lemma_progress_after_increments(total: usize, k: nat)
    requires
        k <= usize::MAX,
    ensures
        ScoresProgress::started(total).stepped_by(k).curr == k,
        ScoresProgress::started(total).stepped_by(k).total == total,
        ScoresProgress::started(total).stepped_by(k).shown() == "Scores: "@ + decimal(k) + "/"@
            + decimal(total as nat),
    decreases k,
{
    if k > 0 {
        lemma_progress_after_increments(total, (k - 1) as nat);
    }
}

} // verus!
