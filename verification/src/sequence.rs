//! The ids that tie an answer to what it answers.

use vstd::prelude::*;

verus! {

/// Hands out `1`, `2`, `3` and so on.
#[derive(Debug)]
pub struct Sequencer {
    next: u32,
}

/// The source of a client's request ids.
pub type IdSequence = Sequencer;

/// The id that comes next.
impl View for Sequencer {
    type V = nat;

    closed spec fn view(&self) -> nat {
        self.next as nat
    }
}

/// `id` is what a sequence hands out that stands at `pre`, and `post` is where it stands then.
pub open spec fn issues(pre: nat, id: u32, post: nat) -> bool {
    id == pre && post == pre + 1
}

impl Sequencer {
    pub fn new() -> (r: Self)
        ensures
            r@ == 1,
    {
        Self { next: 1 }
    }

    /// Whether no further id can be handed out.
    pub fn is_exhausted(&self) -> (r: bool)
        ensures
            r <==> self@ >= u32::MAX,
    {
        self.next == u32::MAX
    }

    pub fn next(&mut self) -> (id: u32)
        requires
            old(self)@ < u32::MAX,
        ensures
            issues(old(self)@, id, final(self)@),
    {
        let seq: u32 = self.next;
        self.next += 1;
        seq
    }
}

impl Default for Sequencer {
    fn default() -> (r: Self)
        ensures
            r@ == 1,
    {
        Self::new()
    }
}

/// `ids` are the ids that one sequence handed out in a row, and `positions` are where it stood
/// before the first of them and after each.
pub open spec fn issued_in_a_row(positions: Seq<nat>, ids: Seq<u32>) -> bool {
    &&& positions.len() == ids.len() + 1
    &&& forall|i: int|
        #![trigger ids[i]]
        0 <= i < ids.len() ==> issues(positions[i], ids[i], positions[i + 1])
}

/// The ids that one sequence hands out count up from where it stood, without a gap.
pub proof fn law_ids_count_up(positions: Seq<nat>, ids: Seq<u32>, i: int)
    requires
        issued_in_a_row(positions, ids),
        0 <= i < ids.len(),
    ensures
        ids[i] == positions[0] + i,
    decreases i,
{
    if i > 0 {
        law_ids_count_up(positions, ids, i - 1);
        assert(issues(positions[i - 1], ids[i - 1], positions[i]));
    }
}

/// No sequence hands out the same id twice.
pub proof fn law_ids_are_distinct(positions: Seq<nat>, ids: Seq<u32>, i: int, j: int)
    requires
        issued_in_a_row(positions, ids),
        0 <= i < j < ids.len(),
    ensures
        ids[i] != ids[j],
{
    law_ids_count_up(positions, ids, i);
    law_ids_count_up(positions, ids, j);
}

} // verus!
