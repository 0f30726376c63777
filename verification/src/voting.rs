//! A public voting register kept beside the aggregation contract: voters
//! registered by address, candidates with a tally, and a voting period.
//!
//! Addresses are held uniquely; the current time is handed in by the
//! caller, since reading a clock is the hosting environment's business.

use vstd::prelude::*;

verus! {

/// A registered voter.
#[derive(PartialEq, Eq, Debug)]
pub struct Voter {
    /// Unique identifier for the voter.
    pub address: String,
    /// Whether the voter has cast a vote.
    pub voted: bool,
}

/// A candidate and the tally of votes received.
#[derive(PartialEq, Eq, Debug)]
pub struct Candidate {
    pub name: String,
    pub votes: u32,
}

/// The voting register.
pub struct Voting {
    /// The candidates a vote may go to.
    pub candidates: Vec<Candidate>,
    /// The registered voters, at most one entry per address.
    pub voters: Vec<Voter>,
    /// First moment at which votes are accepted.
    pub start_date: u64,
    /// Last moment at which votes are accepted; registration also closes
    /// here.
    pub end_date: u64,
}

impl Voting {
    /// Whether some voter is registered under the given address.
    pub open spec fn registered(self, address: Seq<char>) -> bool {
        exists|i: int|
            0 <= i < self.voters@.len() && self.voters@[i].address@ == address
    }

    /// Whether a voter registered under the given address has voted.
    pub open spec fn spec_has_voted(self, address: Seq<char>) -> bool {
        exists|i: int|
            0 <= i < self.voters@.len() && self.voters@[i].address@ == address
                && self.voters@[i].voted
    }

    /// Well-formedness: voter addresses are pairwise distinct.
    pub open spec fn wf(self) -> bool {
        forall|i: int, j: int|
            0 <= i < j < self.voters@.len() ==> self.voters@[i].address@
                != self.voters@[j].address@
    }

    /// Index of the voter registered under the given address, if any.
    fn find_voter(&self, address: &String) -> (r: Option<usize>)
        ensures
            match r {
                Some(i) => i < self.voters@.len() && self.voters@[i as int].address@ == address@,
                None => !self.registered(address@),
            },
    {
        let mut i: usize = 0;
        while i < self.voters.len()
            invariant
                i <= self.voters@.len(),
                forall|j: int| 0 <= j < i ==> self.voters@[j].address@ != address@,
            decreases self.voters@.len() - i,
        {
            if self.voters[i].address == *address {
                return Some(i);
            }
            i = i + 1;
        }
        None
    }

    /// Whether the voting period is open at the given time.
    pub fn is_within_voting_period(&self, current_time: u64) -> (r: bool)
        ensures
            r == (self.start_date <= current_time && current_time <= self.end_date),
    {
        current_time >= self.start_date && current_time <= self.end_date
    }

    /// Whether a voter registered under the given address has voted.
    pub fn has_voted(&self, address: &String) -> (r: bool)
        requires
            self.wf(),
        ensures
            r == self.spec_has_voted(address@),
    {
        match self.find_voter(address) {
            Some(i) => {
                let voted = self.voters[i].voted;
                proof {
                    if !voted && self.spec_has_voted(address@) {
                        let j = choose|j: int|
                            0 <= j < self.voters@.len() && self.voters@[j].address@ == address@
                                && self.voters@[j].voted;
                        assert(j == i);
                    }
                }
                voted
            },
            None => {
                proof {
                    if self.spec_has_voted(address@) {
                        let j = choose|j: int|
                            0 <= j < self.voters@.len() && self.voters@[j].address@ == address@
                                && self.voters@[j].voted;
                        assert(self.registered(address@));
                    }
                }
                false
            },
        }
    }

    /// Whether the voting period has closed at the given time.
    pub fn is_past_end_date(&self, current_time: u64) -> (r: bool)
        ensures
            r == (current_time > self.end_date),
    {
        current_time > self.end_date
    }

    /// Registers a voter.  Succeeds while the period has not closed and
    /// the address has not voted; an address already registered but not
    /// yet voted keeps its single entry.  On failure nothing changes.
    pub fn register(&mut self, address: String, current_time: u64) -> (r: bool)
        requires
            old(self).wf(),
        ensures
            final(self).wf(),
            r == (!old(self).spec_has_voted(address@) && current_time <= old(self).end_date),
            final(self).candidates@ == old(self).candidates@,
            final(self).start_date == old(self).start_date,
            final(self).end_date == old(self).end_date,
            !r ==> final(self).voters@ == old(self).voters@,
            r && old(self).registered(address@) ==> final(self).voters@ == old(self).voters@,
            r && !old(self).registered(address@) ==> final(self).voters@ == old(
                self,
            ).voters@.push(Voter { address, voted: false }),
            r ==> final(self).registered(address@) && !final(self).spec_has_voted(address@),
    {
        if self.has_voted(&address) {
            return false;
        }
        if self.is_past_end_date(current_time) {
            return false;
        }
        let ghost old_voters = self.voters@;
        if self.find_voter(&address).is_none() {
            proof {
                assert forall|i: int, j: int|
                    0 <= i < j < old_voters.push(Voter { address, voted: false }).len() implies
                    old_voters.push(Voter { address, voted: false })[i].address@ != old_voters.push(
                        Voter { address, voted: false },
                    )[j].address@ by {
                    if j == old_voters.len() {
                        assert(old_voters[i].address@ != address@);
                    }
                }
            }
            self.voters.push(Voter { address, voted: false });
            proof {
                assert(self.voters@[old_voters.len() as int].address@ == address@);
                assert forall|i: int|
                    0 <= i < self.voters@.len() && self.voters@[i].address@ == address@ implies !(
                    self.voters@[i].voted) by {
                    if i < old_voters.len() {
                        assert(old(self).registered(address@));
                    }
                }
            }
        } else {
            proof {
                if self.spec_has_voted(address@) {
                    assert(old(self).spec_has_voted(address@));
                }
            }
        }
        true
    }

    /// Casts a vote: marks the voter as having voted and increments the
    /// chosen candidate's tally.  Fails, changing nothing, outside the
    /// voting period, for an address that has already voted, or for an
    /// invalid candidate index.
    pub fn vote(&mut self, address: String, candidate_index: usize, current_time: u64) -> (r: bool)
        requires
            old(self).wf(),
            (old(self).start_date <= current_time && current_time <= old(self).end_date && !old(
                self,
            ).spec_has_voted(address@) && candidate_index < old(self).candidates@.len()) ==> old(
                self,
            ).registered(address@),
            (old(self).start_date <= current_time && current_time <= old(self).end_date && !old(
                self,
            ).spec_has_voted(address@) && candidate_index < old(self).candidates@.len()) ==> old(
                self,
            ).candidates@[candidate_index as int].votes < u32::MAX,
        ensures
            final(self).wf(),
            r == (old(self).start_date <= current_time && current_time <= old(self).end_date
                && !old(self).spec_has_voted(address@) && candidate_index < old(
                self,
            ).candidates@.len()),
            final(self).start_date == old(self).start_date,
            final(self).end_date == old(self).end_date,
            !r ==> final(self).voters@ == old(self).voters@ && final(self).candidates@ == old(
                self,
            ).candidates@,
            r ==> final(self).candidates@.len() == old(self).candidates@.len() && forall|k: int|
                0 <= k < final(self).candidates@.len() ==> final(self).candidates@[k].name == old(
                    self,
                ).candidates@[k].name && final(self).candidates@[k].votes == if k
                    == candidate_index {
                    (old(self).candidates@[k].votes + 1) as u32
                } else {
                    old(self).candidates@[k].votes
                },
            r ==> final(self).voters@.len() == old(self).voters@.len() && forall|k: int|
                0 <= k < final(self).voters@.len() ==> final(self).voters@[k].address == old(
                    self,
                ).voters@[k].address && final(self).voters@[k].voted == (old(
                    self,
                ).voters@[k].voted || old(self).voters@[k].address@ == address@),
            r ==> final(self).spec_has_voted(address@),
    {
        if !self.is_within_voting_period(current_time) {
            return false;
        }
        if self.has_voted(&address) {
            return false;
        }
        if candidate_index >= self.candidates.len() {
            return false;
        }
        let voter_index = match self.find_voter(&address) {
            Some(i) => i,
            None => {
                proof {
                    assert(false);
                }
                vstd::pervasive::unreached()
            },
        };
        let ghost old_voters = self.voters@;
        let ghost old_candidates = self.candidates@;
        self.voters[voter_index].voted = true;
        let tally = self.candidates[candidate_index].votes;
        self.candidates[candidate_index].votes = tally + 1;
        proof {
            assert(self.voters@[voter_index as int].voted);
            assert forall|k: int|
                0 <= k < self.voters@.len() implies self.voters@[k].address == old_voters[k].address
                && self.voters@[k].voted == (old_voters[k].voted || old_voters[k].address@
                == address@) by {
                if k != voter_index && old_voters[k].address@ == address@ {
                    assert(false);
                }
            }
        }
        true
    }
}

} // verus!
