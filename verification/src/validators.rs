//! Validator sets and the consensus context that builds proposals and votes.
use vstd::prelude::*;
use crate::types::{
    GrugAddress, GrugHeight, GrugProposal, GrugValidator, GrugValue, GrugVote, NilOrVal, Round, VoteType,
};

verus! {

/// The total voting power of the validators in `s`.
pub open spec fn total_power(s: Seq<GrugValidator>) -> nat
    decreases s.len(),
{
    if s.len() == 0 {
        0
    } else {
        total_power(s.drop_last()) + s.last().voting_power as nat
    }
}

/// `i` is the first position in `s` of a validator with address `addr`.
pub open spec fn is_first_with_address(s: Seq<GrugValidator>, addr: Seq<char>, i: int) -> bool {
    &&& 0 <= i < s.len()
    &&& s[i].address@ == addr
    &&& forall|j: int| 0 <= j < i ==> s[j].address@ != addr
}

/// The voting power of a prefix of a set is at most that of the whole set.
pub proof fn lemma_total_power_prefix(s: Seq<GrugValidator>, k: int)
    requires
        0 <= k <= s.len(),
    ensures
        total_power(s.take(k)) <= total_power(s),
    decreases s.len(),
{
    if k < s.len() {
        lemma_total_power_prefix(s.drop_last(), k);
        assert(s.drop_last().take(k) =~= s.take(k));
    } else {
        assert(s.take(k) =~= s);
    }
}

/// A set of validators, in the order in which they were given.
pub trait ValidatorSet {
    /// The validators of the set, in order.
    spec fn validators(&self) -> Seq<GrugValidator>;

    /// The number of validators.
    fn count(&self) -> (r: usize)
        ensures
            r == self.validators().len(),
    ;

    /// The sum of the voting powers of all validators.
    fn total_voting_power(&self) -> (r: u64)
        requires
            total_power(self.validators()) <= u64::MAX,
        ensures
            r == total_power(self.validators()),
    ;

    /// The first validator with the given address, if there is one.
    fn get_by_address(&self, address: &GrugAddress) -> (r: Option<&GrugValidator>)
        ensures
            r is None <==> forall|i: int|
                0 <= i < self.validators().len() ==> self.validators()[i].address@ != address@,
            r matches Some(v) ==> exists|i: int|
                is_first_with_address(self.validators(), address@, i) && *v
                    == self.validators()[i],
    ;

    /// The validator at the given position, if the set is that large.
    fn get_by_index(&self, index: usize) -> (r: Option<&GrugValidator>)
        ensures
            r is Some <==> index < self.validators().len(),
            r matches Some(v) ==> *v == self.validators()[index as int],
    ;
}

impl ValidatorSet for Vec<GrugValidator> {
    open spec fn validators(&self) -> Seq<GrugValidator> {
        self@
    }

    fn count(&self) -> (r: usize) {
        self.len()
    }

    fn total_voting_power(&self) -> (r: u64) {
        let mut acc: u64 = 0;
        let mut i: usize = 0;
        while i < self.len()
            invariant
                i <= self@.len(),
                acc == total_power(self@.take(i as int)),
                total_power(self@) <= u64::MAX,
            decreases self@.len() - i,
        {
            proof {
                assert(self@.take(i + 1).drop_last() =~= self@.take(i as int));
                lemma_total_power_prefix(self@, i + 1);
            }
            acc = acc + self[i].voting_power;
            i = i + 1;
        }
        proof {
            assert(self@.take(i as int) =~= self@);
        }
        acc
    }

    fn get_by_address(&self, address: &GrugAddress) -> (r: Option<&GrugValidator>)
        ensures
            r is None <==> forall|i: int| 0 <= i < self@.len() ==> self@[i].address@ != address@,
            r matches Some(v) ==> exists|i: int|
                is_first_with_address(self@, address@, i) && *v == self@[i],
    {
        let mut i: usize = 0;
        while i < self.len()
            invariant
                i <= self@.len(),
                forall|j: int| 0 <= j < i ==> self@[j].address@ != address@,
            decreases self@.len() - i,
        {
            let same = self[i].address.0 == address.0;
            if same {
                proof {
                    assert(self.validators()[i as int].address@ == address@);
                    assert(is_first_with_address(self.validators(), address@, i as int));
                }
                return Some(&self[i]);
            }
            i = i + 1;
        }
        None
    }

    fn get_by_index(&self, index: usize) -> (r: Option<&GrugValidator>) {
        if index < self.len() {
            Some(&self[index])
        } else {
            None
        }
    }
}

/// The context of consensus: how proposers are chosen and how proposals
/// and votes are built.
#[derive(Clone, Debug, PartialEq, Eq)]
pub struct GrugContext;

impl GrugContext {
    /// The proposer of any height and round: the first validator of the set.
    pub fn select_proposer<'a>(
        &self,
        validator_set: &'a Vec<GrugValidator>,
        height: GrugHeight,
        round: Round,
    ) -> (r: &'a GrugValidator)
        requires
            validator_set@.len() > 0,
        ensures
            *r == validator_set@[0],
    {
        &validator_set[0]
    }

    /// A proposal of `value` by `proposer_address`; the proof-of-lock round is not kept.
    pub fn new_proposal(
        &self,
        height: GrugHeight,
        round: Round,
        value: GrugValue,
        valid_round: Round,
        proposer_address: GrugAddress,
    ) -> (r: GrugProposal)
        ensures
            r == (GrugProposal { height, round, value, proposer: proposer_address }),
    {
        GrugProposal { height, round, value, proposer: proposer_address }
    }

    /// A prevote by `voter_address` for `value_id`, without extension.
    pub fn new_prevote(
        &self,
        height: GrugHeight,
        round: Round,
        value_id: NilOrVal<String>,
        voter_address: GrugAddress,
    ) -> (r: GrugVote)
        ensures
            r == (GrugVote {
                height,
                round,
                value_id,
                voter: voter_address,
                vote_type: VoteType::Prevote,
                extension: None,
            }),
    {
        GrugVote {
            height,
            round,
            value_id,
            voter: voter_address,
            vote_type: VoteType::Prevote,
            extension: None,
        }
    }

    /// A precommit by `voter_address` for `value_id`, without extension.
    pub fn new_precommit(
        &self,
        height: GrugHeight,
        round: Round,
        value_id: NilOrVal<String>,
        voter_address: GrugAddress,
    ) -> (r: GrugVote)
        ensures
            r == (GrugVote {
                height,
                round,
                value_id,
                voter: voter_address,
                vote_type: VoteType::Precommit,
                extension: None,
            }),
    {
        GrugVote {
            height,
            round,
            value_id,
            voter: voter_address,
            vote_type: VoteType::Precommit,
            extension: None,
        }
    }
}

} // verus!
