//! The data of consensus: heights, rounds, values, validators, proposals,
//! votes and their extensions, and the signatures that carry them.
use vstd::prelude::*;
use crate::decimal::{decimal, u64_to_decimal};
use crate::encoding::{base64_len, base64_standard, encode_base64, lemma_base64_length};

verus! {

/// A consensus round: `Nil` stands for the round before the first (-1),
/// `Defined(r)` for round `r >= 0`. The order is that of the round numbers.
#[derive(Clone, Copy, Debug, PartialEq, Eq, Structural, PartialOrd, Ord, Hash)]
pub enum Round {
    Nil,
    Defined(u32),
}

impl Round {
    /// The defined round `round`.
    pub fn new(round: u32) -> (r: Round)
        ensures
            r == Round::Defined(round),
    {
        Round::Defined(round)
    }
}

/// Either no value (`Nil`) or a value: what a vote is cast for.
#[derive(Clone, Copy, Debug, PartialEq, Eq, PartialOrd, Ord, Hash)]
pub enum NilOrVal<T> {
    Nil,
    Val(T),
}

impl<T> NilOrVal<T> {
    /// `Nil` as `None`, a value as `Some`.
    pub open spec fn spec_to_option(self) -> Option<T> {
        match self {
            NilOrVal::Nil => None,
            NilOrVal::Val(v) => Some(v),
        }
    }

    /// `None` as `Nil`, `Some` as a value.
    pub open spec fn spec_from_option(o: Option<T>) -> NilOrVal<T> {
        match o {
            None => NilOrVal::Nil,
            Some(v) => NilOrVal::Val(v),
        }
    }

    /// The optional value this stands for; this is how it is serialized.
    pub fn into_option(self) -> (o: Option<T>)
        ensures
            o == self.spec_to_option(),
    {
        match self {
            NilOrVal::Nil => None,
            NilOrVal::Val(v) => Some(v),
        }
    }

    /// The value that an optional value stands for; this is how it is deserialized.
    pub fn from_option(o: Option<T>) -> (r: NilOrVal<T>)
        ensures
            r == Self::spec_from_option(o),
    {
        match o {
            None => NilOrVal::Nil,
            Some(v) => NilOrVal::Val(v),
        }
    }
}

/// A message together with the signature over it.
#[derive(Clone, Debug, PartialEq, Eq, PartialOrd, Ord)]
pub struct SignedMessage<M> {
    pub message: M,
    pub signature: Vec<u8>,
}

impl<M> SignedMessage<M> {
    /// Pairs a message with its signature.
    pub fn new(message: M, signature: Vec<u8>) -> (r: SignedMessage<M>)
        ensures
            r.message == message,
            r.signature@ == signature@,
    {
        SignedMessage { message, signature }
    }
}

/// The address of a validator.
#[derive(Clone, Debug, PartialEq, Eq, PartialOrd, Ord, Hash)]
pub struct GrugAddress(pub String);

impl View for GrugAddress {
    type V = Seq<char>;

    open spec fn view(&self) -> Seq<char> {
        self.0@
    }
}

impl GrugAddress {
    /// The address as text, as `Display` writes it.
    pub fn to_string(&self) -> (s: String)
        ensures
            s@ == self@,
    {
        self.0.clone()
    }
}

/// The height of a block.
#[derive(Clone, Copy, Debug, PartialEq, Eq, Structural, PartialOrd, Ord, Default, Hash)]
pub struct GrugHeight(pub u64);

impl GrugHeight {
    /// The height before any block (`Height::ZERO`).
    pub fn zero() -> (r: GrugHeight)
        ensures
            r == GrugHeight(0),
    {
        GrugHeight(0)
    }

    /// The height of the first block (`Height::INITIAL`).
    pub fn initial() -> (r: GrugHeight)
        ensures
            r == GrugHeight(1),
    {
        GrugHeight(1)
    }

    /// The height `n` above this one.
    pub open spec fn spec_increment_by(self, n: u64) -> GrugHeight {
        GrugHeight((self.0 + n) as u64)
    }

    /// The height `n` below this one, if that is above zero.
    pub open spec fn spec_decrement_by(self, n: u64) -> Option<GrugHeight> {
        if self.0 > n {
            Some(GrugHeight((self.0 - n) as u64))
        } else {
            None
        }
    }

    /// The height `n` above this one.
    pub fn increment_by(&self, n: u64) -> (r: GrugHeight)
        requires
            self.0 + n <= u64::MAX,
        ensures
            r == self.spec_increment_by(n),
            r.0 == self.0 + n,
    {
        GrugHeight(self.0 + n)
    }

    /// The height `n` below this one; `None` unless this height is above `n`.
    pub fn decrement_by(&self, n: u64) -> (r: Option<GrugHeight>)
        ensures
            r == self.spec_decrement_by(n),
            r is Some <==> self.0 > n,
            r matches Some(h) ==> h.0 == self.0 - n,
    {
        if self.0 > n {
            Some(GrugHeight(self.0 - n))
        } else {
            None
        }
    }

    /// The height as a number.
    pub fn as_u64(&self) -> (r: u64)
        ensures
            r == self.0,
    {
        self.0
    }

    /// The height in base ten, as `Display` writes it.
    pub fn to_string(&self) -> (s: String)
        ensures
            s@ == decimal(self.0 as nat),
    {
        u64_to_decimal(self.0)
    }
}

/// A value that consensus decides on: raw bytes.
#[derive(Clone, Debug, PartialEq, Eq, PartialOrd, Ord, Hash)]
pub struct GrugValue(pub Vec<u8>);

impl GrugValue {
    /// The identifier of a value with bytes `bytes`: their base64 text.
    pub open spec fn spec_id(bytes: Seq<u8>) -> Seq<char> {
        base64_standard(bytes)
    }

    /// The identifier of the value: the standard base64 text of its bytes.
    pub fn id(&self) -> (r: String)
        requires
            base64_len(self.0@.len()) <= usize::MAX,
        ensures
            r@ == Self::spec_id(self.0@),
            r@.len() == base64_len(self.0@.len()),
    {
        proof {
            lemma_base64_length(self.0@);
        }
        encode_base64(self.0.as_slice())
    }
}

/// The kind of a vote.
#[derive(Clone, Copy, Debug, PartialEq, Eq, Structural, PartialOrd, Ord, Hash)]
pub enum VoteType {
    Prevote,
    Precommit,
}

/// Data that a validator attaches to its precommit.
#[derive(Clone, Debug, PartialEq, Eq, PartialOrd, Ord)]
pub struct GrugExtension {
    pub height: GrugHeight,
    pub data: Vec<u8>,
}

impl GrugExtension {
    /// The size of the extension: the number of bytes of its data.
    pub fn size_bytes(&self) -> (r: usize)
        ensures
            r == self.data@.len(),
    {
        self.data.len()
    }
}

/// A part of a proposed value, as gossiped between nodes.
#[derive(Clone, Debug, PartialEq, Eq)]
pub struct GrugProposalPart {
    pub height: GrugHeight,
    pub value_part: Vec<u8>,
}

impl GrugProposalPart {
    /// Every part is the first of its proposal: a value travels in one part.
    pub fn is_first(&self) -> (r: bool)
        ensures
            r,
    {
        true
    }

    /// Every part is the last of its proposal: a value travels in one part.
    pub fn is_last(&self) -> (r: bool)
        ensures
            r,
    {
        true
    }
}

/// A validator: its address, public key and voting power.
#[derive(Clone, Debug, PartialEq, Eq)]
pub struct GrugValidator {
    pub address: GrugAddress,
    pub public_key: Vec<u8>,
    pub voting_power: u64,
}

impl GrugValidator {
    /// The validator's address.
    pub fn address(&self) -> (r: &GrugAddress)
        ensures
            *r == self.address,
    {
        &self.address
    }

    /// The validator's voting power.
    pub fn voting_power(&self) -> (r: u64)
        ensures
            r == self.voting_power,
    {
        self.voting_power
    }

    /// The validator's public key.
    pub fn public_key(&self) -> (r: &Vec<u8>)
        ensures
            *r == self.public_key,
    {
        &self.public_key
    }
}

/// A proposal of a value at a height and round.
#[derive(Clone, Debug, PartialEq, Eq)]
pub struct GrugProposal {
    pub height: GrugHeight,
    pub round: Round,
    pub value: GrugValue,
    pub proposer: GrugAddress,
}

impl Default for GrugProposal {
    /// The empty proposal at height 0, round 0, from the address `default`.
    fn default() -> (r: GrugProposal)
        ensures
            r.height == GrugHeight(0),
            r.round == Round::Defined(0),
            r.value.0@ == Seq::<u8>::empty(),
            r.proposer@ == "default"@,
    {
        GrugProposal {
            height: GrugHeight(0),
            round: Round::new(0),
            value: GrugValue(Vec::new()),
            proposer: GrugAddress(String::from_str("default")),
        }
    }
}

impl GrugProposal {
    /// The height of the proposal.
    pub fn height(&self) -> (r: GrugHeight)
        ensures
            r == self.height,
    {
        self.height
    }

    /// The round of the proposal.
    pub fn round(&self) -> (r: Round)
        ensures
            r == self.round,
    {
        self.round
    }

    /// The proposed value.
    pub fn value(&self) -> (r: &GrugValue)
        ensures
            *r == self.value,
    {
        &self.value
    }

    /// The proposed value, taking the proposal.
    pub fn take_value(self) -> (r: GrugValue)
        ensures
            r == self.value,
    {
        self.value
    }

    /// The proof-of-lock round: always round 0, since none is recorded.
    pub fn pol_round(&self) -> (r: Round)
        ensures
            r == Round::Defined(0),
    {
        Round::new(0)
    }

    /// The address of the proposer.
    pub fn validator_address(&self) -> (r: &GrugAddress)
        ensures
            *r == self.proposer,
    {
        &self.proposer
    }
}

/// A vote by a validator for a value (or for nothing) at a height and round.
#[derive(Clone, Debug, PartialEq, Eq, PartialOrd, Ord)]
pub struct GrugVote {
    pub height: GrugHeight,
    pub round: Round,
    pub value_id: NilOrVal<String>,
    pub voter: GrugAddress,
    pub vote_type: VoteType,
    pub extension: Option<SignedMessage<GrugExtension>>,
}

impl Default for GrugVote {
    /// A nil prevote at height 0, round 0, from the address `default`.
    fn default() -> (r: GrugVote)
        ensures
            r.height == GrugHeight(0),
            r.round == Round::Defined(0),
            r.value_id is Nil,
            r.voter@ == "default"@,
            r.vote_type == VoteType::Prevote,
            r.extension is None,
    {
        GrugVote {
            height: GrugHeight(0),
            round: Round::new(0),
            value_id: NilOrVal::Nil,
            voter: GrugAddress(String::from_str("default")),
            vote_type: VoteType::Prevote,
            extension: None,
        }
    }
}

impl GrugVote {
    /// The vote `v` with its extension replaced by `ext`.
    pub open spec fn spec_extend(v: GrugVote, ext: SignedMessage<GrugExtension>) -> GrugVote {
        GrugVote { extension: Some(ext), ..v }
    }

    /// The vote `v` with its extension removed.
    pub open spec fn spec_without_extension(v: GrugVote) -> GrugVote {
        GrugVote { extension: None, ..v }
    }

    /// The height of the vote.
    pub fn height(&self) -> (r: GrugHeight)
        ensures
            r == self.height,
    {
        self.height
    }

    /// The round of the vote.
    pub fn round(&self) -> (r: Round)
        ensures
            r == self.round,
    {
        self.round
    }

    /// What the vote is cast for.
    pub fn value(&self) -> (r: &NilOrVal<String>)
        ensures
            *r == self.value_id,
    {
        &self.value_id
    }

    /// What the vote is cast for, taking the vote.
    pub fn take_value(self) -> (r: NilOrVal<String>)
        ensures
            r == self.value_id,
    {
        self.value_id
    }

    /// The kind of the vote.
    pub fn vote_type(&self) -> (r: VoteType)
        ensures
            r == self.vote_type,
    {
        self.vote_type
    }

    /// The address of the voter.
    pub fn validator_address(&self) -> (r: &GrugAddress)
        ensures
            *r == self.voter,
    {
        &self.voter
    }

    /// The extension of the vote, if any.
    pub fn extension(&self) -> (r: Option<&SignedMessage<GrugExtension>>)
        ensures
            r matches Some(e) ==> self.extension == Some(*e),
            r is None <==> self.extension is None,
    {
        self.extension.as_ref()
    }

    /// Removes the extension from the vote and returns it.
    pub fn take_extension(&mut self) -> (r: Option<SignedMessage<GrugExtension>>)
        ensures
            r == old(self).extension,
            *final(self) == Self::spec_without_extension(*old(self)),
    {
        self.extension.take()
    }

    /// The vote with its extension set to `ext`, replacing any other.
    pub fn extend(self, ext: SignedMessage<GrugExtension>) -> (r: GrugVote)
        ensures
            r == Self::spec_extend(self, ext),
    {
        let mut v = self;
        v.extension = Some(ext);
        v
    }
}

/// The signing scheme of consensus messages; signatures and keys are raw bytes.
#[derive(Clone, Debug, PartialEq, Eq)]
pub struct Ed25519SigningScheme;

impl Ed25519SigningScheme {
    /// The signature that the bytes `bytes` decode to: the bytes themselves.
    pub open spec fn spec_decode_signature(bytes: Seq<u8>) -> Option<Seq<u8>> {
        Some(bytes)
    }

    /// The bytes that the signature `signature` encodes to: its own bytes.
    pub open spec fn spec_encode_signature(signature: Seq<u8>) -> Seq<u8> {
        signature
    }

    /// Decodes a signature: the bytes themselves, which always succeeds.
    pub fn decode_signature(bytes: &[u8]) -> (r: Result<Vec<u8>, String>)
        ensures
            r matches Ok(s) && Self::spec_decode_signature(bytes@) == Some(s@),
    {
        Ok(vstd::slice::slice_to_vec(bytes))
    }

    /// Encodes a signature: its bytes, unchanged.
    pub fn encode_signature(signature: &Vec<u8>) -> (r: Vec<u8>)
        ensures
            r@ == Self::spec_encode_signature(signature@),
    {
        vstd::slice::slice_to_vec(signature.as_slice())
    }
}

} // verus!
