//! The node: where its files live, how it names validators, and the
//! genesis, configuration, keys and signing provider that it makes.
use vstd::prelude::*;
use informalsystems_malachitebft_config::{ConsensusConfig, ValueSyncConfig};
use crate::decimal::{decimal, u64_to_decimal};
use crate::encoding::{base64_len, base64_standard, encode_base64};
use crate::laws::lemma_genesis_total_power;
use crate::paths::{join_path, path_join};
use crate::validators::total_power;
use crate::types::{
    GrugAddress, GrugExtension, GrugProposal, GrugProposalPart, GrugValidator, GrugVote,
    SignedMessage,
};

verus! {

#[verifier::external_type_specification]
#[verifier::external_body]
pub struct ExConsensusConfig(ConsensusConfig);

#[verifier::external_type_specification]
#[verifier::external_body]
pub struct ExValueSyncConfig(ValueSyncConfig);

/// Calls `ConsensusConfig::default()` of `malachitebft_config`. Trusted only
/// to return; the configuration is carried through unread.
#[verifier::external_body]
fn default_consensus_config() -> (res: ConsensusConfig) {
    ConsensusConfig::default()
}

/// Calls `ValueSyncConfig::default()` of `malachitebft_config`. Trusted only
/// to return; the configuration is carried through unread.
#[verifier::external_body]
fn default_value_sync_config() -> (res: ValueSyncConfig) {
    ValueSyncConfig::default()
}

/// The bytes of ASCII text: one per character.
pub open spec fn ascii_bytes(text: Seq<char>) -> Seq<u8> {
    Seq::new(text.len(), |i: int| text[i] as u8)
}

/// The directory of a node's configuration files, under its home directory.
pub open spec fn spec_config_dir(home: Seq<u8>) -> Seq<u8> {
    path_join(home, ascii_bytes("config"@))
}

/// The path of the configuration file `name` of a node with home `home`.
pub open spec fn spec_config_file(home: Seq<u8>, name: Seq<char>) -> Seq<u8> {
    path_join(spec_config_dir(home), ascii_bytes(name))
}

/// The bytes of ASCII text.
fn ascii_segment(text: &str) -> (r: &[u8])
    requires
        vstd::string::is_ascii(text),
    ensures
        r@ == ascii_bytes(text@),
{
    broadcast use vstd::string::is_ascii_spec_bytes;

    let r = text.as_bytes();
    assert(r@ =~= ascii_bytes(text@));
    r
}

/// The address of the validator with public key `pk`: its base64 text.
pub open spec fn spec_address_of(pk: Seq<u8>) -> Seq<char> {
    base64_standard(pk)
}

/// The moniker of the node with index `index` among those configured together.
pub open spec fn spec_moniker(index: nat) -> Seq<char> {
    "node-"@ + decimal(index)
}

/// The sum of the voting powers of a list of validator entries.
pub open spec fn sum_powers(entries: Seq<(Vec<u8>, u64)>) -> nat
    decreases entries.len(),
{
    if entries.len() == 0 {
        0
    } else {
        sum_powers(entries.drop_last()) + entries.last().1 as nat
    }
}

/// A consensus node, rooted at its home directory, whose path is held as
/// its bytes (as a Unix `OsStr` holds it).
#[derive(Clone, Debug)]
pub struct GrugNode {
    pub home_dir: Vec<u8>,
}

/// The configuration of a node.
#[derive(Debug)]
pub struct GrugConfig {
    pub moniker: String,
    pub consensus: ConsensusConfig,
    pub value_sync: ValueSyncConfig,
}

impl GrugConfig {
    /// The node's human-readable name.
    pub fn moniker(&self) -> (r: &str)
        ensures
            r@ == self.moniker@,
    {
        self.moniker.as_str()
    }

    /// The consensus options.
    pub fn consensus(&self) -> (r: &ConsensusConfig)
        ensures
            *r == self.consensus,
    {
        &self.consensus
    }

    /// The value-sync options.
    pub fn value_sync(&self) -> (r: &ValueSyncConfig)
        ensures
            *r == self.value_sync,
    {
        &self.value_sync
    }
}

/// The genesis of the chain: its initial validators.
#[derive(Debug)]
pub struct GrugGenesis {
    pub validators: Vec<GrugValidator>,
}

/// The stored form of a node's private key.
#[derive(Debug)]
pub struct GrugPrivateKeyFile {
    pub private_key: String,
}

/// Signs and checks consensus messages with the node's private key.
pub struct GrugSigningProvider {
    private_key: Vec<u8>,
}

impl GrugSigningProvider {
    /// The private key the provider signs with.
    pub closed spec fn key(&self) -> Seq<u8> {
        self.private_key@
    }

    /// Signs a vote: the signature is empty.
    pub fn sign_vote(&self, vote: GrugVote) -> (r: SignedMessage<GrugVote>)
        ensures
            r.message == vote,
            r.signature@ == Seq::<u8>::empty(),
    {
        SignedMessage::new(vote, Vec::new())
    }

    /// Accepts every vote signature.
    pub fn verify_signed_vote(
        &self,
        vote: &GrugVote,
        signature: &Vec<u8>,
        public_key: &Vec<u8>,
    ) -> (r: bool)
        ensures
            r,
    {
        true
    }

    /// Signs a proposal: the signature is empty.
    pub fn sign_proposal(&self, proposal: GrugProposal) -> (r: SignedMessage<GrugProposal>)
        ensures
            r.message == proposal,
            r.signature@ == Seq::<u8>::empty(),
    {
        SignedMessage::new(proposal, Vec::new())
    }

    /// Accepts every proposal signature.
    pub fn verify_signed_proposal(
        &self,
        proposal: &GrugProposal,
        signature: &Vec<u8>,
        public_key: &Vec<u8>,
    ) -> (r: bool)
        ensures
            r,
    {
        true
    }

    /// Signs a proposal part: the signature is empty.
    pub fn sign_proposal_part(&self, proposal_part: GrugProposalPart) -> (r: SignedMessage<
        GrugProposalPart,
    >)
        ensures
            r.message == proposal_part,
            r.signature@ == Seq::<u8>::empty(),
    {
        SignedMessage::new(proposal_part, Vec::new())
    }

    /// Accepts every proposal-part signature.
    pub fn verify_signed_proposal_part(
        &self,
        proposal_part: &GrugProposalPart,
        signature: &Vec<u8>,
        public_key: &Vec<u8>,
    ) -> (r: bool)
        ensures
            r,
    {
        true
    }

    /// Signs a vote extension: the signature is empty.
    pub fn sign_vote_extension(&self, extension: GrugExtension) -> (r: SignedMessage<
        GrugExtension,
    >)
        ensures
            r.message == extension,
            r.signature@ == Seq::<u8>::empty(),
    {
        SignedMessage::new(extension, Vec::new())
    }

    /// Accepts every vote-extension signature.
    pub fn verify_signed_vote_extension(
        &self,
        extension: &GrugExtension,
        signature: &Vec<u8>,
        public_key: &Vec<u8>,
    ) -> (r: bool)
        ensures
            r,
    {
        true
    }
}

impl GrugNode {
    /// A node with the given home directory.
    pub fn new(home_dir: Vec<u8>) -> (r: GrugNode)
        ensures
            r.home_dir@ == home_dir@,
    {
        GrugNode { home_dir }
    }

    /// The home directory of the node.
    pub fn get_home_dir(&self) -> (r: Vec<u8>)
        ensures
            r@ == self.home_dir@,
    {
        vstd::slice::slice_to_vec(self.home_dir.as_slice())
    }

    /// The path of the configuration file `name` in the node's `config` directory.
    fn config_path(&self, name: &str) -> (r: Vec<u8>)
        requires
            vstd::string::is_ascii(name),
        ensures
            r@ == spec_config_file(self.home_dir@, name@),
    {
        proof {
            reveal_strlit("config");
        }
        let dir = join_path(self.home_dir.as_slice(), ascii_segment("config"));
        join_path(dir.as_slice(), ascii_segment(name))
    }

    /// `<home>/config/genesis.json`.
    pub fn genesis_file(&self) -> (r: Vec<u8>)
        ensures
            r@ == spec_config_file(self.home_dir@, "genesis.json"@),
    {
        proof {
            reveal_strlit("genesis.json");
        }
        self.config_path("genesis.json")
    }

    /// `<home>/config/priv_validator_key.json`.
    pub fn private_key_file(&self) -> (r: Vec<u8>)
        ensures
            r@ == spec_config_file(self.home_dir@, "priv_validator_key.json"@),
    {
        proof {
            reveal_strlit("priv_validator_key.json");
        }
        self.config_path("priv_validator_key.json")
    }

    /// `<home>/config/config.json`, from which the configuration is loaded.
    pub fn config_file(&self) -> (r: Vec<u8>)
        ensures
            r@ == spec_config_file(self.home_dir@, "config.json"@),
    {
        proof {
            reveal_strlit("config.json");
        }
        self.config_path("config.json")
    }

    /// The address of the validator with public key `pk`: its base64 text.
    pub fn get_address(&self, pk: &Vec<u8>) -> (r: GrugAddress)
        requires
            base64_len(pk@.len()) <= usize::MAX,
        ensures
            r@ == spec_address_of(pk@),
    {
        GrugAddress(encode_base64(pk.as_slice()))
    }

    /// The public key of any private key: the fixed key `[5, 6, 7, 8]`.
    pub fn get_public_key(&self, pk: &Vec<u8>) -> (r: Vec<u8>)
        ensures
            r@ == seq![5u8, 6u8, 7u8, 8u8],
    {
        let mut v: Vec<u8> = Vec::new();
        v.push(5);
        v.push(6);
        v.push(7);
        v.push(8);
        v
    }

    /// The private key stored in any key file: the fixed key `[1, 2, 3, 4]`.
    pub fn load_private_key(&self, file: GrugPrivateKeyFile) -> (r: Vec<u8>)
        ensures
            r@ == seq![1u8, 2u8, 3u8, 4u8],
    {
        self.generate_private_key()
    }

    /// A new private key: the fixed key `[1, 2, 3, 4]`.
    pub fn generate_private_key(&self) -> (r: Vec<u8>)
        ensures
            r@ == seq![1u8, 2u8, 3u8, 4u8],
    {
        let mut v: Vec<u8> = Vec::new();
        v.push(1);
        v.push(2);
        v.push(3);
        v.push(4);
        v
    }

    /// The key file of any private key: it holds the text `dummy_key`.
    pub fn make_private_key_file(&self, private_key: Vec<u8>) -> (r: GrugPrivateKeyFile)
        ensures
            r.private_key@ == "dummy_key"@,
    {
        GrugPrivateKeyFile { private_key: String::from_str("dummy_key") }
    }

    /// The signing provider of a private key.
    pub fn get_signing_provider(&self, private_key: Vec<u8>) -> (r: GrugSigningProvider)
        ensures
            r.key() == private_key@,
    {
        GrugSigningProvider { private_key }
    }

    /// The genesis with one validator per `(public key, voting power)` pair, in
    /// order, each addressed by the base64 text of its public key.
    pub fn make_genesis(&self, validators: Vec<(Vec<u8>, u64)>) -> (r: GrugGenesis)
        requires
            forall|i: int|
                0 <= i < validators@.len() ==> base64_len(#[trigger] validators@[i].0@.len())
                    <= usize::MAX,
        ensures
            r.validators@.len() == validators@.len(),
            forall|i: int|
                0 <= i < validators@.len() ==> {
                    &&& (#[trigger] r.validators@[i]).address@ == spec_address_of(
                        validators@[i].0@,
                    )
                    &&& r.validators@[i].public_key@ == validators@[i].0@
                    &&& r.validators@[i].voting_power == validators@[i].1
                },
            total_power(r.validators@) == sum_powers(validators@),
    {
        let mut out: Vec<GrugValidator> = Vec::new();
        let mut i: usize = 0;
        while i < validators.len()
            invariant
                i <= validators@.len(),
                out@.len() == i,
                forall|j: int|
                    0 <= j < validators@.len() ==> base64_len(#[trigger] validators@[j].0@.len())
                        <= usize::MAX,
                forall|j: int|
                    0 <= j < i ==> {
                        &&& (#[trigger] out@[j]).address@ == spec_address_of(validators@[j].0@)
                        &&& out@[j].public_key@ == validators@[j].0@
                        &&& out@[j].voting_power == validators@[j].1
                    },
            decreases validators@.len() - i,
        {
            let public_key = vstd::slice::slice_to_vec(validators[i].0.as_slice());
            let address = self.get_address(&validators[i].0);
            out.push(GrugValidator { address, public_key, voting_power: validators[i].1 });
            i = i + 1;
        }
        proof {
            lemma_genesis_total_power(out@, validators@);
        }
        GrugGenesis { validators: out }
    }

    /// The configuration of the node with index `index` among `total`: it is
    /// named `node-<index>` and has the default consensus and value-sync options.
    pub fn make_config(index: usize, total: usize) -> (r: GrugConfig)
        ensures
            r.moniker@ == spec_moniker(index as nat),
    {
        let mut moniker = String::from_str("node-");
        let digits = u64_to_decimal(index as u64);
        moniker.append(digits.as_str());
        GrugConfig {
            moniker,
            consensus: default_consensus_config(),
            value_sync: default_value_sync_config(),
        }
    }
}

} // verus!
