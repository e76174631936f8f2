use grug_app::node::GrugNode;
use grug_app::types::{GrugExtension, GrugHeight, GrugProposalPart, GrugValue, GrugVote};
use grug_app::validators::ValidatorSet;
use grug_app::vm::{export_in_0_out_1, ExportIn0Out1, VmError};

#[test]
fn node_files() {
    let node = GrugNode::new(b"/home/grug".to_vec());
    assert_eq!(node.get_home_dir(), b"/home/grug".to_vec());
    assert_eq!(node.genesis_file(), b"/home/grug/config/genesis.json".to_vec());
    assert_eq!(node.private_key_file(), b"/home/grug/config/priv_validator_key.json".to_vec());
    assert_eq!(node.config_file(), b"/home/grug/config/config.json".to_vec());
    let slash = GrugNode::new(b"/home/grug/".to_vec());
    assert_eq!(slash.genesis_file(), b"/home/grug/config/genesis.json".to_vec());
    let empty = GrugNode::new(Vec::new());
    assert_eq!(empty.genesis_file(), b"config/genesis.json".to_vec());
    // Home directories that are not UTF-8 are kept byte for byte.
    let raw = GrugNode::new(vec![b'/', 0xff, 0xfe]);
    assert_eq!(raw.config_file(), b"/\xff\xfe/config/config.json".to_vec());
}

#[test]
fn node_addresses_are_value_ids() {
    let node = GrugNode::new(b".".to_vec());
    for pk in [vec![], vec![0u8], vec![1, 2, 3], vec![5, 6, 7, 8], vec![255; 10]] {
        assert_eq!(node.get_address(&pk).0, GrugValue(pk.clone()).id());
    }
    assert_eq!(node.get_address(&vec![5, 6, 7, 8]).0, "BQYHCA==");
    assert_eq!(node.get_address(&vec![255]).0, "/w==");
    assert_eq!(node.get_address(&vec![251, 255]).0, "+/8=");
    let other = GrugNode::new(b"/elsewhere".to_vec());
    assert_eq!(other.get_address(&vec![1, 2, 3]), node.get_address(&vec![1, 2, 3]));
}

#[test]
fn node_keys() {
    let node = GrugNode::new(b".".to_vec());
    assert_eq!(node.generate_private_key(), vec![1, 2, 3, 4]);
    assert_eq!(node.get_public_key(&vec![9, 9]), vec![5, 6, 7, 8]);
    let file = node.make_private_key_file(vec![1, 2, 3, 4]);
    assert_eq!(file.private_key, "dummy_key");
    assert_eq!(node.load_private_key(file), vec![1, 2, 3, 4]);
}

#[test]
fn node_genesis() {
    let node = GrugNode::new(b".".to_vec());
    let genesis = node.make_genesis(vec![(vec![1, 2, 3], 10), (vec![5, 6, 7, 8], 32)]);
    assert_eq!(genesis.validators.len(), 2);
    assert_eq!(genesis.validators[0].address.0, "AQID");
    assert_eq!(genesis.validators[0].public_key, vec![1, 2, 3]);
    assert_eq!(genesis.validators[0].voting_power, 10);
    assert_eq!(genesis.validators[1].address.0, "BQYHCA==");
    assert_eq!(genesis.validators[1].voting_power, 32);
    assert_eq!(genesis.validators.total_voting_power(), 42);
    let found = genesis.validators.get_by_address(&node.get_address(&vec![5, 6, 7, 8]));
    assert_eq!(found.unwrap().public_key, vec![5, 6, 7, 8]);
    assert!(node.make_genesis(vec![]).validators.is_empty());
    let keys = vec![vec![1u8], vec![1, 0], vec![0, 1], vec![1, 2, 3], vec![1, 2, 3, 4]];
    let entries: Vec<(Vec<u8>, u64)> = keys.iter().cloned().map(|k| (k, 1)).collect();
    let genesis = node.make_genesis(entries);
    for key in &keys {
        let found = genesis.validators.get_by_address(&node.get_address(key)).unwrap();
        assert_eq!(&found.public_key, key);
    }
}

#[test]
fn node_config() {
    assert_eq!(GrugNode::make_config(0, 4).moniker(), "node-0");
    assert_eq!(GrugNode::make_config(3, 4).moniker, "node-3");
    assert_eq!(GrugNode::make_config(12, 20).moniker, "node-12");
    let cfg = GrugNode::make_config(1, 1);
    let _ = cfg.consensus();
    assert!(cfg.value_sync().enabled);
}

#[test]
fn monikers_are_distinct() {
    let names: Vec<String> = (0usize..120).map(|i| GrugNode::make_config(i, 120).moniker).collect();
    for i in 0..names.len() {
        for j in (i + 1)..names.len() {
            assert_ne!(names[i], names[j]);
        }
    }
}

#[test]
fn signing_provider() {
    let node = GrugNode::new(b".".to_vec());
    let provider = node.get_signing_provider(vec![1, 2, 3, 4]);
    let vote = GrugVote::default();
    let signed = provider.sign_vote(vote.clone());
    assert_eq!(signed.message, vote);
    assert!(signed.signature.is_empty());
    assert!(provider.verify_signed_vote(&vote, &signed.signature, &vec![5, 6, 7, 8]));
    let ext = GrugExtension { height: GrugHeight(1), data: vec![1] };
    let signed_ext = provider.sign_vote_extension(ext.clone());
    assert_eq!(signed_ext.message, ext);
    assert!(provider.verify_signed_vote_extension(&ext, &vec![0], &vec![]));
    let part = GrugProposalPart { height: GrugHeight(1), value_part: vec![3] };
    let signed_part = provider.sign_proposal_part(part.clone());
    assert_eq!(signed_part.message, part);
    assert!(signed_part.signature.is_empty());
    assert!(provider.verify_signed_proposal_part(&part, &vec![], &vec![]));
    let proposal = grug_app::types::GrugProposal::default();
    let signed_prop = provider.sign_proposal(proposal.clone());
    assert_eq!(signed_prop.message, proposal);
    assert!(provider.verify_signed_proposal(&proposal, &vec![], &vec![]));
}

#[test]
fn vm_export_dispatch() {
    assert_eq!(export_in_0_out_1("receive"), Ok(ExportIn0Out1::Receive));
    assert_eq!(
        export_in_0_out_1("execute"),
        Err(VmError::IncorrectNumberOfInputs { name: "execute".to_string(), num: 0 })
    );
    assert_eq!(
        export_in_0_out_1(""),
        Err(VmError::IncorrectNumberOfInputs { name: String::new(), num: 0 })
    );
}
