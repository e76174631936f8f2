use grug_app::decimal::u64_to_decimal;
use grug_app::paths::join_path;
use grug_app::types::{
    Ed25519SigningScheme, GrugAddress, GrugExtension, GrugHeight, GrugProposal, GrugProposalPart,
    GrugValidator, GrugValue, GrugVote, NilOrVal, Round, SignedMessage, VoteType,
};
use grug_app::validators::{GrugContext, ValidatorSet};

fn addr(s: &str) -> GrugAddress {
    GrugAddress(s.to_string())
}

fn validator(a: &str, power: u64) -> GrugValidator {
    GrugValidator { address: addr(a), public_key: vec![1, 2], voting_power: power }
}

#[test]
fn decimal_rendering() {
    assert_eq!(u64_to_decimal(0), "0");
    assert_eq!(u64_to_decimal(7), "7");
    assert_eq!(u64_to_decimal(10), "10");
    assert_eq!(u64_to_decimal(120), "120");
    assert_eq!(u64_to_decimal(u64::MAX), "18446744073709551615");
}

#[test]
fn path_joining() {
    assert_eq!(join_path(b"/home/node", b"config"), b"/home/node/config".to_vec());
    assert_eq!(join_path(b"/home/node/", b"config"), b"/home/node/config".to_vec());
    assert_eq!(join_path(b"", b"config"), b"config".to_vec());
    assert_eq!(join_path(b"/home/node", b"/etc/config"), b"/etc/config".to_vec());
    assert_eq!(join_path(b"relative", b"a.json"), b"relative/a.json".to_vec());
    assert_eq!(join_path(b"/a", b""), b"/a/".to_vec());
}

#[test]
fn height_arithmetic() {
    let h = GrugHeight(10);
    assert_eq!(h.increment_by(5), GrugHeight(15));
    assert_eq!(h.decrement_by(3), Some(GrugHeight(7)));
    assert_eq!(h.decrement_by(10), None);
    assert_eq!(h.decrement_by(11), None);
    assert_eq!(h.decrement_by(0), Some(GrugHeight(10)));
    assert_eq!(GrugHeight(0).decrement_by(0), None);
    assert_eq!(h.as_u64(), 10);
    assert_eq!(GrugHeight::zero(), GrugHeight(0));
    assert_eq!(GrugHeight::initial(), GrugHeight(1));
    assert_eq!(GrugHeight(42).to_string(), "42");
    assert_eq!(GrugHeight::default(), GrugHeight(0));
}

#[test]
fn height_increment_then_decrement_law() {
    for (h, n) in [(1u64, 0u64), (1, 9), (5, 5), (u64::MAX - 3, 3)] {
        let height = GrugHeight(h);
        assert_eq!(height.increment_by(n).decrement_by(n), Some(height));
    }
    // At zero the law does not hold: lowering back to zero is refused.
    assert_eq!(GrugHeight(0).increment_by(4).decrement_by(4), None);
}

#[test]
fn height_decrement_then_increment_law() {
    let h = GrugHeight(100);
    for n in [0u64, 1, 50, 99] {
        let lower = h.decrement_by(n).unwrap();
        assert_eq!(lower.increment_by(n), h);
    }
}

#[test]
fn heights_render_distinctly() {
    let texts: Vec<String> = (0u64..200).map(|n| GrugHeight(n).to_string()).collect();
    for i in 0..texts.len() {
        for j in (i + 1)..texts.len() {
            assert_ne!(texts[i], texts[j]);
        }
    }
}

#[test]
fn address_text() {
    assert_eq!(addr("abc").to_string(), "abc");
}

#[test]
fn value_id_is_base64() {
    assert_eq!(GrugValue(vec![]).id(), "");
    assert_eq!(GrugValue(vec![1, 2, 3]).id(), "AQID");
    assert_eq!(GrugValue(vec![5, 6, 7, 8]).id(), "BQYHCA==");
    assert_eq!(GrugValue(b"hello".to_vec()).id(), "aGVsbG8=");
    assert_eq!(GrugValue(vec![255]).id(), "/w==");
    assert_eq!(GrugValue(vec![251, 255]).id(), "+/8=");
}

#[test]
fn value_ids_are_distinct_base64() {
    let values: Vec<Vec<u8>> = vec![vec![], vec![0], vec![0, 0], vec![0, 0, 0], vec![1], vec![0, 1], vec![255, 255, 255, 255]];
    let ids: Vec<String> = values.iter().map(|v| GrugValue(v.clone()).id()).collect();
    for i in 0..ids.len() {
        assert_eq!(ids[i].len(), 4 * ((values[i].len() + 2) / 3));
        assert!(ids[i].chars().all(|c| c.is_ascii_alphanumeric() || c == '+' || c == '/' || c == '='));
        for j in (i + 1)..ids.len() {
            assert_ne!(ids[i], ids[j]);
        }
    }
}

#[test]
fn round_and_nil_or_val() {
    assert_eq!(Round::new(3), Round::Defined(3));
    assert!(Round::Nil < Round::Defined(0));
    assert!(Round::Defined(1) < Round::Defined(2));
    assert_eq!(NilOrVal::<u8>::Nil.into_option(), None);
    assert_eq!(NilOrVal::Val(4u8).into_option(), Some(4));
    assert_eq!(NilOrVal::from_option(Some(9u8)), NilOrVal::Val(9));
    assert_eq!(NilOrVal::<u8>::from_option(None), NilOrVal::Nil);
    let x = NilOrVal::Val("id".to_string());
    assert_eq!(NilOrVal::from_option(x.clone().into_option()), x);
}

#[test]
fn extension_and_part() {
    let ext = GrugExtension { height: GrugHeight(2), data: vec![1, 2, 3, 4] };
    assert_eq!(ext.size_bytes(), 4);
    let part = GrugProposalPart { height: GrugHeight(1), value_part: vec![] };
    assert!(part.is_first());
    assert!(part.is_last());
}

#[test]
fn validator_getters() {
    let v = validator("val", 7);
    assert_eq!(v.address(), &addr("val"));
    assert_eq!(v.voting_power(), 7);
    assert_eq!(v.public_key(), &vec![1, 2]);
}

#[test]
fn validator_set_queries() {
    let set = vec![validator("a", 3), validator("b", 4), validator("a", 5)];
    assert_eq!(set.count(), 3);
    assert_eq!(set.total_voting_power(), 12);
    assert_eq!(set.get_by_address(&addr("a")).unwrap().voting_power, 3);
    assert_eq!(set.get_by_address(&addr("b")).unwrap().voting_power, 4);
    assert!(set.get_by_address(&addr("c")).is_none());
    assert_eq!(set.get_by_index(2).unwrap().voting_power, 5);
    assert!(set.get_by_index(3).is_none());
    let empty: Vec<GrugValidator> = vec![];
    assert_eq!(empty.count(), 0);
    assert_eq!(empty.total_voting_power(), 0);
    assert!(empty.get_by_index(0).is_none());
}

#[test]
fn context_builds_messages() {
    let ctx = GrugContext;
    let set = vec![validator("first", 1), validator("second", 2)];
    assert_eq!(ctx.select_proposer(&set, GrugHeight(9), Round::new(4)).address, addr("first"));

    let p = ctx.new_proposal(GrugHeight(3), Round::new(1), GrugValue(vec![9]), Round::Nil, addr("p"));
    assert_eq!(p.height(), GrugHeight(3));
    assert_eq!(p.round(), Round::Defined(1));
    assert_eq!(p.value(), &GrugValue(vec![9]));
    assert_eq!(p.pol_round(), Round::Defined(0));
    assert_eq!(p.validator_address(), &addr("p"));
    assert_eq!(p.take_value(), GrugValue(vec![9]));

    let pv = ctx.new_prevote(GrugHeight(3), Round::new(1), NilOrVal::Val("x".to_string()), addr("v"));
    assert_eq!(pv.vote_type(), VoteType::Prevote);
    assert!(pv.extension().is_none());
    assert_eq!(pv.value(), &NilOrVal::Val("x".to_string()));
    let pc = ctx.new_precommit(GrugHeight(3), Round::new(1), NilOrVal::Nil, addr("v"));
    assert_eq!(pc.vote_type(), VoteType::Precommit);
    assert_eq!(pc.height(), GrugHeight(3));
    assert_eq!(pc.round(), Round::Defined(1));
    assert_eq!(pc.validator_address(), &addr("v"));
    assert_eq!(pc.take_value(), NilOrVal::Nil);
}

#[test]
fn defaults() {
    let p = GrugProposal::default();
    assert_eq!(p.height, GrugHeight(0));
    assert_eq!(p.round, Round::Defined(0));
    assert_eq!(p.value, GrugValue(vec![]));
    assert_eq!(p.proposer, addr("default"));
    let v = GrugVote::default();
    assert_eq!(v.height, GrugHeight(0));
    assert_eq!(v.round, Round::Defined(0));
    assert_eq!(v.value_id, NilOrVal::Nil);
    assert_eq!(v.voter, addr("default"));
    assert_eq!(v.vote_type, VoteType::Prevote);
    assert!(v.extension.is_none());
}

#[test]
fn extend_then_take_law() {
    let ext = SignedMessage::new(GrugExtension { height: GrugHeight(1), data: vec![7] }, vec![3]);
    let vote = GrugContext.new_precommit(GrugHeight(1), Round::new(0), NilOrVal::Nil, addr("v"));
    let mut extended = vote.clone().extend(ext.clone());
    assert_eq!(extended.extension(), Some(&ext));
    let taken = extended.take_extension();
    assert_eq!(taken, Some(ext.clone()));
    assert_eq!(extended, vote);
    assert_eq!(extended.take_extension(), None);
    let replaced = vote.extend(ext.clone()).extend(SignedMessage::new(ext.message.clone(), vec![]));
    assert_eq!(replaced.extension().unwrap().signature, Vec::<u8>::new());
}

#[test]
fn signature_encoding_roundtrip() {
    let sig = vec![4u8, 5, 6];
    let bytes = Ed25519SigningScheme::encode_signature(&sig);
    assert_eq!(bytes, sig);
    assert_eq!(Ed25519SigningScheme::decode_signature(&bytes), Ok(sig));
    assert_eq!(Ed25519SigningScheme::decode_signature(&[]), Ok(vec![]));
}
