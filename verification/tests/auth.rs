use grug_app::auth::{
    ClientData, Credential, Eip712Signature, Key, Metadata, PasskeySignature, QueryMsg,
};

#[test]
fn auth_data() {
    let k = Key::Secp256k1([2u8; 33]);
    let copied = k;
    assert_eq!(k, copied);
    assert_ne!(Key::Secp256r1([2u8; 33]), k);
    let passkey = Credential::Passkey(PasskeySignature {
        authenticator_data: vec![1],
        client_data: vec![2],
        sig: [0u8; 64],
    });
    assert_ne!(passkey, Credential::Secp256k1([0u8; 64]));
    let eip = Credential::Eip712(Eip712Signature { typed_data: vec![], sig: [1u8; 64] });
    assert_eq!(eip.clone(), eip);
    let meta = Metadata { username: "alice".to_string(), key_hash: [0u8; 20], sequence: 3 };
    assert_eq!(meta.sequence, 3);
    let cd = ClientData {
        ty: "webauthn.get".to_string(),
        challenge: "abc".to_string(),
        origin: "https://example.org".to_string(),
        cross_origin: false,
    };
    assert_eq!(cd.ty, "webauthn.get");
    assert_eq!(QueryMsg::SeenNonces {}, QueryMsg::SeenNonces {});
}
