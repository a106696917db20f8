use light_sdk::encoding::{put_le, put_str};
use light_sdk::transaction::{
    attach_fee, attach_fee_signature, attach_raw_signatures, build_tx, get_sign_bytes,
    get_wrapper_sign_bytes, GlobalArgs,
};
use light_sdk::tx::{
    authorization_hash, section_hash, Authorization, DenominatedAmount, Section, Signer, Tx,
    TxType,
};
use sha2::Digest as _;

fn args(chain: &str) -> GlobalArgs {
    GlobalArgs {
        expiration: None,
        code_hash: [7u8; 32],
        chain_id: chain.to_string(),
    }
}

fn payload(s: &str) -> Vec<u8> {
    borsh::to_vec(&s.to_string()).unwrap()
}

fn fresh() -> Tx {
    build_tx(args("test-chain"), payload("transfer:A->B:100"), "transfer".to_string(), 1_700_000_000)
}

fn auths(tx: &Tx) -> Vec<&Authorization> {
    tx.sections
        .iter()
        .filter_map(|s| match s {
            Section::Authorization(a) => Some(a),
            _ => None,
        })
        .collect()
}

fn sha(b: &[u8]) -> [u8; 32] {
    sha2::Sha256::digest(b).into()
}

fn nam() -> DenominatedAmount {
    DenominatedAmount { amount: 10, denom: 0 }
}

#[test]
fn scenario_full_signing_flow() {
    let k1 = vec![1u8; 33];
    let k2 = vec![2u8; 33];
    let tx = fresh();
    assert_eq!(tx.sections.len(), 2);
    assert!(matches!(&tx.sections[0], Section::Code { hash, tag } if *hash == [7u8; 32] && tag.as_deref() == Some("transfer")));
    assert_eq!(tx.sections[1], Section::Data(payload("transfer:A->B:100")));
    assert_eq!(auths(&tx).len(), 0);
    assert_eq!(tx.header.tx_type, TxType::Raw);
    assert_eq!(tx.header.chain_id, "test-chain");

    let inner = get_sign_bytes(&tx);
    assert_eq!(inner, vec![tx.raw_header_hash()]);
    let tx = attach_raw_signatures(tx, k1.clone(), vec![0xAA; 64]);
    let a = auths(&tx);
    assert_eq!(a.len(), 1);
    assert_eq!(a[0].targets, inner);
    assert_eq!(a[0].signer, Signer::PubKeys(vec![k1.clone()]));
    assert_eq!(a[0].signatures, vec![(0u8, vec![0xAA; 64])]);

    let tx = attach_fee(tx, nam(), "NAM".to_string(), k2.clone(), 1000);
    match &tx.header.tx_type {
        TxType::Wrapper(w) => {
            assert_eq!(w.fee.amount_per_gas_unit, nam());
            assert_eq!(w.fee.token, "NAM");
            assert_eq!(w.pk, k2);
            assert_eq!(w.gas_limit, 1000);
        }
        TxType::Raw => panic!("fee terms missing"),
    }

    let wrapper = get_wrapper_sign_bytes(&tx);
    let covered = tx.sechashes();
    assert_eq!(covered.len(), 4);
    let tx = attach_fee_signature(tx, k2.clone(), vec![0xBB; 64]);
    let a = auths(&tx);
    assert_eq!(a.len(), 2);
    assert_eq!(a[1].targets, covered);
    assert_eq!(a[1].signer, Signer::PubKeys(vec![k2]));
    let partial = Authorization { targets: covered, signer: Signer::PubKeys(vec![]), signatures: vec![] };
    assert_eq!(authorization_hash(&partial), wrapper);
}

#[test]
fn inner_target_is_single_and_deterministic() {
    let tx = fresh();
    let a = get_sign_bytes(&tx);
    let b = get_sign_bytes(&tx);
    assert_eq!(a.len(), 1);
    assert_eq!(a, b);
}

#[test]
fn inner_target_ignores_authorizations_and_fee() {
    let tx = fresh();
    let before = get_sign_bytes(&tx);
    let tx = attach_raw_signatures(tx, vec![1; 33], vec![3; 64]);
    assert_eq!(get_sign_bytes(&tx), before);
    let tx = attach_fee(tx, nam(), "NAM".to_string(), vec![2; 33], 1000);
    assert_eq!(get_sign_bytes(&tx), before);
}

#[test]
fn inner_target_depends_on_timestamp_and_payload() {
    let a = get_sign_bytes(&build_tx(args("c"), payload("x"), "t".to_string(), 1));
    let b = get_sign_bytes(&build_tx(args("c"), payload("x"), "t".to_string(), 2));
    let c = get_sign_bytes(&build_tx(args("c"), payload("y"), "t".to_string(), 1));
    assert_ne!(a, b);
    assert_ne!(a, c);
}

#[test]
fn wrapper_target_changes_with_sections_and_fee() {
    let signed = attach_raw_signatures(fresh(), vec![1; 33], vec![3; 64]);
    let w = get_wrapper_sign_bytes(&attach_fee(signed.clone(), nam(), "NAM".to_string(), vec![2; 33], 1000));
    let same = get_wrapper_sign_bytes(&attach_fee(signed.clone(), nam(), "NAM".to_string(), vec![2; 33], 1000));
    assert_eq!(w, same);
    let other_fee = DenominatedAmount { amount: 11, denom: 0 };
    let w_fee = get_wrapper_sign_bytes(&attach_fee(signed.clone(), other_fee, "NAM".to_string(), vec![2; 33], 1000));
    assert_ne!(w, w_fee);
    let twice = attach_raw_signatures(signed, vec![4; 33], vec![5; 64]);
    let w_more = get_wrapper_sign_bytes(&attach_fee(twice, nam(), "NAM".to_string(), vec![2; 33], 1000));
    assert_ne!(w, w_more);
}

#[test]
fn round_trip_recomputes_both_targets() {
    let tx = fresh();
    let inner = get_sign_bytes(&tx);
    let tx = attach_raw_signatures(tx, vec![1; 33], vec![3; 64]);
    let tx = attach_fee(tx, nam(), "NAM".to_string(), vec![2; 33], 1000);
    let wrapper = get_wrapper_sign_bytes(&tx);
    let done = attach_fee_signature(tx, vec![2; 33], vec![4; 64]);

    let a = auths(&done);
    assert_eq!(a[0].targets, get_sign_bytes(&done));
    assert_eq!(a[0].targets, inner);
    let mut rest = done.clone();
    rest.sections.pop();
    assert_eq!(a[1].targets, rest.sechashes());
    assert_eq!(get_wrapper_sign_bytes(&rest), wrapper);
}

#[test]
fn two_inner_signatures_are_both_covered() {
    let one = attach_raw_signatures(fresh(), vec![1; 33], vec![3; 64]);
    let two = attach_raw_signatures(one.clone(), vec![9; 33], vec![8; 64]);
    assert_eq!(auths(&two).len(), 2);
    assert_eq!(auths(&two)[1].targets, get_sign_bytes(&one));
    let w1 = attach_fee(one, nam(), "NAM".to_string(), vec![2; 33], 1000);
    let w2 = attach_fee(two, nam(), "NAM".to_string(), vec![2; 33], 1000);
    let h1 = w1.sechashes();
    let h2 = w2.sechashes();
    assert_eq!(h2.len(), h1.len() + 1);
    assert_eq!(h2[3], h1[3]);
    assert_eq!(h2[4], section_hash(&w2.sections[3]));
    assert_ne!(get_wrapper_sign_bytes(&w1), get_wrapper_sign_bytes(&w2));
}

#[test]
fn protocol_sections_are_removed_before_signing() {
    let mut tx = fresh();
    tx.sections.push(Section::MaspBuilder(vec![1, 2, 3]));
    let inner = get_sign_bytes(&tx);
    let tx = attach_raw_signatures(tx, vec![1; 33], vec![3; 64]);
    assert_eq!(tx.sections.len(), 3);
    assert!(!tx.sections.iter().any(|s| matches!(s, Section::MaspBuilder(_))));
    assert_eq!(auths(&tx)[0].targets, inner);

    let mut tx = attach_fee(tx, nam(), "NAM".to_string(), vec![2; 33], 1000);
    let covered = tx.sechashes();
    tx.sections.insert(0, Section::MaspBuilder(vec![9]));
    let tx = attach_fee_signature(tx, vec![2; 33], vec![4; 64]);
    assert_eq!(tx.sections.len(), 4);
    assert_eq!(auths(&tx)[1].targets, covered);
}

#[test]
fn protocol_filter_keeps_user_sections_in_order() {
    let mut tx = fresh();
    tx.sections.insert(1, Section::MaspBuilder(vec![]));
    tx.sections.push(Section::MaspBuilder(vec![5]));
    tx.sections.push(Section::Data(vec![6]));
    tx.protocol_filter();
    let fresh_tx = fresh();
    assert_eq!(tx.sections.len(), 3);
    assert_eq!(tx.sections[0], fresh_tx.sections[0]);
    assert_eq!(tx.sections[1], fresh_tx.sections[1]);
    assert_eq!(tx.sections[2], Section::Data(vec![6]));
}

#[test]
fn data_section_hash_is_sha256_of_its_layout() {
    let h = section_hash(&Section::Data(b"abc".to_vec()));
    assert_eq!(h, sha(&[0, 3, 0, 0, 0, b'a', b'b', b'c']));
    assert_ne!(h, sha(b"abc"));
}

#[test]
fn sha256_known_digest_through_code_section() {
    let code = Section::Code { hash: [0u8; 32], tag: None };
    let mut bytes = vec![1u8];
    bytes.extend_from_slice(&[0u8; 32]);
    bytes.push(0);
    assert_eq!(section_hash(&code), sha(&bytes));
    let abc = hex_digest("ba7816bf8f01cfea414140de5dae2223b00361a396177a9cb410ff61f20015ad");
    assert_eq!(sha(b"abc"), abc);
}

fn hex_digest(s: &str) -> [u8; 32] {
    let mut r = [0u8; 32];
    for i in 0..32 {
        r[i] = u8::from_str_radix(&s[2 * i..2 * i + 2], 16).unwrap();
    }
    r
}

#[test]
fn raw_header_hash_is_sha256_of_header_layout() {
    let tx = build_tx(
        GlobalArgs { expiration: Some(5), code_hash: [7u8; 32], chain_id: "c".to_string() },
        vec![],
        "t".to_string(),
        258,
    );
    let mut bytes = vec![1, 0, 0, 0, b'c'];
    bytes.extend_from_slice(&[1, 5, 0, 0, 0, 0, 0, 0, 0]);
    bytes.extend_from_slice(&[2, 1, 0, 0, 0, 0, 0, 0]);
    bytes.extend_from_slice(&tx.header.code_hash);
    bytes.extend_from_slice(&tx.header.data_hash);
    bytes.push(0);
    assert_eq!(tx.raw_header_hash(), sha(&bytes));
    assert_eq!(tx.header_hash(), tx.raw_header_hash());
    assert_eq!(tx.header.code_hash, section_hash(&tx.sections[0]));
    assert_eq!(tx.header.data_hash, section_hash(&tx.sections[1]));
    let wrapped = attach_fee(tx.clone(), nam(), "NAM".to_string(), vec![2; 33], 1000);
    assert_ne!(wrapped.header_hash(), tx.header_hash());
    assert_eq!(wrapped.raw_header_hash(), tx.raw_header_hash());
}

#[test]
fn layout_matches_borsh_for_strings_and_integers() {
    let mut out = Vec::new();
    put_str(&mut out, &"transfer:A->B:100".to_string());
    assert_eq!(out, borsh::to_vec(&"transfer:A->B:100".to_string()).unwrap());
    let mut out = Vec::new();
    put_le(&mut out, 0x0102_0304_0506_0708_090a_0b0c_0d0e_0f10u128, 16);
    assert_eq!(out, borsh::to_vec(&0x0102_0304_0506_0708_090a_0b0c_0d0e_0f10u128).unwrap());
    let mut out = Vec::new();
    put_str(&mut out, &"\u{e9}".to_string());
    assert_eq!(out, vec![2, 0, 0, 0, 0xc3, 0xa9]);
}
