//! Building a transaction, the two hashes that its signers sign, and the
//! attachment of signatures and fee terms.
//!
//! The operations are meant to run in this order: `build_tx`,
//! `get_sign_bytes`, `attach_raw_signatures`, `attach_fee`,
//! `get_wrapper_sign_bytes`, `attach_fee_signature`. Nothing here checks a
//! signature: a wrong order or a wrong signature yields a transaction that
//! the ledger rejects.
use vstd::prelude::*;
use crate::encoding::le;
use crate::hash::{sha256_of, Digest};
use crate::tx::{
    authorization_hash, enc_hashes, raw_header_hash_of, section_hash, sechashes_of,
    sechashes_parts, user_sections, Authorization, DenominatedAmount, Fee, Header, PublicKey,
    Section, Signature, Signer, Tx, TxType, WrapperTx,
};

verus! {

/// Generic arguments required to construct a transaction.
#[derive(Clone, Debug, PartialEq, Eq)]
pub struct GlobalArgs {
    pub expiration: Option<u64>,
    pub code_hash: Digest,
    pub chain_id: String,
}

/// What the inner signer signs: the raw header hash alone.
pub open spec fn inner_target_of(t: Tx) -> Seq<Digest> {
    seq![raw_header_hash_of(t.header)]
}

/// The bytes of an unsigned authorization over `targets`: an empty list of
/// public keys and no signatures.
pub open spec fn partial_auth_bytes(targets: Seq<Digest>) -> Seq<u8> {
    enc_hashes(targets) + seq![1u8] + le(0, 4) + le(0, 4)
}

/// What the wrapper signer signs: the hash of an unsigned authorization over
/// the section hashes.
pub open spec fn wrapper_target_of(t: Tx) -> Digest {
    sha256_of(partial_auth_bytes(sechashes_of(t)))
}

/// A transaction as `build_tx` makes it.
pub open spec fn built(args: GlobalArgs, data: Vec<u8>, code_tag: String, timestamp: u64, t: Tx) -> bool {
    let code = Section::Code { hash: args.code_hash, tag: Some(code_tag) };
    let data = Section::Data(data);
    &&& t.sections@ == seq![code, data]
    &&& t.header.chain_id == args.chain_id
    &&& t.header.expiration == args.expiration
    &&& t.header.timestamp == timestamp
    &&& t.header.code_hash == crate::tx::section_hash_of(code)
    &&& t.header.data_hash == crate::tx::section_hash_of(data)
    &&& t.header.tx_type == TxType::Raw
}

/// `s` is an authorization by the single key `pk`, with `sig` under index 0,
/// over `targets`.
pub open spec fn is_single_sig_auth(s: Section, targets: Seq<Digest>, pk: PublicKey, sig: Signature) -> bool {
    match s {
        Section::Authorization(a) => {
            &&& a.targets@ == targets
            &&& a.signer matches Signer::PubKeys(ks) && ks@ == seq![pk]
            &&& a.signatures@ == seq![(0u8, sig)]
        },
        _ => false,
    }
}

/// `after` is `before` with the protocol sections removed and an
/// authorization over `targets` appended.
pub open spec fn appended_auth(
    before: Tx,
    targets: Seq<Digest>,
    pk: PublicKey,
    sig: Signature,
    after: Tx,
) -> bool {
    &&& after.header == before.header
    &&& after.sections@.len() == user_sections(before.sections@).len() + 1
    &&& after.sections@.drop_last() == user_sections(before.sections@)
    &&& is_single_sig_auth(after.sections@.last(), targets, pk, sig)
}

/// `after` is `before` signed by the inner signer.
pub open spec fn inner_signed(before: Tx, pk: PublicKey, sig: Signature, after: Tx) -> bool {
    appended_auth(before, inner_target_of(before), pk, sig, after)
}

/// The section hashes of `t` once its protocol sections are removed.
pub open spec fn user_sechashes_of(t: Tx) -> Seq<Digest> {
    sechashes_parts(t.header, user_sections(t.sections@))
}

/// `after` is `before` signed by the wrapper signer.
pub open spec fn wrapper_signed(before: Tx, pk: PublicKey, sig: Signature, after: Tx) -> bool {
    appended_auth(before, user_sechashes_of(before), pk, sig, after)
}

/// `after` is `before` with the given fee terms in its header, all else kept.
pub open spec fn fee_attached(
    before: Tx,
    fee: DenominatedAmount,
    token: String,
    fee_payer: PublicKey,
    gas_limit: u64,
    after: Tx,
) -> bool {
    &&& after.sections == before.sections
    &&& after.header.chain_id == before.header.chain_id
    &&& after.header.expiration == before.header.expiration
    &&& after.header.timestamp == before.header.timestamp
    &&& after.header.code_hash == before.header.code_hash
    &&& after.header.data_hash == before.header.data_hash
    &&& after.header.tx_type == TxType::Wrapper(
        WrapperTx { fee: Fee { amount_per_gas_unit: fee, token }, pk: fee_payer, gas_limit },
    )
}

/// Builds a bare transaction stamped with `timestamp`: a code section that
/// refers to `args.code_hash` under `code_tag`, then a data section holding
/// the serialized payload, both committed to by the header.
pub fn build_tx(args: GlobalArgs, data: Vec<u8>, code_tag: String, timestamp: u64) -> (r: Tx)
    ensures
        built(args, data, code_tag, timestamp, r),
{
    let GlobalArgs { expiration, code_hash, chain_id } = args;
    let code = Section::Code { hash: code_hash, tag: Some(code_tag) };
    let data = Section::Data(data);
    let code_digest = section_hash(&code);
    let data_digest = section_hash(&data);
    let ghost expected = seq![code, data];
    let mut sections: Vec<Section> = Vec::new();
    sections.push(code);
    sections.push(data);
    assert(sections@ =~= expected);
    Tx {
        header: Header {
            chain_id,
            expiration,
            timestamp,
            code_hash: code_digest,
            data_hash: data_digest,
            tx_type: TxType::Raw,
        },
        sections,
    }
}

/// The hashes that the inner signer signs: the raw header hash alone.
pub fn get_sign_bytes(tx: &Tx) -> (r: Vec<Digest>)
    ensures
        r@ == inner_target_of(*tx),
{
    let mut r: Vec<Digest> = Vec::new();
    r.push(tx.raw_header_hash());
    r
}

/// The hash that the wrapper signer signs: that of an unsigned authorization
/// whose targets are the transaction's section hashes.
pub fn get_wrapper_sign_bytes(tx: &Tx) -> (r: Digest)
    ensures
        r == wrapper_target_of(*tx),
{
    let targets = tx.sechashes();
    let partial = Authorization {
        targets,
        signer: Signer::PubKeys(Vec::new()),
        signatures: Vec::new(),
    };
    let r = authorization_hash(&partial);
    assert(crate::tx::enc_auth(partial) =~= partial_auth_bytes(sechashes_of(*tx)));
    r
}

/// An authorization by one key, its signature under index 0.
fn single_sig_auth(targets: Vec<Digest>, signer: PublicKey, signature: Signature) -> (r: Section)
    ensures
        is_single_sig_auth(r, targets@, signer, signature),
{
    let mut keys: Vec<PublicKey> = Vec::new();
    keys.push(signer);
    let mut signatures: Vec<(u8, Signature)> = Vec::new();
    signatures.push((0u8, signature));
    assert(keys@ =~= seq![signer]);
    assert(signatures@ =~= seq![(0u8, signature)]);
    Section::Authorization(Authorization { targets, signer: Signer::PubKeys(keys), signatures })
}

/// Removes the protocol sections and appends the inner signer's
/// authorization over the raw header hash.
pub fn attach_raw_signatures(tx: Tx, signer: PublicKey, signature: Signature) -> (r: Tx)
    ensures
        inner_signed(tx, signer, signature, r),
{
    let ghost before = tx;
    let mut t = tx;
    t.protocol_filter();
    let targets = get_sign_bytes(&t);
    t.add_section(single_sig_auth(targets, signer, signature));
    assert(t.sections@.drop_last() =~= user_sections(before.sections@));
    t
}

/// Records the fee terms in the header, which makes the transaction a
/// wrapped one. Neither the fee nor the gas limit is checked here.
pub fn attach_fee(
    tx: Tx,
    fee: DenominatedAmount,
    token: String,
    fee_payer: PublicKey,
    gas_limit: u64,
) -> (r: Tx)
    ensures
        fee_attached(tx, fee, token, fee_payer, gas_limit, r),
{
    let mut t = tx;
    t.header.tx_type = TxType::Wrapper(
        WrapperTx { fee: Fee { amount_per_gas_unit: fee, token }, pk: fee_payer, gas_limit },
    );
    t
}

/// Removes the protocol sections and appends the wrapper signer's
/// authorization over the section hashes.
pub fn attach_fee_signature(tx: Tx, signer: PublicKey, signature: Signature) -> (r: Tx)
    ensures
        wrapper_signed(tx, signer, signature, r),
{
    let ghost before = tx;
    let mut t = tx;
    t.protocol_filter();
    let targets = t.sechashes();
    t.add_section(single_sig_auth(targets, signer, signature));
    assert(t.sections@.drop_last() =~= user_sections(before.sections@));
    t
}

} // verus!
