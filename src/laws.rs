//! What holds across the operations of `transaction`: how the two signing
//! targets relate to the sections they commit to.
use vstd::prelude::*;
use crate::encoding::{le, lemma_le_injective, lemma_le_len};
use vstd::arithmetic::power::pow;
use crate::hash::{sha256_of, Digest};
use crate::transaction::{
    built, fee_attached, inner_signed, inner_target_of, is_single_sig_auth, partial_auth_bytes,
    wrapper_signed, wrapper_target_of, GlobalArgs,
};
use crate::tx::{
    enc_header, enc_header_core, flat_hashes, is_user_section, raw_header_hash_of, section_hash_of,
    sechashes_of, sechashes_parts, user_pred, user_sections, DenominatedAmount, PublicKey,
    Section, Signature, Tx,
};

verus! {

/// No section of `s` is reserved to the protocol.
pub open spec fn all_user_sections(s: Seq<Section>) -> bool {
    forall|i: int| 0 <= i < s.len() ==> is_user_section(#[trigger] s[i])
}

proof fn lemma_user_sections_keep_all(s: Seq<Section>)
    requires
        all_user_sections(s),
    ensures
        user_sections(s) == s,
    decreases s.len(),
{
    reveal(Seq::filter);
    if s.len() > 0 {
        lemma_user_sections_keep_all(s.drop_last());
        s.drop_last().lemma_filter_push(s.last(), user_pred());
        assert(s.drop_last().push(s.last()) =~= s);
    } else {
        assert(user_sections(s) =~= s);
    }
}

proof fn lemma_user_sections_all_user(s: Seq<Section>)
    ensures
        all_user_sections(user_sections(s)),
{
    s.filter_lemma(user_pred());
}

proof fn lemma_flat_hashes_len(s: Seq<Digest>)
    ensures
        flat_hashes(s).len() == 32 * s.len(),
    decreases s.len(),
{
    if s.len() > 0 {
        lemma_flat_hashes_len(s.drop_last());
    }
}

/// Equal byte layouts of two equally long lists of hashes hold equal hashes.
proof fn lemma_flat_hashes_injective(a: Seq<Digest>, b: Seq<Digest>)
    requires
        a.len() == b.len(),
        flat_hashes(a) == flat_hashes(b),
    ensures
        a == b,
    decreases a.len(),
{
    if a.len() > 0 {
        let n = a.len() - 1;
        lemma_flat_hashes_len(a.drop_last());
        lemma_flat_hashes_len(b.drop_last());
        assert(flat_hashes(a).subrange(0, 32 * n) =~= flat_hashes(a.drop_last()));
        assert(flat_hashes(b).subrange(0, 32 * n) =~= flat_hashes(b.drop_last()));
        lemma_flat_hashes_injective(a.drop_last(), b.drop_last());
        assert(flat_hashes(a).subrange(32 * n, 32 * n + 32) =~= a.last()@);
        assert(flat_hashes(b).subrange(32 * n, 32 * n + 32) =~= b.last()@);
        assert(a.last()@ == b.last()@);
        assert(forall|i: int| 0 <= i < 32 ==> a.last()@[i] == b.last()@[i]);
        assert(a.last() =~= b.last());
        assert(a =~= a.drop_last().push(a.last()));
        assert(b =~= b.drop_last().push(b.last()));
    } else {
        assert(a =~= b);
    }
}

proof fn lemma_partial_auth_bytes_len(targets: Seq<Digest>)
    ensures
        partial_auth_bytes(targets).len() == 32 * targets.len() + 13,
{
    lemma_flat_hashes_len(targets);
    lemma_le_len(targets.len(), 4);
    lemma_le_len(0, 4);
}

/// A built transaction holds a code and a data section and nothing else.
pub proof fn built_has_code_and_data(args: GlobalArgs, data: Vec<u8>, code_tag: String, timestamp: u64, t: Tx)
    requires
        built(args, data, code_tag, timestamp, t),
    ensures
        t.sections@.len() == 2,
        t.sections@[0] is Code,
        t.sections@[1] is Data,
        all_user_sections(t.sections@),
{
}

/// The inner signing target of any transaction is exactly one hash, its raw
/// header hash, and recomputing it on the same transaction gives the same
/// target.
pub proof fn inner_target_is_one_hash(t1: Tx, t2: Tx)
    requires
        t1 == t2,
    ensures
        inner_target_of(t1).len() == 1,
        inner_target_of(t1)[0] == raw_header_hash_of(t1.header),
        inner_target_of(t1) == inner_target_of(t2),
{
}

/// Attaching an inner signature does not change the inner signing target.
pub proof fn inner_signature_keeps_inner_target(before: Tx, pk: PublicKey, sig: Signature, after: Tx)
    requires
        inner_signed(before, pk, sig, after),
    ensures
        inner_target_of(after) == inner_target_of(before),
{
}

/// Attaching fee terms does not change the inner signing target: the raw
/// header hash leaves the fee terms out.
pub proof fn fee_keeps_inner_target(
    before: Tx,
    fee: DenominatedAmount,
    token: String,
    fee_payer: PublicKey,
    gas_limit: u64,
    after: Tx,
)
    requires
        fee_attached(before, fee, token, fee_payer, gas_limit, after),
    ensures
        inner_target_of(after) == inner_target_of(before),
{
    assert(crate::tx::enc_raw_header(after.header) =~= crate::tx::enc_raw_header(before.header));
}

/// What the wrapper target hashes changes exactly when the list of section
/// hashes changes; equal lists give equal wrapper targets. (That distinct
/// inputs give distinct SHA-256 digests is not something a proof can show.)
pub proof fn wrapper_preimage_tracks_sechashes(t1: Tx, t2: Tx)
    ensures
        partial_auth_bytes(sechashes_of(t1)) == partial_auth_bytes(sechashes_of(t2))
            <==> sechashes_of(t1) == sechashes_of(t2),
        sechashes_of(t1) == sechashes_of(t2) ==> wrapper_target_of(t1) == wrapper_target_of(t2),
{
    let a = sechashes_of(t1);
    let b = sechashes_of(t2);
    if partial_auth_bytes(a) == partial_auth_bytes(b) {
        lemma_partial_auth_bytes_len(a);
        lemma_partial_auth_bytes_len(b);
        lemma_le_len(a.len(), 4);
        lemma_le_len(b.len(), 4);
        lemma_flat_hashes_len(a);
        lemma_flat_hashes_len(b);
        assert(a.len() == b.len());
        let fa = flat_hashes(a);
        let fb = flat_hashes(b);
        assert(partial_auth_bytes(a).subrange(4, 4 + fa.len() as int) =~= fa);
        assert(partial_auth_bytes(b).subrange(4, 4 + fb.len() as int) =~= fb);
        lemma_flat_hashes_injective(a, b);
    }
}

/// Fee terms that differ in the amount per gas unit give different header
/// bytes, so the header hash that heads the section hashes is taken over
/// different inputs.
pub proof fn fee_amount_changes_header_bytes(
    before: Tx,
    fee1: DenominatedAmount,
    fee2: DenominatedAmount,
    token: String,
    fee_payer: PublicKey,
    gas_limit: u64,
    t1: Tx,
    t2: Tx,
)
    requires
        fee_attached(before, fee1, token, fee_payer, gas_limit, t1),
        fee_attached(before, fee2, token, fee_payer, gas_limit, t2),
        fee1.amount != fee2.amount,
    ensures
        enc_header(t1.header) != enc_header(t2.header),
{
    if enc_header(t1.header) == enc_header(t2.header) {
        let core = enc_header_core(t1.header);
        assert(enc_header_core(t2.header) =~= core);
        let k = core.len() as int;
        let a1 = fee1.amount as nat;
        let a2 = fee2.amount as nat;
        lemma_le_len(a1, 16);
        lemma_le_len(a2, 16);
        assert(enc_header(t1.header).subrange(k + 1, k + 17) =~= le(a1, 16));
        assert(enc_header(t2.header).subrange(k + 1, k + 17) =~= le(a2, 16));
        reveal_with_fuel(pow, 17);
        assert(pow(256, 16) == 0x1_0000_0000_0000_0000_0000_0000_0000_0000nat);
        lemma_le_injective(a1, a2, 16);
    }
}

/// Appending a section to a transaction changes its section hashes, and so
/// what its wrapper target hashes.
pub proof fn added_section_changes_sechashes(t1: Tx, t2: Tx)
    requires
        t2.header == t1.header,
        t2.sections@.len() == t1.sections@.len() + 1,
        t2.sections@.drop_last() == t1.sections@,
    ensures
        sechashes_of(t2) == sechashes_of(t1).push(section_hash_of(t2.sections@.last())),
        partial_auth_bytes(sechashes_of(t1)) != partial_auth_bytes(sechashes_of(t2)),
{
    assert(sechashes_of(t2) =~= sechashes_of(t1).push(section_hash_of(t2.sections@.last())));
    lemma_partial_auth_bytes_len(sechashes_of(t1));
    lemma_partial_auth_bytes_len(sechashes_of(t2));
}

/// Signing keeps a transaction free of protocol sections.
proof fn lemma_signed_all_user(
    before: Tx,
    targets: Seq<Digest>,
    pk: PublicKey,
    sig: Signature,
    after: Tx,
)
    requires
        crate::transaction::appended_auth(before, targets, pk, sig, after),
    ensures
        all_user_sections(after.sections@),
{
    lemma_user_sections_all_user(before.sections@);
    assert(after.sections@ =~= after.sections@.drop_last().push(after.sections@.last()));
    assert forall|i: int| 0 <= i < after.sections@.len() implies is_user_section(
        #[trigger] after.sections@[i],
    ) by {
        if i < after.sections@.len() - 1 {
            assert(after.sections@[i] == after.sections@.drop_last()[i]);
        }
    }
}

/// Round trip: once a transaction has been built, signed by the inner
/// signer, given fee terms and signed by the wrapper signer, both signed
/// targets are recomputed from the final transaction alone. The inner
/// authorization's target is the final raw header hash, and the unsigned
/// authorization over the section hashes of all sections but the last hashes
/// to the wrapper target that was signed.
pub proof fn signed_targets_recomputable(
    args: GlobalArgs,
    data: Vec<u8>,
    code_tag: String,
    timestamp: u64,
    c0: Tx,
    inner_pk: PublicKey,
    inner_sig: Signature,
    c1: Tx,
    fee: DenominatedAmount,
    token: String,
    fee_payer: PublicKey,
    gas_limit: u64,
    c2: Tx,
    wrapper_pk: PublicKey,
    wrapper_sig: Signature,
    c3: Tx,
)
    requires
        built(args, data, code_tag, timestamp, c0),
        inner_signed(c0, inner_pk, inner_sig, c1),
        fee_attached(c1, fee, token, fee_payer, gas_limit, c2),
        wrapper_signed(c2, wrapper_pk, wrapper_sig, c3),
    ensures
        c3.sections@.len() == 4,
        is_single_sig_auth(c3.sections@[2], inner_target_of(c3), inner_pk, inner_sig),
        inner_target_of(c3) == inner_target_of(c0),
        is_single_sig_auth(
            c3.sections@[3],
            sechashes_parts(c3.header, c3.sections@.drop_last()),
            wrapper_pk,
            wrapper_sig,
        ),
        sha256_of(partial_auth_bytes(sechashes_parts(c3.header, c3.sections@.drop_last())))
            == wrapper_target_of(c2),
{
    lemma_user_sections_keep_all(c0.sections@);
    lemma_signed_all_user(c0, inner_target_of(c0), inner_pk, inner_sig, c1);
    lemma_user_sections_keep_all(c1.sections@);
    lemma_user_sections_keep_all(c2.sections@);
    fee_keeps_inner_target(c1, fee, token, fee_payer, gas_limit, c2);
    assert(c3.sections@[2] == c1.sections@[2]);
}

/// Two inner signatures attached before the fee terms are both committed to
/// by the section hashes, and what the wrapper target hashes differs from
/// that of the same transaction with only the first inner signature.
pub proof fn two_inner_signatures_both_committed(
    c0: Tx,
    pk1: PublicKey,
    sig1: Signature,
    c1: Tx,
    pk2: PublicKey,
    sig2: Signature,
    c2: Tx,
    fee: DenominatedAmount,
    token: String,
    fee_payer: PublicKey,
    gas_limit: u64,
    w1: Tx,
    w2: Tx,
)
    requires
        all_user_sections(c0.sections@),
        inner_signed(c0, pk1, sig1, c1),
        inner_signed(c1, pk2, sig2, c2),
        fee_attached(c1, fee, token, fee_payer, gas_limit, w1),
        fee_attached(c2, fee, token, fee_payer, gas_limit, w2),
    ensures
        sechashes_of(w2).len() == sechashes_of(w1).len() + 1,
        sechashes_of(w2)[c0.sections@.len() + 1 as int] == section_hash_of(c1.sections@.last()),
        sechashes_of(w2)[c0.sections@.len() + 2 as int] == section_hash_of(c2.sections@.last()),
        is_single_sig_auth(c2.sections@[c0.sections@.len() as int], inner_target_of(c0), pk1, sig1),
        is_single_sig_auth(c2.sections@.last(), inner_target_of(c0), pk2, sig2),
        partial_auth_bytes(sechashes_of(w1)) != partial_auth_bytes(sechashes_of(w2)),
{
    lemma_user_sections_keep_all(c0.sections@);
    lemma_signed_all_user(c0, inner_target_of(c0), pk1, sig1, c1);
    lemma_user_sections_keep_all(c1.sections@);
    assert(w2.header == w1.header);
    added_section_changes_sechashes(w1, w2);
    assert(c2.sections@[c0.sections@.len() as int] == c1.sections@.last());
}

} // verus!
