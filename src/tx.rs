//! The transaction container: a header, an ordered list of sections, and the
//! hashes that commit to them.
use vstd::prelude::*;
use crate::encoding::{
    enc_bytes, enc_opt_str, enc_opt_u64, enc_str, le, opt_str_view, put_bytes, put_le,
    put_opt_str, put_opt_u64, put_str,
};
use crate::hash::{sha256, sha256_of, Digest};

verus! {

/// The encoded bytes of a public key.
pub type PublicKey = Vec<u8>;

/// The encoded bytes of a signature.
pub type Signature = Vec<u8>;

/// An amount with an explicit number of decimal places.
#[derive(Clone, Debug, PartialEq, Eq)]
pub struct DenominatedAmount {
    pub amount: u128,
    pub denom: u8,
}

/// What is paid per unit of gas, and in which token.
#[derive(Clone, Debug, PartialEq, Eq)]
pub struct Fee {
    pub amount_per_gas_unit: DenominatedAmount,
    pub token: String,
}

/// The fee terms that turn a bare transaction into a wrapped one.
#[derive(Clone, Debug, PartialEq, Eq)]
pub struct WrapperTx {
    pub fee: Fee,
    pub pk: PublicKey,
    pub gas_limit: u64,
}

/// Whether the transaction is bare or carries fee terms.
#[derive(Clone, Debug, PartialEq, Eq)]
pub enum TxType {
    Raw,
    Wrapper(WrapperTx),
}

/// The header: chain, timing, commitments to the code and data sections, and
/// the fee terms once attached.
#[derive(Clone, Debug, PartialEq, Eq)]
pub struct Header {
    pub chain_id: String,
    pub expiration: Option<u64>,
    pub timestamp: u64,
    pub code_hash: Digest,
    pub data_hash: Digest,
    pub tx_type: TxType,
}

/// Who signed an authorization.
#[derive(Clone, Debug, PartialEq, Eq)]
pub enum Signer {
    Address(String),
    PubKeys(Vec<PublicKey>),
}

/// Signatures by `signer`, each under a small index, over the hashes in
/// `targets`. A single signer signs under index 0.
#[derive(Clone, Debug, PartialEq, Eq)]
pub struct Authorization {
    pub targets: Vec<Digest>,
    pub signer: Signer,
    pub signatures: Vec<(u8, Signature)>,
}

/// A section of a transaction. `MaspBuilder` is reserved to the protocol and
/// never submitted by users.
#[derive(Clone, Debug, PartialEq, Eq)]
pub enum Section {
    Data(Vec<u8>),
    Code { hash: Digest, tag: Option<String> },
    Authorization(Authorization),
    MaspBuilder(Vec<u8>),
}

/// A transaction container.
#[derive(Clone, Debug, PartialEq, Eq)]
pub struct Tx {
    pub header: Header,
    pub sections: Vec<Section>,
}

// ---------------------------------------------------------------- layout

pub open spec fn flat_hashes(s: Seq<Digest>) -> Seq<u8>
    decreases s.len(),
{
    if s.len() == 0 {
        Seq::empty()
    } else {
        flat_hashes(s.drop_last()) + s.last()@
    }
}

/// A list of hashes: its length, then each hash's 32 bytes.
pub open spec fn enc_hashes(s: Seq<Digest>) -> Seq<u8> {
    le(s.len(), 4) + flat_hashes(s)
}

pub open spec fn enc_fee(f: Fee) -> Seq<u8> {
    le(f.amount_per_gas_unit.amount as nat, 16) + seq![f.amount_per_gas_unit.denom] + enc_str(
        f.token@,
    )
}

pub open spec fn enc_tx_type(t: TxType) -> Seq<u8> {
    match t {
        TxType::Raw => seq![0u8],
        TxType::Wrapper(w) => seq![1u8] + enc_fee(w.fee) + enc_bytes(w.pk@) + le(
            w.gas_limit as nat,
            8,
        ),
    }
}

/// Every field of the header but its type.
pub open spec fn enc_header_core(h: Header) -> Seq<u8> {
    enc_str(h.chain_id@) + enc_opt_u64(h.expiration) + le(h.timestamp as nat, 8) + h.code_hash@
        + h.data_hash@
}

pub open spec fn enc_header(h: Header) -> Seq<u8> {
    enc_header_core(h) + enc_tx_type(h.tx_type)
}

/// The header as it reads with its type set back to `Raw`.
pub open spec fn enc_raw_header(h: Header) -> Seq<u8> {
    enc_header_core(h) + seq![0u8]
}

pub open spec fn flat_keys(s: Seq<PublicKey>) -> Seq<u8>
    decreases s.len(),
{
    if s.len() == 0 {
        Seq::empty()
    } else {
        flat_keys(s.drop_last()) + enc_bytes(s.last()@)
    }
}

pub open spec fn enc_signer(s: Signer) -> Seq<u8> {
    match s {
        Signer::Address(a) => seq![0u8] + enc_str(a@),
        Signer::PubKeys(ks) => seq![1u8] + le(ks@.len(), 4) + flat_keys(ks@),
    }
}

pub open spec fn flat_sigs(s: Seq<(u8, Signature)>) -> Seq<u8>
    decreases s.len(),
{
    if s.len() == 0 {
        Seq::empty()
    } else {
        flat_sigs(s.drop_last()) + seq![s.last().0] + enc_bytes(s.last().1@)
    }
}

pub open spec fn enc_auth(a: Authorization) -> Seq<u8> {
    enc_hashes(a.targets@) + enc_signer(a.signer) + le(a.signatures@.len(), 4) + flat_sigs(
        a.signatures@,
    )
}

pub open spec fn enc_section(s: Section) -> Seq<u8> {
    match s {
        Section::Data(d) => seq![0u8] + enc_bytes(d@),
        Section::Code { hash, tag } => seq![1u8] + hash@ + enc_opt_str(opt_str_view(tag)),
        Section::Authorization(a) => seq![2u8] + enc_auth(a),
        Section::MaspBuilder(b) => seq![3u8] + enc_bytes(b@),
    }
}

// ---------------------------------------------------------------- hashes

pub open spec fn section_hash_of(s: Section) -> Digest {
    sha256_of(enc_section(s))
}

pub open spec fn header_hash_of(h: Header) -> Digest {
    sha256_of(enc_header(h))
}

pub open spec fn raw_header_hash_of(h: Header) -> Digest {
    sha256_of(enc_raw_header(h))
}

/// The hash of the header, then the hash of each section in order.
pub open spec fn sechashes_of(t: Tx) -> Seq<Digest> {
    sechashes_parts(t.header, t.sections@)
}

pub open spec fn sechashes_parts(h: Header, s: Seq<Section>) -> Seq<Digest> {
    seq![header_hash_of(h)] + s.map_values(|x: Section| section_hash_of(x))
}

pub open spec fn is_user_section(s: Section) -> bool {
    !(s is MaspBuilder)
}

/// The sections that a user may submit, in their order.
pub open spec fn user_sections(s: Seq<Section>) -> Seq<Section> {
    s.filter(user_pred())
}

pub open spec fn user_pred() -> spec_fn(Section) -> bool {
    |x: Section| is_user_section(x)
}

// ---------------------------------------------------------------- encoders

fn put_digest(out: &mut Vec<u8>, h: &Digest)
    ensures
        final(out)@ == old(out)@ + h@,
{
    let mut i: usize = 0;
    assert(out@ =~= old(out)@ + h@.subrange(0, 0));
    while i < 32
        invariant
            i <= 32,
            h@.len() == 32,
            out@ == old(out)@ + h@.subrange(0, i as int),
        decreases 32 - i,
    {
        out.push(h[i]);
        assert(h@.subrange(0, i + 1) =~= h@.subrange(0, i as int).push(h@[i as int]));
        i = i + 1;
    }
    assert(h@.subrange(0, 32) =~= h@);
}

fn put_digests(out: &mut Vec<u8>, s: &Vec<Digest>)
    ensures
        final(out)@ == old(out)@ + enc_hashes(s@),
{
    put_le(out, s.len() as u128, 4);
    let ghost start = out@;
    let mut i: usize = 0;
    assert(flat_hashes(s@.subrange(0, 0)) =~= Seq::<u8>::empty());
    assert(out@ =~= start + flat_hashes(s@.subrange(0, 0)));
    while i < s.len()
        invariant
            i <= s@.len(),
            start == old(out)@ + le(s@.len(), 4),
            out@ == start + flat_hashes(s@.subrange(0, i as int)),
        decreases s@.len() - i,
    {
        put_digest(out, &s[i]);
        assert(s@.subrange(0, i + 1).drop_last() =~= s@.subrange(0, i as int));
        assert(out@ =~= start + flat_hashes(s@.subrange(0, i + 1)));
        i = i + 1;
    }
    assert(s@.subrange(0, s@.len() as int) =~= s@);
    assert(final(out)@ =~= old(out)@ + enc_hashes(s@));
}

fn put_fee(out: &mut Vec<u8>, f: &Fee)
    ensures
        final(out)@ == old(out)@ + enc_fee(*f),
{
    put_le(out, f.amount_per_gas_unit.amount, 16);
    out.push(f.amount_per_gas_unit.denom);
    put_str(out, &f.token);
    assert(final(out)@ =~= old(out)@ + enc_fee(*f));
}

fn put_tx_type(out: &mut Vec<u8>, t: &TxType)
    ensures
        final(out)@ == old(out)@ + enc_tx_type(*t),
{
    match t {
        TxType::Raw => {
            out.push(0);
            assert(final(out)@ =~= old(out)@ + enc_tx_type(*t));
        },
        TxType::Wrapper(w) => {
            out.push(1);
            put_fee(out, &w.fee);
            put_bytes(out, w.pk.as_slice());
            put_le(out, w.gas_limit as u128, 8);
            assert(final(out)@ =~= old(out)@ + enc_tx_type(*t));
        },
    }
}

fn put_header_core(out: &mut Vec<u8>, h: &Header)
    ensures
        final(out)@ == old(out)@ + enc_header_core(*h),
{
    put_str(out, &h.chain_id);
    put_opt_u64(out, h.expiration);
    put_le(out, h.timestamp as u128, 8);
    put_digest(out, &h.code_hash);
    put_digest(out, &h.data_hash);
    assert(final(out)@ =~= old(out)@ + enc_header_core(*h));
}

fn put_keys(out: &mut Vec<u8>, s: &Vec<PublicKey>)
    ensures
        final(out)@ == old(out)@ + le(s@.len(), 4) + flat_keys(s@),
{
    put_le(out, s.len() as u128, 4);
    let ghost start = out@;
    let mut i: usize = 0;
    assert(flat_keys(s@.subrange(0, 0)) =~= Seq::<u8>::empty());
    assert(out@ =~= start + flat_keys(s@.subrange(0, 0)));
    while i < s.len()
        invariant
            i <= s@.len(),
            start == old(out)@ + le(s@.len(), 4),
            out@ == start + flat_keys(s@.subrange(0, i as int)),
        decreases s@.len() - i,
    {
        put_bytes(out, s[i].as_slice());
        assert(s@.subrange(0, i + 1).drop_last() =~= s@.subrange(0, i as int));
        assert(out@ =~= start + flat_keys(s@.subrange(0, i + 1)));
        i = i + 1;
    }
    assert(s@.subrange(0, s@.len() as int) =~= s@);
    assert(final(out)@ =~= old(out)@ + le(s@.len(), 4) + flat_keys(s@));
}

fn put_sigs(out: &mut Vec<u8>, s: &Vec<(u8, Signature)>)
    ensures
        final(out)@ == old(out)@ + le(s@.len(), 4) + flat_sigs(s@),
{
    put_le(out, s.len() as u128, 4);
    let ghost start = out@;
    let mut i: usize = 0;
    assert(flat_sigs(s@.subrange(0, 0)) =~= Seq::<u8>::empty());
    assert(out@ =~= start + flat_sigs(s@.subrange(0, 0)));
    while i < s.len()
        invariant
            i <= s@.len(),
            start == old(out)@ + le(s@.len(), 4),
            out@ == start + flat_sigs(s@.subrange(0, i as int)),
        decreases s@.len() - i,
    {
        let p = &s[i];
        out.push(p.0);
        put_bytes(out, p.1.as_slice());
        assert(s@.subrange(0, i + 1).drop_last() =~= s@.subrange(0, i as int));
        assert(out@ =~= start + flat_sigs(s@.subrange(0, i + 1)));
        i = i + 1;
    }
    assert(s@.subrange(0, s@.len() as int) =~= s@);
    assert(final(out)@ =~= old(out)@ + le(s@.len(), 4) + flat_sigs(s@));
}

fn put_auth(out: &mut Vec<u8>, a: &Authorization)
    ensures
        final(out)@ == old(out)@ + enc_auth(*a),
{
    put_digests(out, &a.targets);
    match &a.signer {
        Signer::Address(addr) => {
            out.push(0);
            put_str(out, addr);
        },
        Signer::PubKeys(ks) => {
            out.push(1);
            put_keys(out, ks);
        },
    }
    put_sigs(out, &a.signatures);
    assert(final(out)@ =~= old(out)@ + enc_auth(*a));
}

fn put_section(out: &mut Vec<u8>, s: &Section)
    ensures
        final(out)@ == old(out)@ + enc_section(*s),
{
    match s {
        Section::Data(d) => {
            out.push(0);
            put_bytes(out, d.as_slice());
        },
        Section::Code { hash, tag } => {
            out.push(1);
            put_digest(out, hash);
            put_opt_str(out, tag);
        },
        Section::Authorization(a) => {
            out.push(2);
            put_auth(out, a);
        },
        Section::MaspBuilder(b) => {
            out.push(3);
            put_bytes(out, b.as_slice());
        },
    }
    assert(final(out)@ =~= old(out)@ + enc_section(*s));
}

// ---------------------------------------------------------------- commitments

/// The hash that identifies one section.
pub fn section_hash(s: &Section) -> (r: Digest)
    ensures
        r == section_hash_of(*s),
{
    let mut out: Vec<u8> = Vec::new();
    put_section(&mut out, s);
    assert(out@ =~= enc_section(*s));
    sha256(&out)
}

/// The hash of an authorization record itself.
pub fn authorization_hash(a: &Authorization) -> (r: Digest)
    ensures
        r == sha256_of(enc_auth(*a)),
{
    let mut out: Vec<u8> = Vec::new();
    put_auth(&mut out, a);
    assert(out@ =~= enc_auth(*a));
    sha256(&out)
}

impl Tx {
    /// The hash of the header as it stands, fee terms included.
    pub fn header_hash(&self) -> (r: Digest)
        ensures
            r == header_hash_of(self.header),
    {
        let mut out: Vec<u8> = Vec::new();
        put_header_core(&mut out, &self.header);
        put_tx_type(&mut out, &self.header.tx_type);
        assert(out@ =~= enc_header(self.header));
        sha256(&out)
    }

    /// The hash of the header with its type set back to `Raw`: it commits to
    /// the chain, the timing, the code and the data, and to no authorization
    /// and no fee terms.
    pub fn raw_header_hash(&self) -> (r: Digest)
        ensures
            r == raw_header_hash_of(self.header),
    {
        let mut out: Vec<u8> = Vec::new();
        put_header_core(&mut out, &self.header);
        out.push(0);
        assert(out@ =~= enc_raw_header(self.header));
        sha256(&out)
    }

    /// The hash of the header, then that of each section in order.
    pub fn sechashes(&self) -> (r: Vec<Digest>)
        ensures
            r@ == sechashes_of(*self),
    {
        let mut r: Vec<Digest> = Vec::new();
        r.push(self.header_hash());
        let mut i: usize = 0;
        while i < self.sections.len()
            invariant
                i <= self.sections@.len(),
                r@ == seq![header_hash_of(self.header)] + self.sections@.subrange(
                    0,
                    i as int,
                ).map_values(|s: Section| section_hash_of(s)),
            decreases self.sections@.len() - i,
        {
            r.push(section_hash(&self.sections[i]));
            assert(self.sections@.subrange(0, i + 1).map_values(|s: Section| section_hash_of(s))
                =~= self.sections@.subrange(0, i as int).map_values(
                |s: Section| section_hash_of(s),
            ).push(section_hash_of(self.sections@[i as int])));
            assert(r@ =~= seq![header_hash_of(self.header)] + self.sections@.subrange(
                0,
                i + 1,
            ).map_values(|s: Section| section_hash_of(s)));
            i = i + 1;
        }
        assert(self.sections@.subrange(0, self.sections@.len() as int) =~= self.sections@);
        r
    }

    /// Removes the sections reserved to the protocol, keeping the others in
    /// their order.
    pub fn protocol_filter(&mut self)
        ensures
            final(self).header == old(self).header,
            final(self).sections@ == user_sections(old(self).sections@),
    {
        broadcast use Seq::lemma_filter_push;

        let ghost orig = self.sections@;
        let mut i: usize = 0;
        let ghost mut j: int = 0;
        assert(orig.subrange(0, 0) =~= Seq::<Section>::empty());
        reveal(Seq::filter);
        assert(user_sections(orig.subrange(0, 0)) =~= Seq::<Section>::empty());
        assert(self.sections@ =~= user_sections(orig.subrange(0, 0)) + orig.subrange(
            0,
            orig.len() as int,
        ));
        while i < self.sections.len()
            invariant
                self.header == old(self).header,
                orig == old(self).sections@,
                0 <= j <= orig.len(),
                i == user_sections(orig.subrange(0, j)).len(),
                self.sections@ == user_sections(orig.subrange(0, j)) + orig.subrange(
                    j,
                    orig.len() as int,
                ),
            decreases orig.len() - j,
        {
            assert(self.sections@[i as int] == orig[j]);
            assert(orig.subrange(0, j + 1) =~= orig.subrange(0, j).push(orig[j]));
            proof {
                orig.subrange(0, j).lemma_filter_push(orig[j], user_pred());
            }
            if let Section::MaspBuilder(_) = &self.sections[i] {
                self.sections.remove(i);
                assert(self.sections@ =~= user_sections(orig.subrange(0, j + 1))
                    + orig.subrange(j + 1, orig.len() as int));
            } else {
                assert(self.sections@ =~= user_sections(orig.subrange(0, j + 1))
                    + orig.subrange(j + 1, orig.len() as int));
                i = i + 1;
            }
            proof {
                j = j + 1;
            }
        }
        assert(j == orig.len());
        assert(orig.subrange(0, j) =~= orig);
        assert(self.sections@ =~= user_sections(orig));
    }

    /// Appends a section at the end.
    pub fn add_section(&mut self, s: Section)
        ensures
            final(self).header == old(self).header,
            final(self).sections@ == old(self).sections@.push(s),
    {
        self.sections.push(s);
    }
}

} // verus!
