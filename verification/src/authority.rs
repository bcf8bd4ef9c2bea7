use vstd::prelude::*;

verus! {

/// What the host ledger's address derivation returns for a seed tuple: either
/// a 32-byte capability address together with its bump byte, or nothing in the
/// statistically improbable event that no bump byte yields a valid address.
/// The search is a pure computation over the seed material, so its whole
/// result is a function of the arguments alone.
pub uninterp spec fn derived_authority_of(domain: Seq<u8>, tag: Seq<u8>, depositor: u64, nonce: u64) -> Option<(Seq<u8>, u8)>;

/// The capability token that authorizes actions on a vault: the derived
/// address plus the bump byte that reconstructs it. It is a pure value,
/// never cached as mutable state; whoever can rebuild it from the seed tuple
/// holds the authority.
#[derive(Debug)]
pub struct DerivedAuthority {
    /// Raw bytes of the derived address.
    pub address: Vec<u8>,
    /// The disambiguation byte recorded in the escrow record.
    pub bump: u8,
}

impl DerivedAuthority {
    /// The token is exactly what derivation yields for this seed tuple.
    pub open spec fn is_for(self, depositor: u64, nonce: u64) -> bool {
        derived_authority_of(derivation_domain(), protocol_tag(), depositor, nonce)
            == Some((self.address@, self.bump))
    }
}

/// The fixed protocol tag that begins every seed tuple: the bytes of the
/// ASCII word "escrow".
pub open spec fn protocol_tag() -> Seq<u8> {
    seq![0x65u8, 0x73u8, 0x63u8, 0x72u8, 0x6fu8, 0x77u8]
}

/// The 32-byte domain under which addresses are derived: this protocol
/// derives under the all-zero domain.
pub open spec fn derivation_domain() -> Seq<u8> {
    Seq::new(32, |i: int| 0u8)
}

/// Executable copy of the protocol tag.
pub fn protocol_tag_bytes() -> (t: Vec<u8>)
    ensures
        t@ == protocol_tag(),
{
    let mut t: Vec<u8> = Vec::new();
    t.push(0x65u8);
    t.push(0x73u8);
    t.push(0x63u8);
    t.push(0x72u8);
    t.push(0x6fu8);
    t.push(0x77u8);
    proof {
        assert(t@ =~= protocol_tag());
    }
    t
}

/// Executable copy of the derivation domain.
pub fn derivation_domain_bytes() -> (d: Vec<u8>)
    ensures
        d@ == derivation_domain(),
{
    let mut d: Vec<u8> = Vec::new();
    let mut i: usize = 0;
    while i < 32
        invariant
            i <= 32,
            d@.len() == i,
            forall|j: int| 0 <= j < i ==> d@[j] == 0u8,
        decreases 32 - i,
    {
        d.push(0u8);
        i = i + 1;
    }
    proof {
        assert(d@ =~= derivation_domain());
    }
    d
}

/// Relies on `Pubkey::try_find_program_address`, reached through
/// `anchor_lang::solana_program::pubkey`: a deterministic search over bump
/// bytes that either finds a 32-byte off-curve address for the seed tuple
/// `[tag, depositor, nonce]` under the given domain, or reports that none of
/// the 256 bump bytes works.
#[verifier::external_body]
fn try_find_authority(domain: &Vec<u8>, tag: &Vec<u8>, depositor: u64, nonce: u64) -> (r: Option<(Vec<u8>, u8)>)
    requires
        domain@.len() == 32,
    ensures
        r is Some <==> derived_authority_of(domain@, tag@, depositor, nonce) is Some,
        r matches Some(p) ==> Some((p.0@, p.1)) == derived_authority_of(domain@, tag@, depositor, nonce)
            && p.0@.len() == 32,
{
    let mut id_bytes = [0u8; 32];
    id_bytes.copy_from_slice(domain.as_slice());
    let program_id = anchor_lang::solana_program::pubkey::Pubkey::new_from_array(id_bytes);
    let found = anchor_lang::solana_program::pubkey::Pubkey::try_find_program_address(
        &[tag.as_slice(), &depositor.to_le_bytes(), &nonce.to_le_bytes()],
        &program_id,
    );
    found.map(|(address, bump)| (address.to_bytes().to_vec(), bump))
}

/// Reconstructs the capability token for a depositor and nonce. Deterministic:
/// every call with the same seed tuple yields the same token, which is what
/// lets the protocol act for the vault without any stored key.
pub fn derive_authority(depositor: u64, nonce: u64) -> (r: Option<DerivedAuthority>)
    ensures
        r is Some <==> derived_authority_of(derivation_domain(), protocol_tag(), depositor, nonce) is Some,
        r matches Some(a) ==> a.is_for(depositor, nonce) && a.address@.len() == 32,
{
    let domain = derivation_domain_bytes();
    let tag = protocol_tag_bytes();
    match try_find_authority(&domain, &tag, depositor, nonce) {
        Some(pair) => Some(DerivedAuthority { address: pair.0, bump: pair.1 }),
        None => None,
    }
}

/// Byte-for-byte equality of two byte vectors.
pub fn bytes_eq(a: &Vec<u8>, b: &Vec<u8>) -> (r: bool)
    ensures
        r <==> a@ == b@,
{
    if a.len() != b.len() {
        proof {
            assert(a@.len() != b@.len());
        }
        return false;
    }
    let n = a.len();
    let mut i: usize = 0;
    while i < n
        invariant
            n == a@.len(),
            n == b@.len(),
            i <= n,
            forall|j: int| 0 <= j < i ==> a@[j] == b@[j],
        decreases n - i,
    {
        if a[i] != b[i] {
            return false;
        }
        i = i + 1;
    }
    proof {
        assert(a@ =~= b@);
    }
    true
}

} // verus!
