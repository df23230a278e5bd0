//! Addresses on the host ledger and the derived-address computation.
//!
//! The vault and every deposit record live at deterministic, keyless
//! addresses computed from fixed seed tags plus an identity. The search for
//! the canonical bump is done by the host's address crate; everything the
//! ledger logic concludes from it rests on the contracts of the two trusted
//! wrappers below.

use vstd::prelude::*;

verus! {

/// A 32-byte host-ledger address, held as plain bytes so that derivation
/// inputs and comparisons can be stated directly over the byte sequence.
#[derive(Debug)]
pub struct Address {
    pub bytes: Vec<u8>,
}

impl View for Address {
    type V = Seq<u8>;

    open spec fn view(&self) -> Seq<u8> {
        self.bytes@
    }
}

impl Address {
    /// Every address on the host ledger is exactly 32 bytes.
    pub open spec fn wf(&self) -> bool {
        self.bytes@.len() == 32
    }

    /// Byte-for-byte comparison of two addresses.
    pub fn equals(&self, other: &Address) -> (r: bool)
        ensures
            r == (self@ == other@),
    {
        if self.bytes.len() != other.bytes.len() {
            return false;
        }
        let mut i: usize = 0;
        while i < self.bytes.len()
            invariant
                i <= self.bytes@.len(),
                self.bytes@.len() == other.bytes@.len(),
                forall|j: int| 0 <= j < i ==> self.bytes@[j] == other.bytes@[j],
            decreases self.bytes@.len() - i,
        {
            if self.bytes[i] != other.bytes[i] {
                assert(self@[i as int] != other@[i as int]);
                return false;
            }
            i += 1;
        }
        proof {
            assert(self@ =~= other@);
        }
        true
    }

    /// A fresh address holding the same bytes.
    pub fn dup(&self) -> (r: Address)
        ensures
            r@ == self@,
    {
        Address { bytes: dup_bytes(&self.bytes) }
    }
}

/// A fresh byte vector holding the same bytes.
pub fn dup_bytes(v: &Vec<u8>) -> (r: Vec<u8>)
    ensures
        r@ == v@,
{
    let mut r: Vec<u8> = Vec::new();
    let mut i: usize = 0;
    while i < v.len()
        invariant
            i <= v@.len(),
            r@ == v@.subrange(0, i as int),
        decreases v@.len() - i,
    {
        r.push(v[i]);
        i += 1;
    }
    proof {
        assert(r@ =~= v@);
    }
    r
}

/// The fixed seed tag of the shared vault account: the bytes of "vault".
pub open spec fn vault_seed() -> Seq<u8> {
    seq![118u8, 97u8, 117u8, 108u8, 116u8]
}

/// The fixed seed tag of a deposit record: the bytes of "user_deposit".
pub open spec fn record_seed() -> Seq<u8> {
    seq![117u8, 115u8, 101u8, 114u8, 95u8, 100u8, 101u8, 112u8, 111u8, 115u8, 105u8, 116u8]
}

/// The seed list the vault's address is derived from.
pub open spec fn vault_seeds() -> Seq<Seq<u8>> {
    seq![vault_seed()]
}

/// The seed list the vault signs with once its canonical bump is known.
pub open spec fn vault_signer_seeds(bump: u8) -> Seq<Seq<u8>> {
    vault_seeds().push(seq![bump])
}

/// The seed list a user's deposit record is derived from: the fixed tag
/// plus the user's raw identity bytes.
pub open spec fn record_seeds(user: Seq<u8>) -> Seq<Seq<u8>> {
    seq![record_seed(), user]
}

/// The vault seed tag as a byte vector.
pub fn vault_seed_bytes() -> (v: Vec<u8>)
    ensures
        v@ == vault_seed(),
{
    let mut v: Vec<u8> = Vec::new();
    v.push(118u8);
    v.push(97u8);
    v.push(117u8);
    v.push(108u8);
    v.push(116u8);
    proof {
        assert(v@ =~= vault_seed());
    }
    v
}

/// The deposit-record seed tag as a byte vector.
pub fn record_seed_bytes() -> (v: Vec<u8>)
    ensures
        v@ == record_seed(),
{
    let mut v: Vec<u8> = Vec::new();
    v.push(117u8);
    v.push(115u8);
    v.push(101u8);
    v.push(114u8);
    v.push(95u8);
    v.push(100u8);
    v.push(101u8);
    v.push(112u8);
    v.push(111u8);
    v.push(115u8);
    v.push(105u8);
    v.push(116u8);
    proof {
        assert(v@ =~= record_seed());
    }
    v
}

/// What the host's canonical derived-address search returns for a seed list
/// and a program identity: the keyless address and its bump, or nothing
/// when no bump in the searchable range yields one.
pub uninterp spec fn find_derived(seeds: Seq<Seq<u8>>, program: Seq<u8>) -> Option<(Seq<u8>, u8)>;

/// What the host's single-shot derivation returns for a full seed list
/// (bump included) and a program identity: the keyless address, or nothing
/// when the candidate has a matching private key or a seed is out of range.
pub uninterp spec fn create_derived(seeds: Seq<Seq<u8>>, program: Seq<u8>) -> Option<Seq<u8>>;

/// Relies on Pubkey::try_find_program_address (re-exported by anchor_lang):
/// the result depends on the seeds and the program identity alone; the
/// returned address is what create_program_address gives for the seeds plus
/// the returned bump, and every higher bump fails that derivation, so the
/// bump found is the canonical (highest valid) one.
#[verifier::external_body]
fn host_find_address(seeds: &Vec<Vec<u8>>, program: &Address) -> (r: Option<(Address, u8)>)
    requires
        program.wf(),
    ensures
        match r {
            Some(found) => {
                &&& find_derived(seeds.deep_view(), program@) == Some((found.0@, found.1))
                &&& found.0.wf()
                &&& create_derived(seeds.deep_view().push(seq![found.1]), program@)
                    == Some(found.0@)
                &&& forall|b: u8| b > found.1
                    ==> create_derived(seeds.deep_view().push(seq![b]), program@) is None
            },
            None => find_derived(seeds.deep_view(), program@) is None,
        },
{
    let refs: Vec<&[u8]> = seeds.iter().map(|s| s.as_slice()).collect();
    let pid = anchor_lang::solana_program::pubkey::Pubkey::try_from(program.bytes.as_slice())
        .unwrap();
    let found = anchor_lang::solana_program::pubkey::Pubkey::try_find_program_address(&refs, &pid);
    found.map(|(pk, bump)| (Address { bytes: pk.to_bytes().to_vec() }, bump))
}

/// Relies on Pubkey::create_program_address (re-exported by anchor_lang):
/// the result depends on the seeds and the program identity alone.
#[verifier::external_body]
fn host_create_address(seeds: &Vec<Vec<u8>>, program: &Address) -> (r: Option<Address>)
    requires
        program.wf(),
    ensures
        match r {
            Some(addr) => create_derived(seeds.deep_view(), program@) == Some(addr@) && addr.wf(),
            None => create_derived(seeds.deep_view(), program@) is None,
        },
{
    let refs: Vec<&[u8]> = seeds.iter().map(|s| s.as_slice()).collect();
    let pid = anchor_lang::solana_program::pubkey::Pubkey::try_from(program.bytes.as_slice())
        .unwrap();
    let made = anchor_lang::solana_program::pubkey::Pubkey::create_program_address(&refs, &pid);
    made.ok().map(|pk| Address { bytes: pk.to_bytes().to_vec() })
}

/// Derive the shared vault's address and canonical bump under a program.
pub fn derive_vault_address(program: &Address) -> (r: Option<(Address, u8)>)
    requires
        program.wf(),
    ensures
        match r {
            Some(found) => {
                &&& find_derived(vault_seeds(), program@) == Some((found.0@, found.1))
                &&& found.0.wf()
                &&& create_derived(vault_signer_seeds(found.1), program@) == Some(found.0@)
            },
            None => find_derived(vault_seeds(), program@) is None,
        },
{
    let mut seeds: Vec<Vec<u8>> = Vec::new();
    seeds.push(vault_seed_bytes());
    proof {
        assert(seeds.deep_view() =~~= vault_seeds());
    }
    host_find_address(&seeds, program)
}

/// Derive a user's deposit-record address and bump under a program.
pub fn derive_record_address(user: &Address, program: &Address) -> (r: Option<(Address, u8)>)
    requires
        program.wf(),
    ensures
        match r {
            Some(found) => find_derived(record_seeds(user@), program@) == Some((found.0@, found.1))
                && found.0.wf(),
            None => find_derived(record_seeds(user@), program@) is None,
        },
{
    let mut seeds: Vec<Vec<u8>> = Vec::new();
    seeds.push(record_seed_bytes());
    seeds.push(dup_bytes(&user.bytes));
    proof {
        assert(seeds.deep_view() =~~= record_seeds(user@));
    }
    host_find_address(&seeds, program)
}

/// A program-authorized address: the seed tag and bump that reconstruct the
/// vault's keyless signing authority at transfer time, carried as a value
/// rather than as a raw capability.
#[derive(Debug)]
pub struct VaultAuthority {
    pub seed: Vec<u8>,
    pub bump: u8,
}

impl VaultAuthority {
    /// The full seed list this authority signs with.
    pub open spec fn seeds(&self) -> Seq<Seq<u8>> {
        seq![self.seed@, seq![self.bump]]
    }

    /// True exactly when this authority reconstructs the given address under
    /// the given program, so a transfer it signs can move value out of that
    /// address. A stale or wrong bump reconstructs a different address (or
    /// none) and is refused here.
    pub fn controls(&self, addr: &Address, program: &Address) -> (r: bool)
        requires
            program.wf(),
        ensures
            r == (create_derived(self.seeds(), program@) == Some(addr@)),
    {
        let mut seeds: Vec<Vec<u8>> = Vec::new();
        seeds.push(dup_bytes(&self.seed));
        let mut bump_seed: Vec<u8> = Vec::new();
        bump_seed.push(self.bump);
        seeds.push(bump_seed);
        proof {
            assert(seeds.deep_view() =~~= self.seeds());
        }
        match host_create_address(&seeds, program) {
            Some(derived) => derived.equals(addr),
            None => false,
        }
    }
}

} // verus!
