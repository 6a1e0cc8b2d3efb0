//! Helpers for talking to the confidential network: argument payloads and the
//! addresses of the network's accounts.
use vstd::prelude::*;
use crate::address::Address;
use vstd::string::StringSliceAdditionalSpecFns;
use anchor_lang::prelude::Pubkey;

verus! {

/// Seed of the network's execution-environment account.
pub const MXE_SEED: &'static str = "mxe";

/// Seed of the network's mempool account.
pub const MEMPOOL_SEED: &'static str = "mempool";

/// Seed of a computing cluster's account.
pub const CLUSTER_SEED: &'static str = "cluster";

/// Seed of a circuit's computation-definition account.
pub const COMP_DEF_SEED: &'static str = "comp_def";

/// The `n` low bytes of `value`, least significant first.
pub open spec fn le_bytes(value: nat, n: nat) -> Seq<u8>
    decreases n,
{
    if n == 0 {
        Seq::empty()
    } else {
        seq![(value % 256) as u8] + le_bytes(value / 256, (n - 1) as nat)
    }
}

/// Appends `bytes` to `v`.
pub fn append_bytes(v: &mut Vec<u8>, bytes: &[u8])
    ensures
        final(v)@ == old(v)@ + bytes@,
{
    let mut i: usize = 0;
    while i < bytes.len()
        invariant
            i <= bytes@.len(),
            v@ == old(v)@ + bytes@.subrange(0, i as int),
        decreases bytes@.len() - i,
    {
        v.push(bytes[i]);
        i = i + 1;
        assert(v@ =~= old(v)@ + bytes@.subrange(0, i as int));
    }
    assert(bytes@.subrange(0, bytes@.len() as int) =~= bytes@);
}

/// Appends the `n` low bytes of `value` to `v`, least significant first.
pub fn append_le_bytes(v: &mut Vec<u8>, value: u128, n: usize)
    ensures
        final(v)@ == old(v)@ + le_bytes(value as nat, n as nat),
{
    let mut x: u128 = value;
    let mut i: usize = 0;
    while i < n
        invariant
            i <= n,
            v@ + le_bytes(x as nat, (n - i) as nat) == old(v)@ + le_bytes(value as nat, n as nat),
        decreases n - i,
    {
        let ghost before = v@;
        let ghost rest = le_bytes((x / 256) as nat, (n - i - 1) as nat);
        assert(le_bytes(x as nat, (n - i) as nat) == seq![(x % 256) as u8] + rest);
        v.push((x % 256) as u8);
        assert(v@ + rest =~= before + (seq![(x % 256) as u8] + rest));
        x = x / 256;
        i = i + 1;
    }
}

/// Builds the argument payload of a computation request.
pub struct ArgBuilder {
    args: Vec<u8>,
}

impl ArgBuilder {
    /// The payload built so far.
    pub closed spec fn view(&self) -> Seq<u8> {
        self.args@
    }

    pub fn new() -> (r: ArgBuilder)
        ensures
            r@ == Seq::<u8>::empty(),
    {
        ArgBuilder { args: Vec::new() }
    }

    /// Adds the bettor's X25519 public key.
    pub fn x25519_pubkey(self, pubkey: [u8; 32]) -> (r: ArgBuilder)
        ensures
            r@ == self@ + pubkey@,
    {
        let mut args = self.args;
        append_bytes(&mut args, &pubkey);
        ArgBuilder { args }
    }

    /// Adds a plaintext 128-bit integer, little-endian.
    pub fn plaintext_u128(self, value: u128) -> (r: ArgBuilder)
        ensures
            r@ == self@ + le_bytes(value as nat, 16),
    {
        let mut args = self.args;
        append_le_bytes(&mut args, value, 16);
        ArgBuilder { args }
    }

    /// Adds a plaintext boolean as one byte.
    pub fn plaintext_bool(self, value: bool) -> (r: ArgBuilder)
        ensures
            r@ == self@.push(if value {
                1u8
            } else {
                0u8
            }),
    {
        let mut args = self.args;
        args.push(if value {
            1
        } else {
            0
        });
        ArgBuilder { args }
    }

    /// Adds the ciphertext of a boolean.
    pub fn encrypted_bool(self, ciphertext: [u8; 32]) -> (r: ArgBuilder)
        ensures
            r@ == self@ + ciphertext@,
    {
        let mut args = self.args;
        append_bytes(&mut args, &ciphertext);
        ArgBuilder { args }
    }

    /// Adds the ciphertext of a 64-bit integer.
    pub fn encrypted_u64(self, ciphertext: [u8; 32]) -> (r: ArgBuilder)
        ensures
            r@ == self@ + ciphertext@,
    {
        let mut args = self.args;
        append_bytes(&mut args, &ciphertext);
        ArgBuilder { args }
    }

    /// Adds a reference to `size` bytes of a stored account at `offset`: the
    /// address, then offset and size as 32-bit little-endian integers.
    pub fn account(self, key: Address, offset: usize, size: usize) -> (r: ArgBuilder)
        ensures
            r@ == self@ + key@ + le_bytes((offset as u32) as nat, 4) + le_bytes(
                (size as u32) as nat,
                4,
            ),
    {
        let mut args = self.args;
        append_bytes(&mut args, &key.bytes);
        append_le_bytes(&mut args, (offset as u32) as u128, 4);
        append_le_bytes(&mut args, (size as u32) as u128, 4);
        ArgBuilder { args }
    }

    /// The finished payload.
    pub fn build(self) -> (r: Vec<u8>)
        ensures
            r@ == self@,
    {
        self.args
    }
}

impl Default for ArgBuilder {
    fn default() -> (r: ArgBuilder)
        ensures
            r@ == Seq::<u8>::empty(),
    {
        ArgBuilder::new()
    }
}

/// A ciphertext with its nonce and, for re-encryption, its owner.
#[derive(Clone, Copy, Debug)]
pub struct EncryptedData {
    pub ciphertext: [u8; 32],
    pub nonce: [u8; 16],
    pub owner: Option<Address>,
}

impl Default for EncryptedData {
    fn default() -> (r: EncryptedData)
        ensures
            r.ciphertext@ == Seq::new(32, |i: int| 0u8),
            r.nonce@ == Seq::new(16, |i: int| 0u8),
            r.owner is None,
    {
        let r = EncryptedData { ciphertext: [0u8; 32], nonce: [0u8; 16], owner: None };
        assert(r.ciphertext@ =~= Seq::new(32, |i: int| 0u8));
        assert(r.nonce@ =~= Seq::new(16, |i: int| 0u8));
        r
    }
}

/// Where a queued computation stands.
#[derive(Clone, Copy, Debug, PartialEq, Eq, Structural)]
pub enum ComputationStatus {
    Pending,
    InProgress,
    Completed,
    Failed,
}

/// The program address derived from `seeds` under `program`, with its bump
/// seed, or nothing when no bump seed gives a valid address.
pub uninterp spec fn program_address_of(seeds: Seq<Seq<u8>>, program: Seq<u8>) -> Option<(Seq<u8>, u8)>;

/// The seeds as byte sequences.
pub open spec fn seeds_view(seeds: Seq<Vec<u8>>) -> Seq<Seq<u8>> {
    seeds.map_values(|s: Vec<u8>| s@)
}

/// The derivation outcome stated over plain values.
pub open spec fn pda_matches(r: Option<(Address, u8)>, seeds: Seq<Seq<u8>>, program: Seq<u8>) -> bool {
    match program_address_of(seeds, program) {
        Some((a, b)) => match r {
            Some((k, c)) => k@ == a && c == b,
            None => false,
        },
        None => r is None,
    }
}

/// Relies on `Pubkey::try_find_program_address`: the derived address depends on
/// the seeds and the program alone, and is absent when no bump seed works.
#[verifier::external_body]
fn try_find_pda(seeds: &Vec<Vec<u8>>, program: &Address) -> (r: Option<(Address, u8)>)
    ensures
        match program_address_of(seeds_view(seeds@), program@) {
            Some((a, b)) => match r {
                Some((k, c)) => k@ == a && c == b,
                None => false,
            },
            None => r is None,
        },
{
    let parts: Vec<&[u8]> = seeds.iter().map(|s| s.as_slice()).collect();
    let id = Pubkey::new_from_array(program.bytes);
    Pubkey::try_find_program_address(&parts, &id).map(|(k, b)| (Address { bytes: k.to_bytes() }, b))
}

fn bytes_vec(bytes: &[u8]) -> (r: Vec<u8>)
    ensures
        r@ == bytes@,
{
    let mut v: Vec<u8> = Vec::new();
    append_bytes(&mut v, bytes);
    v
}

/// Address of the network's execution-environment account for `program_id`.
pub fn derive_mxe_pda(program_id: &Address) -> (r: Option<(Address, u8)>)
    ensures
        pda_matches(r, seq![MXE_SEED.spec_bytes()], program_id@),
{
    let seeds: Vec<Vec<u8>> = vec![bytes_vec(MXE_SEED.as_bytes())];
    assert(seeds_view(seeds@) =~= seq![MXE_SEED.spec_bytes()]);
    try_find_pda(&seeds, program_id)
}

/// Address of the network's mempool account for `program_id`.
pub fn derive_mempool_pda(program_id: &Address) -> (r: Option<(Address, u8)>)
    ensures
        pda_matches(r, seq![MEMPOOL_SEED.spec_bytes()], program_id@),
{
    let seeds: Vec<Vec<u8>> = vec![bytes_vec(MEMPOOL_SEED.as_bytes())];
    assert(seeds_view(seeds@) =~= seq![MEMPOOL_SEED.spec_bytes()]);
    try_find_pda(&seeds, program_id)
}

/// Address of the account of the cluster at `offset`.
pub fn derive_cluster_pda(program_id: &Address, offset: u64) -> (r: Option<(Address, u8)>)
    ensures
        pda_matches(r, seq![CLUSTER_SEED.spec_bytes(), le_bytes(offset as nat, 8)], program_id@),
{
    let mut offset_bytes: Vec<u8> = Vec::new();
    append_le_bytes(&mut offset_bytes, offset as u128, 8);
    let seeds: Vec<Vec<u8>> = vec![bytes_vec(CLUSTER_SEED.as_bytes()), offset_bytes];
    assert(seeds_view(seeds@) =~= seq![CLUSTER_SEED.spec_bytes(), le_bytes(offset as nat, 8)]);
    try_find_pda(&seeds, program_id)
}

/// Address of the computation-definition account of the circuit `name`.
pub fn derive_comp_def_pda(program_id: &Address, name: &str) -> (r: Option<(Address, u8)>)
    ensures
        pda_matches(r, seq![COMP_DEF_SEED.spec_bytes(), name.spec_bytes()], program_id@),
{
    let seeds: Vec<Vec<u8>> = vec![bytes_vec(COMP_DEF_SEED.as_bytes()), bytes_vec(name.as_bytes())];
    assert(seeds_view(seeds@) =~= seq![COMP_DEF_SEED.spec_bytes(), name.spec_bytes()]);
    try_find_pda(&seeds, program_id)
}

} // verus!
