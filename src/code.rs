use vstd::prelude::*;

verus! {

/// The SHA-256 digest of a byte sequence, as near-vm-runner computes it for a
/// contract.
pub uninterp spec fn code_digest(b: Seq<u8>) -> Seq<u8>;

/// Relies on near_vm_runner::ContractCode::new, which hashes the code with
/// SHA-256 (a 32-byte `CryptoHash`) when no hash is handed in.
#[verifier::external_body]
fn content_digest(b: &Vec<u8>) -> (r: Vec<u8>)
    ensures
        r@ == code_digest(b@),
        r@.len() == 32,
{
    near_vm_runner::ContractCode::new(b.clone(), None).hash().0.to_vec()
}

/// Copies a byte vector.
pub fn copy_bytes(v: &Vec<u8>) -> (r: Vec<u8>)
    ensures
        r@ == v@,
{
    let r = v.clone();
    assert(r@ =~= v@);
    r
}

/// Byte-wise equality of two byte vectors.
pub fn bytes_eq(a: &Vec<u8>, b: &Vec<u8>) -> (r: bool)
    ensures
        r == (a@ == b@),
{
    if a.len() != b.len() {
        return false;
    }
    let mut i: usize = 0;
    while i < a.len()
        invariant
            a.len() == b.len(),
            0 <= i <= a.len(),
            forall|j: int| 0 <= j < i ==> a@[j] == b@[j],
        decreases a.len() - i,
    {
        if a[i] != b[i] {
            return false;
        }
        i = i + 1;
    }
    assert(a@ =~= b@);
    true
}

/// Immutable bytecode of a contract together with its content digest, computed
/// once at construction.
pub struct ContractCode {
    code: Vec<u8>,
    hash: Vec<u8>,
}

impl ContractCode {
    /// The bytecode.
    pub closed spec fn bytes(&self) -> Seq<u8> {
        self.code@
    }

    /// The content digest held beside the bytecode.
    pub closed spec fn digest(&self) -> Seq<u8> {
        self.hash@
    }

    #[verifier::type_invariant]
    closed spec fn inv(&self) -> bool {
        self.hash@ == code_digest(self.code@) && self.hash@.len() == 32
    }

    /// The digest is that of the bytecode, as every constructed value has it.
    pub open spec fn wf(&self) -> bool {
        self.digest() == code_digest(self.bytes()) && self.digest().len() == 32
    }

    /// Wraps arbitrary bytes; validity as WebAssembly is decided later, by the
    /// backends.
    pub fn new(code: Vec<u8>) -> (r: ContractCode)
        ensures
            r.bytes() == code@,
            r.digest() == code_digest(code@),
            r.digest().len() == 32,
            r.wf(),
    {
        let hash = content_digest(&code);
        ContractCode { code, hash }
    }

    pub fn code(&self) -> (r: &Vec<u8>)
        ensures
            r@ == self.bytes(),
    {
        &self.code
    }

    pub fn hash(&self) -> (r: &Vec<u8>)
        ensures
            r@ == self.digest(),
            r@ == code_digest(self.bytes()),
            r@.len() == 32,
            self.wf(),
    {
        proof {
            use_type_invariant(self);
        }
        &self.hash
    }
}

/// Two contracts with equal bytecode carry equal digests.
pub proof fn lemma_equal_bytes_equal_digest(a: &ContractCode, b: &ContractCode)
    requires
        a.wf(),
        b.wf(),
        a.bytes() == b.bytes(),
    ensures
        a.digest() == b.digest(),
{
}

} // verus!
