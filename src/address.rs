use crate::felt::{field_prime, two_pow_128, Felt};
use vstd::prelude::*;

verus! {

/// The Pedersen hash chain over a sequence of field values, followed by its length.
pub uninterp spec fn hash_on_elements_of(values: Seq<int>) -> int;

/// The integer values of a sequence of elements.
pub open spec fn values_of(s: Seq<Felt>) -> Seq<int> {
    s.map_values(|f: Felt| f.value())
}

pub open spec fn all_wf(s: Seq<Felt>) -> bool {
    forall|i: int| 0 <= i < s.len() ==> (#[trigger] s[i]).wf()
}

/// Contract addresses are reduced below 2^251 - 256.
pub open spec fn address_bound() -> int {
    0x7ffffffffffffffffffffffffffffff * two_pow_128() + 0xffffffffffffffffffffffffffffff00
}

/// The Cairo short string "STARKNET_CONTRACT_ADDRESS": its ASCII bytes read as a
/// big-endian integer.
pub open spec fn contract_address_prefix() -> int {
    0x535441524b4e45545f * two_pow_128() + 0x434f4e54524143545f41444452455353
}

/// The address of a contract deployed with no deployer: the hash chain over the
/// prefix, a zero deployer, the salt, the class hash and the hash of the
/// constructor calldata, reduced modulo the address bound.
pub open spec fn contract_address_of(salt: int, class_hash: int, calldata: Seq<int>) -> int {
    hash_on_elements_of(
        seq![contract_address_prefix(), 0, salt, class_hash, hash_on_elements_of(calldata)],
    ) % address_bound()
}

/// Relies on starknet::core::crypto::compute_hash_on_elements, which folds the
/// Pedersen hash over the elements and then their count, and returns a field
/// element (below the field order). Conversion uses FieldElement::from_byte_slice_be,
/// which accepts any value below the order, and FieldElement::to_bytes_be.
#[verifier::external_body]
fn hash_on_elements(elems: &[Felt]) -> (r: Felt)
    requires
        all_wf(elems@),
    ensures
        r.wf(),
        r.value() == hash_on_elements_of(values_of(elems@)),
{
    let fields: Vec<starknet::core::types::FieldElement> = elems.iter().map(|f| {
        starknet::core::types::FieldElement::from_byte_slice_be(&[f.hi.to_be_bytes(), f.lo.to_be_bytes()].concat()).unwrap()
    }).collect();
    let b = starknet::core::crypto::compute_hash_on_elements(&fields).to_bytes_be();
    Felt {
        hi: u128::from_be_bytes(b[..16].try_into().unwrap()),
        lo: u128::from_be_bytes(b[16..].try_into().unwrap()),
    }
}

/// Relies on `%` of starknet::core::types::FieldElement: the remainder of the
/// integer division of the two canonical values; it panics on a zero divisor.
#[verifier::external_body]
fn felt_rem(a: Felt, b: Felt) -> (r: Felt)
    requires
        a.wf(),
        b.wf(),
        b.value() != 0,
    ensures
        r.value() == a.value() % b.value(),
{
    let x = starknet::core::types::FieldElement::from_byte_slice_be(&[a.hi.to_be_bytes(), a.lo.to_be_bytes()].concat()).unwrap();
    let y = starknet::core::types::FieldElement::from_byte_slice_be(&[b.hi.to_be_bytes(), b.lo.to_be_bytes()].concat()).unwrap();
    let z = (x % y).to_bytes_be();
    Felt {
        hi: u128::from_be_bytes(z[..16].try_into().unwrap()),
        lo: u128::from_be_bytes(z[16..].try_into().unwrap()),
    }
}

/// The address bound 2^251 - 256 as an element.
pub fn addr_bound() -> (r: Felt)
    ensures
        r.wf(),
        r.value() == address_bound(),
{
    Felt { hi: 0x7ffffffffffffffffffffffffffffff, lo: 0xffffffffffffffffffffffffffffff00 }
}

/// The contract-address prefix as an element.
pub fn prefix_contract_address() -> (r: Felt)
    ensures
        r.wf(),
        r.value() == contract_address_prefix(),
{
    Felt { hi: 0x535441524b4e45545f, lo: 0x434f4e54524143545f41444452455353 }
}

/// Computes the address at which a contract of the given class, salt and
/// constructor calldata is deployed with a zero deployer address.
pub fn compute_contract_address(salt: Felt, class_hash: Felt, constructor_calldata: &[Felt]) -> (r: Felt)
    requires
        salt.wf(),
        class_hash.wf(),
        all_wf(constructor_calldata@),
    ensures
        r.wf(),
        r.value() == contract_address_of(
            salt.value(),
            class_hash.value(),
            values_of(constructor_calldata@),
        ),
        r.value() < address_bound(),
{
    let calldata_hash = hash_on_elements(constructor_calldata);
    let elems: Vec<Felt> = vec![prefix_contract_address(), Felt::zero(), salt, class_hash, calldata_hash];
    let h = hash_on_elements(elems.as_slice());
    assert(values_of(elems@) =~= seq![
        contract_address_prefix(),
        0,
        salt.value(),
        class_hash.value(),
        hash_on_elements_of(values_of(constructor_calldata@)),
    ]);
    felt_rem(h, addr_bound())
}

/// Deriving an address is deterministic: equal salts, class hashes and calldata
/// values always give the same address.
pub proof fn lemma_contract_address_deterministic(
    salt1: int,
    class_hash1: int,
    calldata1: Seq<int>,
    salt2: int,
    class_hash2: int,
    calldata2: Seq<int>,
)
    requires
        salt1 == salt2,
        class_hash1 == class_hash2,
        calldata1 =~= calldata2,
    ensures
        contract_address_of(salt1, class_hash1, calldata1) == contract_address_of(
            salt2,
            class_hash2,
            calldata2,
        ),
{
}

/// Every derived address lies strictly below the address bound 2^251 - 256.
pub proof fn lemma_contract_address_below_bound(salt: int, class_hash: int, calldata: Seq<int>)
    ensures
        0 <= contract_address_of(salt, class_hash, calldata) < address_bound(),
        address_bound() < field_prime(),
{
}

} // verus!
