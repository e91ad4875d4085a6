use frc42_dispatch::hash::{Hasher, MethodResolver};
use power_pledge::miner::LOCK_CREATE_MINER_DESPOIT_METHOD;

struct Blake2b;

impl Hasher for Blake2b {
    fn hash(&self, bytes: &[u8]) -> Vec<u8> {
        blake2b_simd::Params::new().hash_length(64).hash(bytes).as_bytes().to_vec()
    }
}

#[test]
fn deposit_method_number_is_the_hash_of_its_name() {
    let resolver = MethodResolver::new(Blake2b);
    assert_eq!(
        resolver.method_number("LockCreateMinerDeposit").unwrap(),
        LOCK_CREATE_MINER_DESPOIT_METHOD
    );
    assert_eq!(resolver.method_number("Constructor").unwrap(), 1);
}
