use halo2_inspect::{Fe, Proof, RawField};

fn fe(n: u64) -> Fe {
    <Fe as RawField>::from_u64(n)
}

#[test]
fn a_proof_hands_back_what_it_was_built_from() {
    let data = vec![1u8, 2, 3, 4];
    let instances = vec![vec![fe(6)], vec![], vec![fe(0), fe(9)]];
    let proof = Proof::from(4, data.clone(), instances.clone(), "FactorisationCircuit".to_string());
    assert_eq!(proof.degree(), 4);
    assert_eq!(proof.data(), &data);
    assert_eq!(proof.instances(), &instances);
    assert_eq!(proof.circuit_name(), "FactorisationCircuit");
    assert_eq!(proof.num_instances(), vec![1, 0, 2]);
}

#[test]
fn unpack_copies_all_four_parts() {
    let data = vec![9u8, 8, 7];
    let instances = vec![vec![fe(5), fe(6)]];
    let proof = Proof::from(11, data.clone(), instances.clone(), "Example".to_string());
    let (degree, bytes, unpacked_instances, name) = proof.unpack();
    assert_eq!(degree, 11);
    assert_eq!(bytes, data);
    assert_eq!(unpacked_instances, instances);
    assert_eq!(name, "Example");
    // the original is untouched
    assert_eq!(proof.data(), &data);
}
