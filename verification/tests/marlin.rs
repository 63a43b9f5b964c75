use bhp::field::FieldElement;
use bhp::marlin::{BatchLCProof, Commitment, OpeningProof, Proof, ProverMessage, SizeInfo};

fn element(n: u64) -> FieldElement {
    FieldElement::new([n, 0, 0, 0]).unwrap()
}

#[test]
fn new_keeps_its_arguments() {
    let commitments = vec![vec![Commitment { has_degree_bound: true, serialized_size: 7 }]];
    let evaluations = vec![element(1), element(2)];
    let prover_messages = vec![ProverMessage { field_elements: vec![element(3)] }];
    let pc_proof = BatchLCProof { proof: vec![OpeningProof { serialized_size: 5 }], evals: None };
    let proof = Proof::new(commitments.clone(), evaluations.clone(), prover_messages.clone(), pc_proof.clone());
    assert_eq!(proof.commitments, commitments);
    assert_eq!(proof.evaluations, evaluations);
    assert_eq!(proof.prover_messages, prover_messages);
    assert_eq!(proof.pc_proof, pc_proof);
}

#[test]
fn size_info_adds_up() {
    let commitments = vec![
        vec![
            Commitment { has_degree_bound: false, serialized_size: 48 },
            Commitment { has_degree_bound: true, serialized_size: 97 },
            Commitment { has_degree_bound: false, serialized_size: 48 },
        ],
        vec![],
        vec![Commitment { has_degree_bound: true, serialized_size: 97 }, Commitment {
            has_degree_bound: false,
            serialized_size: 50,
        }],
    ];
    let evaluations = vec![element(1), element(2), element(3)];
    let prover_messages = vec![
        ProverMessage { field_elements: vec![] },
        ProverMessage { field_elements: vec![element(4), element(5)] },
        ProverMessage { field_elements: vec![element(6)] },
    ];
    let pc_proof = BatchLCProof {
        proof: vec![OpeningProof { serialized_size: 49 }, OpeningProof { serialized_size: 51 }],
        evals: Some(vec![element(9)]),
    };
    let proof = Proof::new(commitments, evaluations, prover_messages, pc_proof);
    assert_eq!(proof.size_info(), SizeInfo {
        argument_size: 194 + 146 + 100 + 96 + 96,
        num_comms_without_degree_bounds: 3,
        size_bytes_comms_without_degree_bounds: 146,
        num_comms_with_degree_bounds: 2,
        size_bytes_comms_with_degree_bounds: 194,
        num_proofs: 2,
        size_bytes_proofs: 100,
        num_evaluations: 3,
        evaluation_size_in_bytes: 96,
        num_prover_messages: 3,
        prover_message_size_in_bytes: 96,
    });
}

#[test]
fn size_info_of_an_empty_proof_is_zero() {
    let proof = Proof::new(vec![], vec![], vec![], BatchLCProof { proof: vec![], evals: None });
    assert_eq!(proof.size_info(), SizeInfo {
        argument_size: 0,
        num_comms_without_degree_bounds: 0,
        size_bytes_comms_without_degree_bounds: 0,
        num_comms_with_degree_bounds: 0,
        size_bytes_comms_with_degree_bounds: 0,
        num_proofs: 0,
        size_bytes_proofs: 0,
        num_evaluations: 0,
        evaluation_size_in_bytes: 0,
        num_prover_messages: 0,
        prover_message_size_in_bytes: 0,
    });
}

#[test]
fn statistics_are_written_as_text() {
    let commitments = vec![vec![
        Commitment { has_degree_bound: false, serialized_size: 1048 },
        Commitment { has_degree_bound: true, serialized_size: 97 },
    ]];
    let prover_messages = vec![ProverMessage { field_elements: vec![element(4); 12] }];
    let pc_proof = BatchLCProof { proof: vec![OpeningProof { serialized_size: 490 }], evals: None };
    let proof = Proof::new(commitments, vec![element(1); 10], prover_messages, pc_proof);
    let expected = format!(
        "Argument size in bytes: {}\n\n\
         Number of commitments without degree bounds: {}\n\
         Size (in bytes) of commitments without degree bounds: {}\n\
         Number of commitments with degree bounds: {}\n\
         Size (in bytes) of commitments with degree bounds: {}\n\n\
         Number of evaluation proofs: {}\n\
         Size (in bytes) of evaluation proofs: {}\n\n\
         Number of evaluations: {}\n\
         Size (in bytes) of evaluations: {}\n\n\
         Number of field elements in prover messages: {}\n\
         Size (in bytes) of prover message: {}\n",
        1048 + 97 + 490 + 384 + 320,
        1,
        1048,
        1,
        97,
        1,
        490,
        10,
        320,
        12,
        384,
    );
    assert_eq!(String::from_utf8(proof.print_size_info()).unwrap(), expected);
    assert_eq!(proof.size_info().to_text(), expected.into_bytes());
}
