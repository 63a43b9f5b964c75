use bhp::native::BHP;
use bhp::parameters::{MerkleTreeParameters, Testnet2Parameters, MERKLE_TREE_DEPTH};

#[test]
fn records_come_in_pairs() {
    assert_eq!(Testnet2Parameters::num_input_records(), 2);
    assert_eq!(Testnet2Parameters::num_output_records(), 2);
}

#[test]
fn schemes_have_their_windows_and_domains() {
    let expected = [
        (Testnet2Parameters::account_commitment_scheme("AleoAccountCommitment0"), 33, 48, "AleoAccountCommitment0"),
        (Testnet2Parameters::local_data_commitment_scheme(), 24, 62, "AleoLocalDataCommitment0"),
        (Testnet2Parameters::local_data_crh(), 16, 32, "AleoLocalDataCRH0"),
        (Testnet2Parameters::record_commitment_scheme(), 48, 50, "AleoRecordCommitment0"),
        (Testnet2Parameters::record_commitment_tree_crh(), 8, 32, "AleoLedgerMerkleTreeCRH0"),
        (Testnet2Parameters::record_serial_number_tree_crh(), 8, 32, "AleoRecordSerialNumberTreeCRH0"),
        (Testnet2Parameters::serial_number_nonce_crh(), 32, 63, "AleoSerialNumberNonceCRH0"),
    ];
    for (scheme, num_windows, window_size, domain) in expected {
        let scheme = scheme.unwrap();
        assert_eq!(scheme.table().num_windows(), num_windows);
        assert_eq!(scheme.table().window_size(), window_size);
        assert_eq!(scheme.max_bits(), num_windows as usize * window_size as usize * 3);
        assert_eq!(scheme, BHP::setup(num_windows, window_size, domain).unwrap());
    }
}

#[test]
fn trees_have_the_standard_depth() {
    assert_eq!(MERKLE_TREE_DEPTH, 32);
    let commitments = Testnet2Parameters::record_commitment_tree_parameters().unwrap();
    assert_eq!(commitments.depth, 32);
    assert_eq!(commitments.crh, Testnet2Parameters::record_commitment_tree_crh().unwrap());
    let serial_numbers = Testnet2Parameters::record_serial_number_tree_parameters().unwrap();
    assert_eq!(serial_numbers.depth, 32);
    assert_eq!(serial_numbers.crh, Testnet2Parameters::record_serial_number_tree_crh().unwrap());
    assert_ne!(commitments.crh, serial_numbers.crh);
    let made = MerkleTreeParameters::from(commitments.crh.clone());
    assert_eq!(made, commitments);
}
