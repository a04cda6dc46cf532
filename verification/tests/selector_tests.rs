use buddy_link::utils::get_instruction_name_data;

#[test]
fn test_selector_deterministic() {
    let first = get_instruction_name_data("transfer_reward_spl");
    let second = get_instruction_name_data("transfer_reward_spl");
    assert_eq!(first, second);
    assert_eq!(first.len(), 8);
}

#[test]
fn test_selectors_distinct_per_operation() {
    let selectors = vec![
        get_instruction_name_data("transfer_reward_unchecked_multiple"),
        get_instruction_name_data("transfer_reward_secure_no_global"),
        get_instruction_name_data("transfer_reward_spl"),
        get_instruction_name_data("transfer_reward_global"),
    ];
    for i in 0..selectors.len() {
        for j in 0..selectors.len() {
            if i != j {
                assert_ne!(selectors[i], selectors[j]);
            }
        }
    }
}

#[test]
fn test_selector_known_values() {
    assert_eq!(
        get_instruction_name_data("transfer_reward_unchecked_multiple"),
        vec![228, 217, 40, 252, 58, 66, 148, 69]
    );
    assert_eq!(
        get_instruction_name_data("transfer_reward_secure_no_global"),
        vec![174, 15, 234, 146, 49, 183, 195, 64]
    );
    assert_eq!(
        get_instruction_name_data("transfer_reward_spl"),
        vec![96, 240, 108, 156, 27, 222, 43, 52]
    );
    assert_eq!(
        get_instruction_name_data("transfer_reward_global"),
        vec![160, 201, 210, 182, 93, 220, 117, 92]
    );
}

#[test]
fn test_selector_matches_sha256_prefix() {
    for name in ["transfer_reward_spl", "validate_referrer", "another_operation"] {
        let digest = solana_program::hash::hash(format!("global:{}", name).as_bytes());
        let expected = digest.to_bytes()[..8].to_vec();
        assert_eq!(get_instruction_name_data(name), expected);
    }
}
