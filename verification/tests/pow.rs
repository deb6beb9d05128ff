use word_of_wisdom_pow::pow::{check_solution, hash, PowError, PowProvider, PowSolution, PowSolver};

#[test]
fn test_pow_solver() {
    let challenge = [0, 0, 0, 0, 100, 111, 90, 117];
    let difficulty = 2;
    let invalid_nonce = 0;
    let valid_nonce = 145161;

    assert!(check_solution(invalid_nonce, &challenge.to_vec(), difficulty).is_err());
    assert!(check_solution(valid_nonce, &challenge.to_vec(), difficulty).is_ok());
}

#[test]
fn solver_returns_smallest_valid_nonce_for_fixture() {
    let challenge = vec![0, 0, 0, 0, 100, 111, 90, 117];
    let solver = PowSolver::new(challenge.clone(), 2);
    let nonce = solver.find_nonce().unwrap();
    assert!(check_solution(nonce, &challenge, 2).is_ok());
    // 145161 answers this seed, so the first answer found scanning from 0
    // can be no larger.
    assert!(nonce <= 145161);
}

#[test]
fn solver_nonce_passes_verifier() {
    let seeds: Vec<Vec<u8>> = vec![
        vec![0, 0, 0, 0, 0, 0, 0, 0],
        vec![1, 2, 3, 4, 5, 6, 7, 8],
        vec![255, 254, 253, 252, 251, 250, 249, 248],
    ];
    for difficulty in 0..=1u8 {
        for seed in &seeds {
            let solver = PowSolver::new(seed.clone(), difficulty);
            let nonce = solver.find_nonce().unwrap();
            let provider = PowProvider::new(difficulty);
            let solution = PowSolution::new(seed.clone(), nonce);
            assert!(provider.check_solution(&solution).is_ok());
        }
    }
}

#[test]
fn difficulty_zero_accepts_any_nonce() {
    let seed = vec![9, 9, 9, 9, 9, 9, 9, 9];
    assert!(check_solution(12345, &seed, 0).is_ok());
    let solver = PowSolver::new(seed, 0);
    assert_eq!(solver.find_nonce().unwrap(), 0);
}

#[test]
fn difficulty_beyond_digest_length_rejects() {
    let seed = vec![1, 2, 3, 4, 5, 6, 7, 8];
    let r = check_solution(0, &seed, 33);
    assert!(matches!(r, Err(PowError::WrongSolutionError)));
}

#[test]
fn hash_matches_known_digests() {
    let empty = hash(vec![]);
    let expected_empty = vec![
        0xe3, 0xb0, 0xc4, 0x42, 0x98, 0xfc, 0x1c, 0x14, 0x9a, 0xfb, 0xf4, 0xc8, 0x99, 0x6f,
        0xb9, 0x24, 0x27, 0xae, 0x41, 0xe4, 0x64, 0x9b, 0x93, 0x4c, 0xa4, 0x95, 0x99, 0x1b,
        0x78, 0x52, 0xb8, 0x55,
    ];
    assert_eq!(empty, expected_empty);

    let abc = hash(vec![b'a', b'b', b'c']);
    let expected_abc = vec![
        0xba, 0x78, 0x16, 0xbf, 0x8f, 0x01, 0xcf, 0xea, 0x41, 0x41, 0x40, 0xde, 0x5d, 0xae,
        0x22, 0x23, 0xb0, 0x03, 0x61, 0xa3, 0x96, 0x17, 0x7a, 0x9c, 0xb4, 0x10, 0xff, 0x61,
        0xf2, 0x00, 0x15, 0xad,
    ];
    assert_eq!(abc, expected_abc);
}

#[test]
fn generate_challenge_has_wire_shape() {
    let provider = PowProvider::new(7);
    let message = provider.generate_challenge().unwrap();
    assert_eq!(message.len(), 9);
    assert_eq!(message[8], 7);
}
