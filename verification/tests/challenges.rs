use elysium::email::{is_live, Delivery, EmailVerifier, EmailVerifyEntry};
use elysium::error::ElyError;
use elysium::id::{digits, generate_custom};

fn issue(verifier: &mut EmailVerifier, email: &str, now: u64) -> String {
    let challenge = verifier.start_verify(email.to_string()).unwrap();
    let code = challenge.token().to_string();
    assert_eq!(verifier.install_at(challenge, Delivery::Sent, now), Ok(()));
    code
}

fn other_code(code: &str) -> String {
    let mut chars: Vec<char> = code.chars().collect();
    chars[0] = if chars[0] == '0' { '1' } else { '0' };
    chars.into_iter().collect()
}

#[test]
fn six_digits_delivered_and_redeemed() {
    let mut verifier = EmailVerifier::new(6, 300);
    let challenge = verifier.start_verify("a@example.com".to_string()).unwrap();
    assert_eq!(challenge.email(), "a@example.com");
    let code = challenge.token().to_string();
    assert_eq!(code.len(), 6);
    assert!(code.chars().all(|c| c.is_ascii_digit()));
    assert_eq!(challenge.template().token, code);
    assert_eq!(verifier.install(challenge, Delivery::Sent), Ok(()));
    assert_eq!(
        verifier.end_verify("a@example.com".to_string(), code),
        Ok("a@example.com".to_string())
    );
}

#[test]
fn a_code_redeems_exactly_once() {
    let mut verifier = EmailVerifier::new(6, 300);
    let code = issue(&mut verifier, "a@example.com", 10);
    assert_eq!(
        verifier.end_verify("a@example.com".to_string(), code.clone()),
        Ok("a@example.com".to_string())
    );
    assert_eq!(
        verifier.end_verify("a@example.com".to_string(), code),
        Err(ElyError::EmailNotVerified)
    );
}

#[test]
fn a_wrong_code_uses_the_challenge_up() {
    let mut verifier = EmailVerifier::new(6, 300);
    let code = issue(&mut verifier, "a@example.com", 10);
    assert_eq!(
        verifier.end_verify("a@example.com".to_string(), other_code(&code)),
        Err(ElyError::EmailNotVerified)
    );
    assert_eq!(
        verifier.end_verify("a@example.com".to_string(), code),
        Err(ElyError::EmailNotVerified)
    );
}

#[test]
fn nothing_to_redeem_without_a_challenge() {
    let mut verifier = EmailVerifier::new(6, 300);
    assert_eq!(
        verifier.end_verify("a@example.com".to_string(), "123456".to_string()),
        Err(ElyError::EmailNotVerified)
    );
    let code = issue(&mut verifier, "a@example.com", 10);
    assert_eq!(
        verifier.end_verify("b@example.com".to_string(), code.clone()),
        Err(ElyError::EmailNotVerified)
    );
    assert_eq!(
        verifier.end_verify("a@example.com".to_string(), code),
        Ok("a@example.com".to_string())
    );
}

#[test]
fn a_new_challenge_replaces_the_old_one() {
    let mut verifier = EmailVerifier::new(12, 300);
    let old = issue(&mut verifier, "a@example.com", 10);
    let new = issue(&mut verifier, "a@example.com", 20);
    if old != new {
        assert_eq!(
            verifier.end_verify("a@example.com".to_string(), old),
            Err(ElyError::EmailNotVerified)
        );
        let again = issue(&mut verifier, "a@example.com", 30);
        assert_eq!(
            verifier.end_verify("a@example.com".to_string(), again),
            Ok("a@example.com".to_string())
        );
    } else {
        assert_eq!(
            verifier.end_verify("a@example.com".to_string(), new),
            Ok("a@example.com".to_string())
        );
    }
}

#[test]
fn the_replacing_challenge_carries_its_own_issue_time() {
    let mut verifier = EmailVerifier::new(6, 100);
    issue(&mut verifier, "a@example.com", 0);
    let code = issue(&mut verifier, "a@example.com", 90);
    verifier.cleanup_at(150);
    assert_eq!(
        verifier.end_verify("a@example.com".to_string(), code),
        Ok("a@example.com".to_string())
    );
}

#[test]
fn a_failed_delivery_installs_nothing() {
    let mut verifier = EmailVerifier::new(6, 300);
    let challenge = verifier.start_verify("a@example.com".to_string()).unwrap();
    let code = challenge.token().to_string();
    assert_eq!(verifier.install_at(challenge, Delivery::Failed, 10), Err(ElyError::Database));
    assert_eq!(
        verifier.end_verify("a@example.com".to_string(), code),
        Err(ElyError::EmailNotVerified)
    );
}

#[test]
fn a_failed_delivery_leaves_the_old_challenge() {
    let mut verifier = EmailVerifier::new(6, 300);
    let code = issue(&mut verifier, "a@example.com", 10);
    let challenge = verifier.start_verify("a@example.com".to_string()).unwrap();
    assert_eq!(verifier.install(challenge, Delivery::Failed), Err(ElyError::Database));
    assert_eq!(
        verifier.end_verify("a@example.com".to_string(), code),
        Ok("a@example.com".to_string())
    );
}

#[test]
fn an_invalid_address_is_refused() {
    let verifier = EmailVerifier::new(6, 300);
    for email in ["", "not-an-address", "@example.com", "a@", "a b@example.com"] {
        assert!(matches!(
            verifier.start_verify(email.to_string()),
            Err(ElyError::InvalidToken)
        ));
    }
    for email in ["a@example.com", "first.last@sub.example.org", "user+tag@example.com"] {
        assert!(verifier.start_verify(email.to_string()).is_ok());
    }
}

#[test]
fn a_sweep_evicts_at_the_expiry() {
    let mut verifier = EmailVerifier::new(6, 300);
    let code = issue(&mut verifier, "a@example.com", 1_000);
    verifier.cleanup_at(1_300);
    assert_eq!(
        verifier.end_verify("a@example.com".to_string(), code),
        Err(ElyError::EmailNotVerified)
    );
}

#[test]
fn a_sweep_keeps_what_is_not_stale() {
    let mut verifier = EmailVerifier::new(6, 300);
    let code = issue(&mut verifier, "a@example.com", 1_000);
    verifier.cleanup_at(1_000);
    verifier.cleanup_at(1_299);
    verifier.cleanup_at(999);
    assert_eq!(
        verifier.end_verify("a@example.com".to_string(), code),
        Ok("a@example.com".to_string())
    );
}

#[test]
fn a_sweep_evicts_only_the_stale() {
    let mut verifier = EmailVerifier::new(6, 300);
    let old = issue(&mut verifier, "old@example.com", 1_000);
    let young = issue(&mut verifier, "young@example.com", 1_200);
    verifier.cleanup_at(1_400);
    assert_eq!(
        verifier.end_verify("old@example.com".to_string(), old),
        Err(ElyError::EmailNotVerified)
    );
    assert_eq!(
        verifier.end_verify("young@example.com".to_string(), young),
        Ok("young@example.com".to_string())
    );
}

#[test]
fn without_a_sweep_an_old_challenge_still_redeems() {
    let mut verifier = EmailVerifier::new(6, 300);
    let code = issue(&mut verifier, "a@example.com", 0);
    assert_eq!(
        verifier.end_verify("a@example.com".to_string(), code),
        Ok("a@example.com".to_string())
    );
}

#[test]
fn a_sweep_by_the_clock() {
    let mut immediate = EmailVerifier::new(6, 0);
    let challenge = immediate.start_verify("a@example.com".to_string()).unwrap();
    let code = challenge.token().to_string();
    assert_eq!(immediate.install(challenge, Delivery::Sent), Ok(()));
    immediate.cleanup();
    assert_eq!(
        immediate.end_verify("a@example.com".to_string(), code),
        Err(ElyError::EmailNotVerified)
    );

    let mut patient = EmailVerifier::new(6, 3_600);
    let challenge = patient.start_verify("a@example.com".to_string()).unwrap();
    let code = challenge.token().to_string();
    assert_eq!(patient.install(challenge, Delivery::Sent), Ok(()));
    patient.cleanup();
    assert_eq!(
        patient.end_verify("a@example.com".to_string(), code),
        Ok("a@example.com".to_string())
    );
}

#[test]
fn staleness_of_an_entry() {
    let entry = EmailVerifyEntry { token: "123456".to_string(), timestamp: 100 };
    assert!(is_live(&entry, 100, 10));
    assert!(is_live(&entry, 109, 10));
    assert!(!is_live(&entry, 110, 10));
    assert!(!is_live(&entry, 1_000, 10));
    assert!(is_live(&entry, 50, 10));
    assert!(!is_live(&entry, 100, 0));
    assert!(is_live(&entry, 99, 0));
    assert!(is_live(&entry, u64::MAX - 1, u64::MAX));
}

#[test]
fn a_thousand_emails_each_redeem_their_own_code() {
    let mut verifier = EmailVerifier::new(6, 300);
    let mut codes = Vec::new();
    for i in 0..1000u64 {
        let email = format!("user{}@example.com", i);
        let code = issue(&mut verifier, &email, i);
        codes.push((email, code));
    }
    for (email, code) in codes {
        assert_eq!(verifier.end_verify(email.clone(), code.clone()), Ok(email.clone()));
        assert_eq!(verifier.end_verify(email, code), Err(ElyError::EmailNotVerified));
    }
}

#[test]
fn redeeming_one_email_leaves_the_other() {
    let mut verifier = EmailVerifier::new(6, 300);
    let a = issue(&mut verifier, "a@example.com", 1);
    let b = issue(&mut verifier, "b@example.com", 2);
    assert_eq!(
        verifier.end_verify("a@example.com".to_string(), other_code(&a)),
        Err(ElyError::EmailNotVerified)
    );
    assert_eq!(
        verifier.end_verify("b@example.com".to_string(), b),
        Ok("b@example.com".to_string())
    );
}

#[test]
fn codes_have_the_configured_length() {
    for len in [0usize, 1, 6, 32] {
        let verifier = EmailVerifier::new(len, 300);
        let code = verifier.generate_token();
        assert_eq!(code.chars().count(), len);
        assert!(code.chars().all(|c| c.is_ascii_digit()));
    }
}

#[test]
fn identifiers_stay_in_their_alphabet() {
    assert_eq!(digits(), vec!['0', '1', '2', '3', '4', '5', '6', '7', '8', '9']);
    let alphabet = vec!['x', 'ß', '語'];
    let id = generate_custom(200, &alphabet);
    assert_eq!(id.chars().count(), 200);
    assert!(id.chars().all(|c| alphabet.contains(&c)));
    assert_eq!(generate_custom(5, &vec!['z']), "zzzzz");
    assert_eq!(generate_custom(0, &alphabet), "");
    assert_eq!(generate_custom(0, &Vec::new()), "");
}

#[test]
fn codes_are_not_all_the_same() {
    let verifier = EmailVerifier::new(16, 300);
    let first = verifier.generate_token();
    let mut differs = false;
    for _ in 0..20 {
        if verifier.generate_token() != first {
            differs = true;
        }
    }
    assert!(differs);
}
