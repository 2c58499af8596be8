use fetching_cli::credentials::Credentials;

fn sample_creds() -> Credentials {
    Credentials {
        access_token: "acc".into(),
        refresh_token: "ref".into(),
        expires_at: 9999999999,
    }
}

#[test]
fn is_expired_true_for_past() {
    let creds = Credentials {
        access_token: "a".into(),
        refresh_token: "r".into(),
        expires_at: 1,
    };
    assert!(creds.is_expired());
}

#[test]
fn is_expired_false_for_future() {
    assert!(!sample_creds().is_expired());
}
