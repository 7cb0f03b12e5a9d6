use aws_mfa::error::UpdateError;
use aws_mfa::updater::{AwsMfaUpdater, ProviderOutcome, SessionRequest};

fn b(s: &str) -> Vec<u8> {
    s.as_bytes().to_vec()
}

const INPUT: &str = "[default]\n\
aws_access_key_id=STALE\n\
\n\
[default-long-term]\n\
aws_access_key_id=AKIA1\n\
aws_secret_access_key=SECRET1\n\
aws_mfa_device=arn:aws:iam::123456789012:mfa/user\n";

/// 2030-01-01T00:00:00Z as epoch seconds.
const EXPIRY_2030: i64 = 1893456000;

fn session_2030() -> ProviderOutcome {
    ProviderOutcome::Session {
        access_key_id: b("ASIA1"),
        secret_access_key: b("SECRET2"),
        session_token: b("TOK1"),
        expires_at: EXPIRY_2030,
    }
}

/// A provider double that enforces the documented validity window and
/// otherwise answers with a fixed session.
fn fake_provider(request: &SessionRequest) -> ProviderOutcome {
    if request.duration_seconds < 900 || request.duration_seconds > 129600 {
        return ProviderOutcome::AuthenticationRejected;
    }
    session_2030()
}

#[test]
fn end_to_end_success_rewrites_both_profiles() {
    let run_start: i64 = 1767225600; // 2026-01-01T00:00:00Z
    let updater = AwsMfaUpdater::new(&b(INPUT), 43200).unwrap();
    let request = updater.session_request(b("123456")).unwrap();
    let outcome = fake_provider(&request);
    if let ProviderOutcome::Session { expires_at, .. } = &outcome {
        // the provider's expiry lies strictly after the run's start
        assert!(*expires_at > run_start);
    } else {
        panic!("fake provider rejected an in-window duration");
    }
    let content = updater.update_credentials(outcome).unwrap();
    let expected = "[default]\n\
aws_access_key_id=ASIA1\n\
aws_secret_access_key=SECRET2\n\
aws_session_token=TOK1\n\
aws_security_token=TOK1\n\
expiration=2030-01-01T00:00:00Z\n\
\n\
[default-long-term]\n\
aws_access_key_id=AKIA1\n\
aws_secret_access_key=SECRET1\n\
aws_mfa_device=arn:aws:iam::123456789012:mfa/user\n";
    assert_eq!(String::from_utf8(content).unwrap(), expected);
}

#[test]
fn output_carries_the_token_under_both_names() {
    let updater = AwsMfaUpdater::new(&b(INPUT), 3600).unwrap();
    let content = updater.update_credentials(session_2030()).unwrap();
    let text = String::from_utf8(content).unwrap();
    let session_line = text
        .lines()
        .find(|l| l.starts_with("aws_session_token="))
        .unwrap();
    let security_line = text
        .lines()
        .find(|l| l.starts_with("aws_security_token="))
        .unwrap();
    assert_eq!(
        session_line.strip_prefix("aws_session_token=").unwrap(),
        security_line.strip_prefix("aws_security_token=").unwrap()
    );
}

#[test]
fn rewritten_long_term_section_round_trips() {
    let updater = AwsMfaUpdater::new(&b(INPUT), 3600).unwrap();
    let content = updater.update_credentials(session_2030()).unwrap();
    let reloaded = AwsMfaUpdater::new(&content, 3600).unwrap();
    assert_eq!(reloaded.credentials.access_key_id, b("AKIA1"));
    assert_eq!(reloaded.credentials.secret_access_key, b("SECRET1"));
    assert_eq!(
        reloaded.credentials.mfa_device,
        b("arn:aws:iam::123456789012:mfa/user")
    );
}

#[test]
fn request_is_built_only_from_the_supplied_credential() {
    let updater = AwsMfaUpdater::new(&b(INPUT), 43200).unwrap();
    let request = updater.session_request(b("654321")).unwrap();
    assert_eq!(request.access_key_id, b("AKIA1"));
    assert_eq!(request.secret_access_key, b("SECRET1"));
    assert_eq!(request.mfa_serial, b("arn:aws:iam::123456789012:mfa/user"));
    assert_eq!(request.token_code, b("654321"));
    assert_eq!(request.duration_seconds, 43200);
}

#[test]
fn duration_overflowing_signed_width_is_rejected() {
    let updater = AwsMfaUpdater::new(&b(INPUT), 3_000_000_000).unwrap();
    let e = updater.session_request(b("123456")).unwrap_err();
    assert_eq!(e, UpdateError::DurationOutOfRange);
}

#[test]
fn out_of_window_duration_surfaces_as_failure_not_clamp() {
    // below the provider's 900-second floor: the request carries the value
    // unchanged and the (simulated) provider rejects the call
    let updater = AwsMfaUpdater::new(&b(INPUT), 100).unwrap();
    let request = updater.session_request(b("123456")).unwrap();
    assert_eq!(request.duration_seconds, 100);
    let outcome = fake_provider(&request);
    let e = updater.update_credentials(outcome).unwrap_err();
    assert_eq!(e, UpdateError::AuthenticationFailed);
}

#[test]
fn failed_request_leaves_the_file_untouched() {
    let disk: Vec<u8> = b(INPUT);
    let updater = AwsMfaUpdater::new(&disk, 3600).unwrap();
    let result = updater.update_credentials(ProviderOutcome::ConnectionFailed);
    // nothing to persist on failure: the file content stands as it was
    assert_eq!(result.unwrap_err(), UpdateError::NetworkError);
    assert_eq!(disk, b(INPUT));
}

#[test]
fn provider_failures_map_to_their_errors() {
    let updater = AwsMfaUpdater::new(&b(INPUT), 3600).unwrap();
    assert_eq!(
        updater
            .update_credentials(ProviderOutcome::AuthenticationRejected)
            .unwrap_err(),
        UpdateError::AuthenticationFailed
    );
    assert_eq!(
        updater
            .update_credentials(ProviderOutcome::ConnectionFailed)
            .unwrap_err(),
        UpdateError::NetworkError
    );
    assert_eq!(
        updater
            .update_credentials(ProviderOutcome::NoCredentials)
            .unwrap_err(),
        UpdateError::EmptyResponse
    );
}

#[test]
fn unusable_payload_counts_as_empty_response() {
    let updater = AwsMfaUpdater::new(&b(INPUT), 3600).unwrap();
    let with_newline = ProviderOutcome::Session {
        access_key_id: b("ASIA1"),
        secret_access_key: b("SEC\nRET"),
        session_token: b("TOK1"),
        expires_at: EXPIRY_2030,
    };
    assert_eq!(
        updater.update_credentials(with_newline).unwrap_err(),
        UpdateError::EmptyResponse
    );
    let negative_expiry = ProviderOutcome::Session {
        access_key_id: b("ASIA1"),
        secret_access_key: b("SECRET2"),
        session_token: b("TOK1"),
        expires_at: -1,
    };
    assert_eq!(
        updater.update_credentials(negative_expiry).unwrap_err(),
        UpdateError::EmptyResponse
    );
}

#[test]
fn new_propagates_load_failures() {
    let e = AwsMfaUpdater::new(&b("garbage text\n"), 3600).unwrap_err();
    assert_eq!(e, UpdateError::ParseError);
    let e = AwsMfaUpdater::new(&b("[default-long-term]\naws_access_key_id=A\n"), 3600).unwrap_err();
    assert_eq!(e, UpdateError::MissingField(b("aws_secret_access_key")));
}

#[test]
fn carriage_return_line_endings_are_tolerated() {
    let text = "[default-long-term]\r\n\
aws_access_key_id=AKIA1\r\n\
aws_secret_access_key=SECRET1\r\n\
aws_mfa_device=arn:x\r\n";
    let updater = AwsMfaUpdater::new(&b(text), 3600).unwrap();
    assert_eq!(updater.credentials.access_key_id, b("AKIA1"));
    assert_eq!(updater.credentials.mfa_device, b("arn:x"));
}

#[test]
fn latest_representable_expiry_renders() {
    let updater = AwsMfaUpdater::new(&b(INPUT), 3600).unwrap();
    let outcome = ProviderOutcome::Session {
        access_key_id: b("ASIA1"),
        secret_access_key: b("SECRET2"),
        session_token: b("TOK1"),
        expires_at: 253402300799, // 9999-12-31T23:59:59Z
    };
    let content = updater.update_credentials(outcome).unwrap();
    let text = String::from_utf8(content).unwrap();
    assert!(text.contains("expiration=9999-12-31T23:59:59Z\n"));
}

#[test]
fn expiry_past_the_representable_range_is_rejected() {
    let updater = AwsMfaUpdater::new(&b(INPUT), 3600).unwrap();
    let outcome = ProviderOutcome::Session {
        access_key_id: b("ASIA1"),
        secret_access_key: b("SECRET2"),
        session_token: b("TOK1"),
        expires_at: 253402300800,
    };
    assert_eq!(
        updater.update_credentials(outcome).unwrap_err(),
        UpdateError::EmptyResponse
    );
}
