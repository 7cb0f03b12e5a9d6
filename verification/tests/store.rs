use aws_mfa::error::UpdateError;
use aws_mfa::store::{load_long_term, render_long_term};

fn b(s: &str) -> Vec<u8> {
    s.as_bytes().to_vec()
}

const WELL_FORMED: &str = "[default]\n\
aws_access_key_id=ASIA0\n\
aws_secret_access_key=OLD\n\
\n\
[default-long-term]\n\
aws_access_key_id=AKIA1\n\
aws_secret_access_key=SECRET1\n\
aws_mfa_device=arn:aws:iam::123456789012:mfa/user\n";

#[test]
fn load_well_formed_yields_exact_values() {
    let c = load_long_term(&b(WELL_FORMED)).unwrap();
    assert_eq!(c.access_key_id, b("AKIA1"));
    assert_eq!(c.secret_access_key, b("SECRET1"));
    assert_eq!(c.mfa_device, b("arn:aws:iam::123456789012:mfa/user"));
}

#[test]
fn load_tolerates_comments_whitespace_and_strays() {
    let text = "; a comment\n\
# another\n\
  [default-long-term]  \n\
  aws_access_key_id = AKIA1  \n\
stray=kept-on-read-ignored\n\
aws_secret_access_key=SECRET1\n\
aws_mfa_device=arn:x\n\
[other]\n\
aws_access_key_id=NOT-THIS-ONE\n";
    let c = load_long_term(&b(text)).unwrap();
    assert_eq!(c.access_key_id, b("AKIA1"));
    assert_eq!(c.secret_access_key, b("SECRET1"));
    assert_eq!(c.mfa_device, b("arn:x"));
}

#[test]
fn load_last_binding_wins() {
    let text = "[default-long-term]\n\
aws_access_key_id=FIRST\n\
aws_access_key_id=SECOND\n\
aws_secret_access_key=S\n\
aws_mfa_device=D\n";
    let c = load_long_term(&b(text)).unwrap();
    assert_eq!(c.access_key_id, b("SECOND"));
}

#[test]
fn load_missing_access_key_names_field() {
    let text = "[default-long-term]\n\
aws_secret_access_key=SECRET1\n\
aws_mfa_device=arn:x\n";
    let e = load_long_term(&b(text)).unwrap_err();
    assert_eq!(e, UpdateError::MissingField(b("aws_access_key_id")));
}

#[test]
fn load_missing_secret_names_field() {
    let text = "[default-long-term]\n\
aws_access_key_id=AKIA1\n\
aws_mfa_device=arn:x\n";
    let e = load_long_term(&b(text)).unwrap_err();
    assert_eq!(e, UpdateError::MissingField(b("aws_secret_access_key")));
}

#[test]
fn load_missing_mfa_device_names_field() {
    let text = "[default-long-term]\n\
aws_access_key_id=AKIA1\n\
aws_secret_access_key=SECRET1\n";
    let e = load_long_term(&b(text)).unwrap_err();
    assert_eq!(e, UpdateError::MissingField(b("aws_mfa_device")));
}

#[test]
fn load_empty_value_counts_as_missing() {
    let text = "[default-long-term]\n\
aws_access_key_id=\n\
aws_secret_access_key=SECRET1\n\
aws_mfa_device=arn:x\n";
    let e = load_long_term(&b(text)).unwrap_err();
    assert_eq!(e, UpdateError::MissingField(b("aws_access_key_id")));
}

#[test]
fn load_rejects_non_section_key_value_text() {
    let e = load_long_term(&b("this is not an ini file\n")).unwrap_err();
    assert_eq!(e, UpdateError::ParseError);
}

#[test]
fn load_rejects_unclosed_section_header() {
    let e = load_long_term(&b("[default-long-term\naws_access_key_id=A\n")).unwrap_err();
    assert_eq!(e, UpdateError::ParseError);
}

#[test]
fn load_missing_section_entirely() {
    let e = load_long_term(&b("[default]\naws_access_key_id=ASIA0\n")).unwrap_err();
    assert_eq!(e, UpdateError::MissingField(b("aws_access_key_id")));
}

#[test]
fn render_long_term_is_exact() {
    let c = load_long_term(&b(WELL_FORMED)).unwrap();
    let out = render_long_term(&c);
    assert_eq!(
        out,
        b("aws_access_key_id=AKIA1\naws_secret_access_key=SECRET1\naws_mfa_device=arn:aws:iam::123456789012:mfa/user")
    );
}

#[test]
fn error_messages_name_each_failure() {
    assert_eq!(UpdateError::NotFound.message(), "credentials file not found");
    assert_eq!(
        UpdateError::HomeDirUnresolvable.message(),
        "could not determine home directory"
    );
    assert_eq!(
        UpdateError::ParseError.message(),
        "credentials file is not valid section/key-value text"
    );
    assert_eq!(
        UpdateError::MissingField(b("aws_mfa_device")).message(),
        "missing required field in the default-long-term profile"
    );
    assert_eq!(
        UpdateError::AuthenticationFailed.message(),
        "authentication failed: credential or MFA code rejected"
    );
    assert_eq!(
        UpdateError::DurationOutOfRange.message(),
        "session duration does not fit the provider's accepted range"
    );
    assert_eq!(
        UpdateError::NetworkError.message(),
        "could not reach the token provider"
    );
    assert_eq!(
        UpdateError::EmptyResponse.message(),
        "token provider returned no credentials"
    );
    assert_eq!(UpdateError::IoError.message(), "input/output failure");
}
