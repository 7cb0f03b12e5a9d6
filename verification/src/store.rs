//! The credential store: parsing the on-disk credential file into the
//! long-term credential, and rendering the rewritten file. Both directions
//! are defined by spec functions over the file's bytes, and the round trip
//! between them is proved.

use vstd::prelude::*;

use crate::credentials::AwsCredentials;
use crate::error::UpdateError;
use crate::ini::{
    classify, clean_value, ini_lookup, lemma_classify_empty, lemma_classify_header,
    lemma_classify_pair, lemma_lookup_value_clean, lemma_split_lines_single,
    lemma_split_lines_step, lines_ok, lines_ok_from, name_ok, scan_value, split_lines, Line,
    SpecLine,
};
use crate::ini::{classify_line, split_lines_exec};
use crate::session::{lemma_timestamp_clean, rfc3339_of, SessionCredential};
use crate::session::format_rfc3339;
use crate::text::{bytes_eq, has_byte, lemma_has_byte};
use vstd::pervasive::unreached;

verus! {

/// `default`
pub open spec fn section_default() -> Seq<u8> {
    seq![100u8, 101, 102, 97, 117, 108, 116]
}

/// `default-long-term`
pub open spec fn section_long_term() -> Seq<u8> {
    seq![100u8, 101, 102, 97, 117, 108, 116, 45, 108, 111, 110, 103, 45, 116, 101, 114, 109]
}

/// `aws_access_key_id`
pub open spec fn key_access_key_id() -> Seq<u8> {
    seq![97u8, 119, 115, 95, 97, 99, 99, 101, 115, 115, 95, 107, 101, 121, 95, 105, 100]
}

/// `aws_secret_access_key`
pub open spec fn key_secret_access_key() -> Seq<u8> {
    seq![97u8, 119, 115, 95, 115, 101, 99, 114, 101, 116, 95, 97, 99, 99, 101, 115, 115, 95, 107, 101, 121]
}

/// `aws_mfa_device`
pub open spec fn key_mfa_device() -> Seq<u8> {
    seq![97u8, 119, 115, 95, 109, 102, 97, 95, 100, 101, 118, 105, 99, 101]
}

/// `aws_session_token`
pub open spec fn key_session_token() -> Seq<u8> {
    seq![97u8, 119, 115, 95, 115, 101, 115, 115, 105, 111, 110, 95, 116, 111, 107, 101, 110]
}

/// `aws_security_token`
pub open spec fn key_security_token() -> Seq<u8> {
    seq![97u8, 119, 115, 95, 115, 101, 99, 117, 114, 105, 116, 121, 95, 116, 111, 107, 101, 110]
}

/// `expiration`
pub open spec fn key_expiration() -> Seq<u8> {
    seq![101u8, 120, 112, 105, 114, 97, 116, 105, 111, 110]
}

/// `default` as bytes.
pub fn section_default_bytes() -> (r: Vec<u8>)
    ensures
        r@ == section_default(),
{
    let mut r: Vec<u8> = Vec::new();
    r.push(100);
    r.push(101);
    r.push(102);
    r.push(97);
    r.push(117);
    r.push(108);
    r.push(116);
    proof {
        assert(r@ =~= section_default());
    }
    r
}

/// `default-long-term` as bytes.
pub fn section_long_term_bytes() -> (r: Vec<u8>)
    ensures
        r@ == section_long_term(),
{
    let mut r: Vec<u8> = Vec::new();
    r.push(100);
    r.push(101);
    r.push(102);
    r.push(97);
    r.push(117);
    r.push(108);
    r.push(116);
    r.push(45);
    r.push(108);
    r.push(111);
    r.push(110);
    r.push(103);
    r.push(45);
    r.push(116);
    r.push(101);
    r.push(114);
    r.push(109);
    proof {
        assert(r@ =~= section_long_term());
    }
    r
}

/// `aws_access_key_id` as bytes.
pub fn key_access_key_id_bytes() -> (r: Vec<u8>)
    ensures
        r@ == key_access_key_id(),
{
    let mut r: Vec<u8> = Vec::new();
    r.push(97);
    r.push(119);
    r.push(115);
    r.push(95);
    r.push(97);
    r.push(99);
    r.push(99);
    r.push(101);
    r.push(115);
    r.push(115);
    r.push(95);
    r.push(107);
    r.push(101);
    r.push(121);
    r.push(95);
    r.push(105);
    r.push(100);
    proof {
        assert(r@ =~= key_access_key_id());
    }
    r
}

/// `aws_secret_access_key` as bytes.
pub fn key_secret_access_key_bytes() -> (r: Vec<u8>)
    ensures
        r@ == key_secret_access_key(),
{
    let mut r: Vec<u8> = Vec::new();
    r.push(97);
    r.push(119);
    r.push(115);
    r.push(95);
    r.push(115);
    r.push(101);
    r.push(99);
    r.push(114);
    r.push(101);
    r.push(116);
    r.push(95);
    r.push(97);
    r.push(99);
    r.push(99);
    r.push(101);
    r.push(115);
    r.push(115);
    r.push(95);
    r.push(107);
    r.push(101);
    r.push(121);
    proof {
        assert(r@ =~= key_secret_access_key());
    }
    r
}

/// `aws_mfa_device` as bytes.
pub fn key_mfa_device_bytes() -> (r: Vec<u8>)
    ensures
        r@ == key_mfa_device(),
{
    let mut r: Vec<u8> = Vec::new();
    r.push(97);
    r.push(119);
    r.push(115);
    r.push(95);
    r.push(109);
    r.push(102);
    r.push(97);
    r.push(95);
    r.push(100);
    r.push(101);
    r.push(118);
    r.push(105);
    r.push(99);
    r.push(101);
    proof {
        assert(r@ =~= key_mfa_device());
    }
    r
}

/// `aws_session_token` as bytes.
pub fn key_session_token_bytes() -> (r: Vec<u8>)
    ensures
        r@ == key_session_token(),
{
    let mut r: Vec<u8> = Vec::new();
    r.push(97);
    r.push(119);
    r.push(115);
    r.push(95);
    r.push(115);
    r.push(101);
    r.push(115);
    r.push(115);
    r.push(105);
    r.push(111);
    r.push(110);
    r.push(95);
    r.push(116);
    r.push(111);
    r.push(107);
    r.push(101);
    r.push(110);
    proof {
        assert(r@ =~= key_session_token());
    }
    r
}

/// `aws_security_token` as bytes.
pub fn key_security_token_bytes() -> (r: Vec<u8>)
    ensures
        r@ == key_security_token(),
{
    let mut r: Vec<u8> = Vec::new();
    r.push(97);
    r.push(119);
    r.push(115);
    r.push(95);
    r.push(115);
    r.push(101);
    r.push(99);
    r.push(117);
    r.push(114);
    r.push(105);
    r.push(116);
    r.push(121);
    r.push(95);
    r.push(116);
    r.push(111);
    r.push(107);
    r.push(101);
    r.push(110);
    proof {
        assert(r@ =~= key_security_token());
    }
    r
}

/// `expiration` as bytes.
pub fn key_expiration_bytes() -> (r: Vec<u8>)
    ensures
        r@ == key_expiration(),
{
    let mut r: Vec<u8> = Vec::new();
    r.push(101);
    r.push(120);
    r.push(112);
    r.push(105);
    r.push(114);
    r.push(97);
    r.push(116);
    r.push(105);
    r.push(111);
    r.push(110);
    proof {
        assert(r@ =~= key_expiration());
    }
    r
}

/// The byte alphabet of the fixed field and section names: lower-case ASCII
/// letters, `_` and `-`.
pub open spec fn name_charset(b: u8) -> bool {
    (97 <= b <= 122) || b == 95 || b == 45
}

/// Every byte of `s` from `i` on lies in the name alphabet.
pub open spec fn in_charset_from(s: Seq<u8>, i: int) -> bool
    decreases s.len() - i,
{
    if i < 0 || i >= s.len() {
        true
    } else {
        name_charset(s[i]) && in_charset_from(s, i + 1)
    }
}

proof fn lemma_charset_all(s: Seq<u8>, i: int)
    requires
        0 <= i <= s.len(),
        in_charset_from(s, i),
    ensures
        forall|j: int| i <= j < s.len() ==> name_charset(#[trigger] s[j]),
    decreases s.len() - i,
{
    if i < s.len() {
        lemma_charset_all(s, i + 1);
    }
}

/// A non-empty sequence over the name alphabet is a well-formed key or
/// section name.
proof fn lemma_charset_name_ok(s: Seq<u8>)
    requires
        s.len() > 0,
        in_charset_from(s, 0),
    ensures
        name_ok(s),
{
    lemma_charset_all(s, 0);
    lemma_has_byte(s, 10);
    lemma_has_byte(s, 61);
}

/// The fixed names are well formed, and the ones that could collide differ.
pub proof fn lemma_names()
    ensures
        name_ok(section_default()),
        name_ok(section_long_term()),
        name_ok(key_access_key_id()),
        name_ok(key_secret_access_key()),
        name_ok(key_mfa_device()),
        name_ok(key_session_token()),
        name_ok(key_security_token()),
        name_ok(key_expiration()),
        section_default() != section_long_term(),
        key_access_key_id() != key_secret_access_key(),
        key_access_key_id() != key_mfa_device(),
        key_secret_access_key() != key_mfa_device(),
        key_access_key_id() != key_session_token(),
        key_access_key_id() != key_security_token(),
        key_access_key_id() != key_expiration(),
        key_secret_access_key() != key_session_token(),
        key_secret_access_key() != key_security_token(),
        key_secret_access_key() != key_expiration(),
        key_session_token() != key_security_token(),
        key_session_token() != key_expiration(),
        key_security_token() != key_expiration(),
{
    reveal_with_fuel(in_charset_from, 25);
    assert(in_charset_from(section_default(), 0));
    assert(in_charset_from(section_long_term(), 0));
    assert(in_charset_from(key_access_key_id(), 0));
    assert(in_charset_from(key_secret_access_key(), 0));
    assert(in_charset_from(key_mfa_device(), 0));
    assert(in_charset_from(key_session_token(), 0));
    assert(in_charset_from(key_security_token(), 0));
    assert(in_charset_from(key_expiration(), 0));
    lemma_charset_name_ok(section_default());
    lemma_charset_name_ok(section_long_term());
    lemma_charset_name_ok(key_access_key_id());
    lemma_charset_name_ok(key_secret_access_key());
    lemma_charset_name_ok(key_mfa_device());
    lemma_charset_name_ok(key_session_token());
    lemma_charset_name_ok(key_security_token());
    lemma_charset_name_ok(key_expiration());
    assert(key_access_key_id()[4] == 97);
    assert(key_session_token()[4] == 115);
    assert(key_access_key_id().len() == 17);
    assert(key_secret_access_key().len() == 21);
    assert(key_mfa_device().len() == 14);
    assert(key_session_token().len() == 17);
    assert(key_security_token().len() == 18);
    assert(key_expiration().len() == 10);
    assert(section_default().len() == 7);
    assert(section_long_term().len() == 17);
}

/// What loading a credential file yields, defined on the file's bytes.
pub enum LoadOutcome {
    /// The text is not section/key-value text.
    ParseFailure,
    /// The named required field is absent from `default-long-term`, or empty.
    Missing { field: Seq<u8> },
    /// The three long-term fields, exactly as the file carries them.
    Loaded { access_key_id: Seq<u8>, secret_access_key: Seq<u8>, mfa_device: Seq<u8> },
}

/// The value of `key` in the `default-long-term` section, with an empty value
/// counting as absent: an empty field cannot build the credential.
pub open spec fn nonempty_lookup(lines: Seq<Seq<u8>>, key: Seq<u8>) -> Option<Seq<u8>> {
    match ini_lookup(lines, section_long_term(), key) {
        Some(v) => if v.len() > 0 {
            Some(v)
        } else {
            None
        },
        None => None,
    }
}

/// What `load_long_term` yields for a file's bytes: a parse failure, the
/// first missing required field (in the fixed order access key, secret key,
/// MFA device), or the three field values.
pub open spec fn spec_load(text: Seq<u8>) -> LoadOutcome {
    let lines = split_lines(text);
    if !lines_ok(lines) {
        LoadOutcome::ParseFailure
    } else {
        match nonempty_lookup(lines, key_access_key_id()) {
            None => LoadOutcome::Missing { field: key_access_key_id() },
            Some(access_key_id) => match nonempty_lookup(lines, key_secret_access_key()) {
                None => LoadOutcome::Missing { field: key_secret_access_key() },
                Some(secret_access_key) => match nonempty_lookup(lines, key_mfa_device()) {
                    None => LoadOutcome::Missing { field: key_mfa_device() },
                    Some(mfa_device) => LoadOutcome::Loaded {
                        access_key_id,
                        secret_access_key,
                        mfa_device,
                    },
                },
            },
        }
    }
}

/// How an executable load result realises a load outcome.
pub open spec fn load_matches(r: Result<AwsCredentials, UpdateError>, o: LoadOutcome) -> bool {
    match o {
        LoadOutcome::ParseFailure => r == Err::<AwsCredentials, UpdateError>(
            UpdateError::ParseError,
        ),
        LoadOutcome::Missing { field } => r matches Err(UpdateError::MissingField(f)) && f@
            == field,
        LoadOutcome::Loaded { access_key_id, secret_access_key, mfa_device } => r matches Ok(c)
            && c.access_key_id@ == access_key_id && c.secret_access_key@ == secret_access_key
            && c.mfa_device@ == mfa_device,
    }
}

/// Option of bytes, viewed.
pub open spec fn ov(o: Option<Vec<u8>>) -> Option<Seq<u8>> {
    match o {
        Some(v) => Some(v@),
        None => None,
    }
}

/// Parses the credential file and extracts the long-term credential from the
/// `default-long-term` section. Extra sections and fields are ignored; a
/// later binding of a required key overrides an earlier one; a required field
/// that is absent or empty fails with its name.
pub fn load_long_term(text: &Vec<u8>) -> (r: Result<AwsCredentials, UpdateError>)
    ensures
        load_matches(r, spec_load(text@)),
{
    let lines = split_lines_exec(text);
    let ghost glines = split_lines(text@);
    let sect = section_long_term_bytes();
    let k_id = key_access_key_id_bytes();
    let k_secret = key_secret_access_key_bytes();
    let k_mfa = key_mfa_device_bytes();
    let n = lines.len();
    let mut in_lt: bool = false;
    let mut f_id: Option<Vec<u8>> = None;
    let mut f_secret: Option<Vec<u8>> = None;
    let mut f_mfa: Option<Vec<u8>> = None;
    let mut i: usize = 0;
    proof {
        lemma_names();
    }
    while i < n
        invariant
            0 <= i <= n,
            n == glines.len(),
            glines == split_lines(text@),
            lines.deep_view() == glines,
            sect@ == section_long_term(),
            k_id@ == key_access_key_id(),
            k_secret@ == key_secret_access_key(),
            k_mfa@ == key_mfa_device(),
            key_access_key_id() != key_secret_access_key(),
            key_access_key_id() != key_mfa_device(),
            key_secret_access_key() != key_mfa_device(),
            lines_ok(glines) <==> lines_ok_from(glines, i as int),
            ini_lookup(glines, section_long_term(), key_access_key_id()) == scan_value(
                glines,
                i as int,
                in_lt,
                ov(f_id),
                section_long_term(),
                key_access_key_id(),
            ),
            ini_lookup(glines, section_long_term(), key_secret_access_key()) == scan_value(
                glines,
                i as int,
                in_lt,
                ov(f_secret),
                section_long_term(),
                key_secret_access_key(),
            ),
            ini_lookup(glines, section_long_term(), key_mfa_device()) == scan_value(
                glines,
                i as int,
                in_lt,
                ov(f_mfa),
                section_long_term(),
                key_mfa_device(),
            ),
        decreases n - i,
    {
        proof {
            assert(glines[i as int] == lines@[i as int].deep_view());
            assert(lines@[i as int].deep_view() =~= lines@[i as int]@);
        }
        let parsed = classify_line(&lines[i]);
        match parsed {
            Line::Bad => {
                proof {
                    assert(!lines_ok_from(glines, i as int));
                    assert(!lines_ok(glines));
                    assert(spec_load(text@) == LoadOutcome::ParseFailure);
                }
                return Err(UpdateError::ParseError);
            },
            Line::Section(name) => {
                let hit = bytes_eq(&name, &sect);
                in_lt = hit;
            },
            Line::Pair(k, v) => {
                if in_lt {
                    if bytes_eq(&k, &k_id) {
                        f_id = Some(v);
                    } else if bytes_eq(&k, &k_secret) {
                        f_secret = Some(v);
                    } else if bytes_eq(&k, &k_mfa) {
                        f_mfa = Some(v);
                    }
                }
            },
            Line::Blank => {},
        }
        i = i + 1;
    }
    proof {
        assert(lines_ok_from(glines, n as int));
        assert(ini_lookup(glines, section_long_term(), key_access_key_id()) == ov(f_id));
        assert(ini_lookup(glines, section_long_term(), key_secret_access_key()) == ov(f_secret));
        assert(ini_lookup(glines, section_long_term(), key_mfa_device()) == ov(f_mfa));
    }
    let id = match f_id {
        None => {
            return Err(UpdateError::MissingField(k_id));
        },
        Some(v) => v,
    };
    if id.len() == 0 {
        return Err(UpdateError::MissingField(k_id));
    }
    let secret = match f_secret {
        None => {
            return Err(UpdateError::MissingField(k_secret));
        },
        Some(v) => v,
    };
    if secret.len() == 0 {
        return Err(UpdateError::MissingField(k_secret));
    }
    let mfa = match f_mfa {
        None => {
            return Err(UpdateError::MissingField(k_mfa));
        },
        Some(v) => v,
    };
    if mfa.len() == 0 {
        return Err(UpdateError::MissingField(k_mfa));
    }
    Ok(AwsCredentials::new(id, secret, mfa))
}

/// `[name]`
pub open spec fn header_line(name: Seq<u8>) -> Seq<u8> {
    seq![91u8] + name + seq![93u8]
}

/// `key=value`
pub open spec fn pair_line(key: Seq<u8>, value: Seq<u8>) -> Seq<u8> {
    key + seq![61u8] + value
}

/// The serialized long-term section body: the three fields, one per line, no
/// trailing newline.
pub open spec fn spec_render_long_term(
    access_key_id: Seq<u8>,
    secret_access_key: Seq<u8>,
    mfa_device: Seq<u8>,
) -> Seq<u8> {
    pair_line(key_access_key_id(), access_key_id) + seq![10u8] + pair_line(
        key_secret_access_key(),
        secret_access_key,
    ) + seq![10u8] + pair_line(key_mfa_device(), mfa_device)
}

/// The whole rewritten file: the `default` section with the five session
/// fields (the session token under both its names), a blank line, then the
/// `default-long-term` section with the three long-term fields.
pub open spec fn spec_render_file(
    sa: Seq<u8>,
    ss: Seq<u8>,
    st: Seq<u8>,
    exp: Seq<u8>,
    la: Seq<u8>,
    ls: Seq<u8>,
    lm: Seq<u8>,
) -> Seq<u8> {
    header_line(section_default())
        + (seq![10u8]
        + (pair_line(key_access_key_id(), sa)
        + (seq![10u8]
        + (pair_line(key_secret_access_key(), ss)
        + (seq![10u8]
        + (pair_line(key_session_token(), st)
        + (seq![10u8]
        + (pair_line(key_security_token(), st)
        + (seq![10u8]
        + (pair_line(key_expiration(), exp)
        + (seq![10u8]
        + (Seq::<u8>::empty()
        + (seq![10u8]
        + (header_line(section_long_term())
        + (seq![10u8]
        + (pair_line(key_access_key_id(), la)
        + (seq![10u8]
        + (pair_line(key_secret_access_key(), ls)
        + (seq![10u8]
        + (pair_line(key_mfa_device(), lm) + seq![10u8]))))))))))))))))))))
}

proof fn lemma_header_line_no_lf(name: Seq<u8>)
    requires
        !has_byte(name, 10),
    ensures
        !has_byte(header_line(name), 10),
{
    let line = header_line(name);
    lemma_has_byte(line, 10);
    lemma_has_byte(name, 10);
    if has_byte(line, 10) {
        let p = choose|p: int| 0 <= p < line.len() && line[p] == 10;
        if 1 <= p < line.len() - 1 {
            assert(name[p - 1] == 10);
        }
    }
}

proof fn lemma_pair_line_no_lf(key: Seq<u8>, value: Seq<u8>)
    requires
        !has_byte(key, 10),
        !has_byte(value, 10),
    ensures
        !has_byte(pair_line(key, value), 10),
{
    let line = pair_line(key, value);
    lemma_has_byte(line, 10);
    lemma_has_byte(key, 10);
    lemma_has_byte(value, 10);
    if has_byte(line, 10) {
        let p = choose|p: int| 0 <= p < line.len() && line[p] == 10;
        if p < key.len() {
            assert(key[p] == 10);
        } else if p > key.len() {
            assert(value[p - key.len() - 1] == 10);
        }
    }
}

/// The rendered file splits into exactly these twelve lines.
#[verifier::rlimit(100)]
#[verifier::spinoff_prover]
pub proof fn lemma_rendered_lines(
    sa: Seq<u8>,
    ss: Seq<u8>,
    st: Seq<u8>,
    exp: Seq<u8>,
    la: Seq<u8>,
    ls: Seq<u8>,
    lm: Seq<u8>,
)
    requires
        clean_value(sa),
        clean_value(ss),
        clean_value(st),
        clean_value(exp),
        clean_value(la),
        clean_value(ls),
        clean_value(lm),
    ensures
        split_lines(spec_render_file(sa, ss, st, exp, la, ls, lm)) == seq![
            header_line(section_default()),
            pair_line(key_access_key_id(), sa),
            pair_line(key_secret_access_key(), ss),
            pair_line(key_session_token(), st),
            pair_line(key_security_token(), st),
            pair_line(key_expiration(), exp),
            Seq::<u8>::empty(),
            header_line(section_long_term()),
            pair_line(key_access_key_id(), la),
            pair_line(key_secret_access_key(), ls),
            pair_line(key_mfa_device(), lm),
            Seq::<u8>::empty(),
        ],
{
    lemma_names();
    lemma_header_line_no_lf(section_default());
    lemma_pair_line_no_lf(key_access_key_id(), sa);
    lemma_pair_line_no_lf(key_secret_access_key(), ss);
    lemma_pair_line_no_lf(key_session_token(), st);
    lemma_pair_line_no_lf(key_security_token(), st);
    lemma_pair_line_no_lf(key_expiration(), exp);
    lemma_header_line_no_lf(section_long_term());
    lemma_pair_line_no_lf(key_access_key_id(), la);
    lemma_pair_line_no_lf(key_secret_access_key(), ls);
    lemma_pair_line_no_lf(key_mfa_device(), lm);
    let t1 = pair_line(key_access_key_id(), sa)
        + (seq![10u8]
        + (pair_line(key_secret_access_key(), ss)
        + (seq![10u8]
        + (pair_line(key_session_token(), st)
        + (seq![10u8]
        + (pair_line(key_security_token(), st)
        + (seq![10u8]
        + (pair_line(key_expiration(), exp)
        + (seq![10u8]
        + (Seq::<u8>::empty()
        + (seq![10u8]
        + (header_line(section_long_term())
        + (seq![10u8]
        + (pair_line(key_access_key_id(), la)
        + (seq![10u8]
        + (pair_line(key_secret_access_key(), ls)
        + (seq![10u8]
        + (pair_line(key_mfa_device(), lm) + seq![10u8]))))))))))))))))));
    let t2 = pair_line(key_secret_access_key(), ss)
        + (seq![10u8]
        + (pair_line(key_session_token(), st)
        + (seq![10u8]
        + (pair_line(key_security_token(), st)
        + (seq![10u8]
        + (pair_line(key_expiration(), exp)
        + (seq![10u8]
        + (Seq::<u8>::empty()
        + (seq![10u8]
        + (header_line(section_long_term())
        + (seq![10u8]
        + (pair_line(key_access_key_id(), la)
        + (seq![10u8]
        + (pair_line(key_secret_access_key(), ls)
        + (seq![10u8]
        + (pair_line(key_mfa_device(), lm) + seq![10u8]))))))))))))))));
    let t3 = pair_line(key_session_token(), st)
        + (seq![10u8]
        + (pair_line(key_security_token(), st)
        + (seq![10u8]
        + (pair_line(key_expiration(), exp)
        + (seq![10u8]
        + (Seq::<u8>::empty()
        + (seq![10u8]
        + (header_line(section_long_term())
        + (seq![10u8]
        + (pair_line(key_access_key_id(), la)
        + (seq![10u8]
        + (pair_line(key_secret_access_key(), ls)
        + (seq![10u8]
        + (pair_line(key_mfa_device(), lm) + seq![10u8]))))))))))))));
    let t4 = pair_line(key_security_token(), st)
        + (seq![10u8]
        + (pair_line(key_expiration(), exp)
        + (seq![10u8]
        + (Seq::<u8>::empty()
        + (seq![10u8]
        + (header_line(section_long_term())
        + (seq![10u8]
        + (pair_line(key_access_key_id(), la)
        + (seq![10u8]
        + (pair_line(key_secret_access_key(), ls)
        + (seq![10u8]
        + (pair_line(key_mfa_device(), lm) + seq![10u8]))))))))))));
    let t5 = pair_line(key_expiration(), exp)
        + (seq![10u8]
        + (Seq::<u8>::empty()
        + (seq![10u8]
        + (header_line(section_long_term())
        + (seq![10u8]
        + (pair_line(key_access_key_id(), la)
        + (seq![10u8]
        + (pair_line(key_secret_access_key(), ls)
        + (seq![10u8]
        + (pair_line(key_mfa_device(), lm) + seq![10u8]))))))))));
    let t6 = Seq::<u8>::empty()
        + (seq![10u8]
        + (header_line(section_long_term())
        + (seq![10u8]
        + (pair_line(key_access_key_id(), la)
        + (seq![10u8]
        + (pair_line(key_secret_access_key(), ls)
        + (seq![10u8]
        + (pair_line(key_mfa_device(), lm) + seq![10u8]))))))));
    let t7 = header_line(section_long_term())
        + (seq![10u8]
        + (pair_line(key_access_key_id(), la)
        + (seq![10u8]
        + (pair_line(key_secret_access_key(), ls)
        + (seq![10u8]
        + (pair_line(key_mfa_device(), lm) + seq![10u8]))))));
    let t8 = pair_line(key_access_key_id(), la)
        + (seq![10u8]
        + (pair_line(key_secret_access_key(), ls)
        + (seq![10u8]
        + (pair_line(key_mfa_device(), lm) + seq![10u8]))));
    let t9 = pair_line(key_secret_access_key(), ls)
        + (seq![10u8]
        + (pair_line(key_mfa_device(), lm) + seq![10u8]));
    let t10 = pair_line(key_mfa_device(), lm) + seq![10u8];
    let t11 = Seq::<u8>::empty();
    assert(spec_render_file(sa, ss, st, exp, la, ls, lm) =~= header_line(section_default()) + seq![10u8] + t1);
    lemma_split_lines_step(header_line(section_default()), t1);
    assert(t1 =~= pair_line(key_access_key_id(), sa) + seq![10u8] + t2);
    lemma_split_lines_step(pair_line(key_access_key_id(), sa), t2);
    assert(t2 =~= pair_line(key_secret_access_key(), ss) + seq![10u8] + t3);
    lemma_split_lines_step(pair_line(key_secret_access_key(), ss), t3);
    assert(t3 =~= pair_line(key_session_token(), st) + seq![10u8] + t4);
    lemma_split_lines_step(pair_line(key_session_token(), st), t4);
    assert(t4 =~= pair_line(key_security_token(), st) + seq![10u8] + t5);
    lemma_split_lines_step(pair_line(key_security_token(), st), t5);
    assert(t5 =~= pair_line(key_expiration(), exp) + seq![10u8] + t6);
    lemma_split_lines_step(pair_line(key_expiration(), exp), t6);
    assert(t6 =~= Seq::<u8>::empty() + seq![10u8] + t7);
    lemma_split_lines_step(Seq::<u8>::empty(), t7);
    assert(t7 =~= header_line(section_long_term()) + seq![10u8] + t8);
    lemma_split_lines_step(header_line(section_long_term()), t8);
    assert(t8 =~= pair_line(key_access_key_id(), la) + seq![10u8] + t9);
    lemma_split_lines_step(pair_line(key_access_key_id(), la), t9);
    assert(t9 =~= pair_line(key_secret_access_key(), ls) + seq![10u8] + t10);
    lemma_split_lines_step(pair_line(key_secret_access_key(), ls), t10);
    assert(t10 =~= pair_line(key_mfa_device(), lm) + seq![10u8] + t11);
    lemma_split_lines_step(pair_line(key_mfa_device(), lm), t11);
    lemma_split_lines_single(t11);
    assert(split_lines(spec_render_file(sa, ss, st, exp, la, ls, lm)) =~= seq![
        header_line(section_default()),
        pair_line(key_access_key_id(), sa),
        pair_line(key_secret_access_key(), ss),
        pair_line(key_session_token(), st),
        pair_line(key_security_token(), st),
        pair_line(key_expiration(), exp),
        Seq::<u8>::empty(),
        header_line(section_long_term()),
        pair_line(key_access_key_id(), la),
        pair_line(key_secret_access_key(), ls),
        pair_line(key_mfa_device(), lm),
        Seq::<u8>::empty(),
    ]);
}

/// What the rendered file parses back to: every line is well formed, and each
/// of the eight fields reads back exactly as written, the session token under
/// both its names.
pub proof fn lemma_rendered_file_contents(
    sa: Seq<u8>,
    ss: Seq<u8>,
    st: Seq<u8>,
    exp: Seq<u8>,
    la: Seq<u8>,
    ls: Seq<u8>,
    lm: Seq<u8>,
)
    requires
        clean_value(sa),
        clean_value(ss),
        clean_value(st),
        clean_value(exp),
        clean_value(la),
        clean_value(ls),
        clean_value(lm),
    ensures
        ({
            let lines = split_lines(spec_render_file(sa, ss, st, exp, la, ls, lm));
            &&& lines_ok(lines)
            &&& ini_lookup(lines, section_default(), key_access_key_id()) == Some(sa)
            &&& ini_lookup(lines, section_default(), key_secret_access_key()) == Some(ss)
            &&& ini_lookup(lines, section_default(), key_session_token()) == Some(st)
            &&& ini_lookup(lines, section_default(), key_security_token()) == Some(st)
            &&& ini_lookup(lines, section_default(), key_expiration()) == Some(exp)
            &&& ini_lookup(lines, section_long_term(), key_access_key_id()) == Some(la)
            &&& ini_lookup(lines, section_long_term(), key_secret_access_key()) == Some(ls)
            &&& ini_lookup(lines, section_long_term(), key_mfa_device()) == Some(lm)
        }),
{
    lemma_names();
    lemma_rendered_lines(sa, ss, st, exp, la, ls, lm);
    let lines = split_lines(spec_render_file(sa, ss, st, exp, la, ls, lm));
    assert(lines[0] == header_line(section_default()));
    assert(lines[1] == pair_line(key_access_key_id(), sa));
    assert(lines[2] == pair_line(key_secret_access_key(), ss));
    assert(lines[3] == pair_line(key_session_token(), st));
    assert(lines[4] == pair_line(key_security_token(), st));
    assert(lines[5] == pair_line(key_expiration(), exp));
    assert(lines[6] == Seq::<u8>::empty());
    assert(lines[7] == header_line(section_long_term()));
    assert(lines[8] == pair_line(key_access_key_id(), la));
    assert(lines[9] == pair_line(key_secret_access_key(), ls));
    assert(lines[10] == pair_line(key_mfa_device(), lm));
    assert(lines[11] == Seq::<u8>::empty());
    assert(lines.len() == 12);
    lemma_classify_header(section_default());
    lemma_classify_header(section_long_term());
    lemma_classify_pair(key_access_key_id(), sa);
    lemma_classify_pair(key_secret_access_key(), ss);
    lemma_classify_pair(key_session_token(), st);
    lemma_classify_pair(key_security_token(), st);
    lemma_classify_pair(key_expiration(), exp);
    lemma_classify_pair(key_access_key_id(), la);
    lemma_classify_pair(key_secret_access_key(), ls);
    lemma_classify_pair(key_mfa_device(), lm);
    lemma_classify_empty();
    assert(lines_ok_from(lines, 12));
    assert(lines_ok_from(lines, 11));
    assert(lines_ok_from(lines, 10));
    assert(lines_ok_from(lines, 9));
    assert(lines_ok_from(lines, 8));
    assert(lines_ok_from(lines, 7));
    assert(lines_ok_from(lines, 6));
    assert(lines_ok_from(lines, 5));
    assert(lines_ok_from(lines, 4));
    assert(lines_ok_from(lines, 3));
    assert(lines_ok_from(lines, 2));
    assert(lines_ok_from(lines, 1));
    assert(lines_ok_from(lines, 0));
    // lookup of key_access_key_id() in section_default()
    assert(scan_value(lines, 0, false, None, section_default(), key_access_key_id()) == scan_value(
        lines, 1, true, None, section_default(), key_access_key_id()));
    assert(scan_value(lines, 1, true, None, section_default(), key_access_key_id()) == scan_value(
        lines, 2, true, Some(sa), section_default(), key_access_key_id()));
    assert(scan_value(lines, 2, true, Some(sa), section_default(), key_access_key_id()) == scan_value(
        lines, 3, true, Some(sa), section_default(), key_access_key_id()));
    assert(scan_value(lines, 3, true, Some(sa), section_default(), key_access_key_id()) == scan_value(
        lines, 4, true, Some(sa), section_default(), key_access_key_id()));
    assert(scan_value(lines, 4, true, Some(sa), section_default(), key_access_key_id()) == scan_value(
        lines, 5, true, Some(sa), section_default(), key_access_key_id()));
    assert(scan_value(lines, 5, true, Some(sa), section_default(), key_access_key_id()) == scan_value(
        lines, 6, true, Some(sa), section_default(), key_access_key_id()));
    assert(scan_value(lines, 6, true, Some(sa), section_default(), key_access_key_id()) == scan_value(
        lines, 7, true, Some(sa), section_default(), key_access_key_id()));
    assert(scan_value(lines, 7, true, Some(sa), section_default(), key_access_key_id()) == scan_value(
        lines, 8, false, Some(sa), section_default(), key_access_key_id()));
    assert(scan_value(lines, 8, false, Some(sa), section_default(), key_access_key_id()) == scan_value(
        lines, 9, false, Some(sa), section_default(), key_access_key_id()));
    assert(scan_value(lines, 9, false, Some(sa), section_default(), key_access_key_id()) == scan_value(
        lines, 10, false, Some(sa), section_default(), key_access_key_id()));
    assert(scan_value(lines, 10, false, Some(sa), section_default(), key_access_key_id()) == scan_value(
        lines, 11, false, Some(sa), section_default(), key_access_key_id()));
    assert(scan_value(lines, 11, false, Some(sa), section_default(), key_access_key_id()) == scan_value(
        lines, 12, false, Some(sa), section_default(), key_access_key_id()));
    assert(ini_lookup(lines, section_default(), key_access_key_id()) == Some(sa));
    // lookup of key_secret_access_key() in section_default()
    assert(scan_value(lines, 0, false, None, section_default(), key_secret_access_key()) == scan_value(
        lines, 1, true, None, section_default(), key_secret_access_key()));
    assert(scan_value(lines, 1, true, None, section_default(), key_secret_access_key()) == scan_value(
        lines, 2, true, None, section_default(), key_secret_access_key()));
    assert(scan_value(lines, 2, true, None, section_default(), key_secret_access_key()) == scan_value(
        lines, 3, true, Some(ss), section_default(), key_secret_access_key()));
    assert(scan_value(lines, 3, true, Some(ss), section_default(), key_secret_access_key()) == scan_value(
        lines, 4, true, Some(ss), section_default(), key_secret_access_key()));
    assert(scan_value(lines, 4, true, Some(ss), section_default(), key_secret_access_key()) == scan_value(
        lines, 5, true, Some(ss), section_default(), key_secret_access_key()));
    assert(scan_value(lines, 5, true, Some(ss), section_default(), key_secret_access_key()) == scan_value(
        lines, 6, true, Some(ss), section_default(), key_secret_access_key()));
    assert(scan_value(lines, 6, true, Some(ss), section_default(), key_secret_access_key()) == scan_value(
        lines, 7, true, Some(ss), section_default(), key_secret_access_key()));
    assert(scan_value(lines, 7, true, Some(ss), section_default(), key_secret_access_key()) == scan_value(
        lines, 8, false, Some(ss), section_default(), key_secret_access_key()));
    assert(scan_value(lines, 8, false, Some(ss), section_default(), key_secret_access_key()) == scan_value(
        lines, 9, false, Some(ss), section_default(), key_secret_access_key()));
    assert(scan_value(lines, 9, false, Some(ss), section_default(), key_secret_access_key()) == scan_value(
        lines, 10, false, Some(ss), section_default(), key_secret_access_key()));
    assert(scan_value(lines, 10, false, Some(ss), section_default(), key_secret_access_key()) == scan_value(
        lines, 11, false, Some(ss), section_default(), key_secret_access_key()));
    assert(scan_value(lines, 11, false, Some(ss), section_default(), key_secret_access_key()) == scan_value(
        lines, 12, false, Some(ss), section_default(), key_secret_access_key()));
    assert(ini_lookup(lines, section_default(), key_secret_access_key()) == Some(ss));
    // lookup of key_session_token() in section_default()
    assert(scan_value(lines, 0, false, None, section_default(), key_session_token()) == scan_value(
        lines, 1, true, None, section_default(), key_session_token()));
    assert(scan_value(lines, 1, true, None, section_default(), key_session_token()) == scan_value(
        lines, 2, true, None, section_default(), key_session_token()));
    assert(scan_value(lines, 2, true, None, section_default(), key_session_token()) == scan_value(
        lines, 3, true, None, section_default(), key_session_token()));
    assert(scan_value(lines, 3, true, None, section_default(), key_session_token()) == scan_value(
        lines, 4, true, Some(st), section_default(), key_session_token()));
    assert(scan_value(lines, 4, true, Some(st), section_default(), key_session_token()) == scan_value(
        lines, 5, true, Some(st), section_default(), key_session_token()));
    assert(scan_value(lines, 5, true, Some(st), section_default(), key_session_token()) == scan_value(
        lines, 6, true, Some(st), section_default(), key_session_token()));
    assert(scan_value(lines, 6, true, Some(st), section_default(), key_session_token()) == scan_value(
        lines, 7, true, Some(st), section_default(), key_session_token()));
    assert(scan_value(lines, 7, true, Some(st), section_default(), key_session_token()) == scan_value(
        lines, 8, false, Some(st), section_default(), key_session_token()));
    assert(scan_value(lines, 8, false, Some(st), section_default(), key_session_token()) == scan_value(
        lines, 9, false, Some(st), section_default(), key_session_token()));
    assert(scan_value(lines, 9, false, Some(st), section_default(), key_session_token()) == scan_value(
        lines, 10, false, Some(st), section_default(), key_session_token()));
    assert(scan_value(lines, 10, false, Some(st), section_default(), key_session_token()) == scan_value(
        lines, 11, false, Some(st), section_default(), key_session_token()));
    assert(scan_value(lines, 11, false, Some(st), section_default(), key_session_token()) == scan_value(
        lines, 12, false, Some(st), section_default(), key_session_token()));
    assert(ini_lookup(lines, section_default(), key_session_token()) == Some(st));
    // lookup of key_security_token() in section_default()
    assert(scan_value(lines, 0, false, None, section_default(), key_security_token()) == scan_value(
        lines, 1, true, None, section_default(), key_security_token()));
    assert(scan_value(lines, 1, true, None, section_default(), key_security_token()) == scan_value(
        lines, 2, true, None, section_default(), key_security_token()));
    assert(scan_value(lines, 2, true, None, section_default(), key_security_token()) == scan_value(
        lines, 3, true, None, section_default(), key_security_token()));
    assert(scan_value(lines, 3, true, None, section_default(), key_security_token()) == scan_value(
        lines, 4, true, None, section_default(), key_security_token()));
    assert(scan_value(lines, 4, true, None, section_default(), key_security_token()) == scan_value(
        lines, 5, true, Some(st), section_default(), key_security_token()));
    assert(scan_value(lines, 5, true, Some(st), section_default(), key_security_token()) == scan_value(
        lines, 6, true, Some(st), section_default(), key_security_token()));
    assert(scan_value(lines, 6, true, Some(st), section_default(), key_security_token()) == scan_value(
        lines, 7, true, Some(st), section_default(), key_security_token()));
    assert(scan_value(lines, 7, true, Some(st), section_default(), key_security_token()) == scan_value(
        lines, 8, false, Some(st), section_default(), key_security_token()));
    assert(scan_value(lines, 8, false, Some(st), section_default(), key_security_token()) == scan_value(
        lines, 9, false, Some(st), section_default(), key_security_token()));
    assert(scan_value(lines, 9, false, Some(st), section_default(), key_security_token()) == scan_value(
        lines, 10, false, Some(st), section_default(), key_security_token()));
    assert(scan_value(lines, 10, false, Some(st), section_default(), key_security_token()) == scan_value(
        lines, 11, false, Some(st), section_default(), key_security_token()));
    assert(scan_value(lines, 11, false, Some(st), section_default(), key_security_token()) == scan_value(
        lines, 12, false, Some(st), section_default(), key_security_token()));
    assert(ini_lookup(lines, section_default(), key_security_token()) == Some(st));
    // lookup of key_expiration() in section_default()
    assert(scan_value(lines, 0, false, None, section_default(), key_expiration()) == scan_value(
        lines, 1, true, None, section_default(), key_expiration()));
    assert(scan_value(lines, 1, true, None, section_default(), key_expiration()) == scan_value(
        lines, 2, true, None, section_default(), key_expiration()));
    assert(scan_value(lines, 2, true, None, section_default(), key_expiration()) == scan_value(
        lines, 3, true, None, section_default(), key_expiration()));
    assert(scan_value(lines, 3, true, None, section_default(), key_expiration()) == scan_value(
        lines, 4, true, None, section_default(), key_expiration()));
    assert(scan_value(lines, 4, true, None, section_default(), key_expiration()) == scan_value(
        lines, 5, true, None, section_default(), key_expiration()));
    assert(scan_value(lines, 5, true, None, section_default(), key_expiration()) == scan_value(
        lines, 6, true, Some(exp), section_default(), key_expiration()));
    assert(scan_value(lines, 6, true, Some(exp), section_default(), key_expiration()) == scan_value(
        lines, 7, true, Some(exp), section_default(), key_expiration()));
    assert(scan_value(lines, 7, true, Some(exp), section_default(), key_expiration()) == scan_value(
        lines, 8, false, Some(exp), section_default(), key_expiration()));
    assert(scan_value(lines, 8, false, Some(exp), section_default(), key_expiration()) == scan_value(
        lines, 9, false, Some(exp), section_default(), key_expiration()));
    assert(scan_value(lines, 9, false, Some(exp), section_default(), key_expiration()) == scan_value(
        lines, 10, false, Some(exp), section_default(), key_expiration()));
    assert(scan_value(lines, 10, false, Some(exp), section_default(), key_expiration()) == scan_value(
        lines, 11, false, Some(exp), section_default(), key_expiration()));
    assert(scan_value(lines, 11, false, Some(exp), section_default(), key_expiration()) == scan_value(
        lines, 12, false, Some(exp), section_default(), key_expiration()));
    assert(ini_lookup(lines, section_default(), key_expiration()) == Some(exp));
    // lookup of key_access_key_id() in section_long_term()
    assert(scan_value(lines, 0, false, None, section_long_term(), key_access_key_id()) == scan_value(
        lines, 1, false, None, section_long_term(), key_access_key_id()));
    assert(scan_value(lines, 1, false, None, section_long_term(), key_access_key_id()) == scan_value(
        lines, 2, false, None, section_long_term(), key_access_key_id()));
    assert(scan_value(lines, 2, false, None, section_long_term(), key_access_key_id()) == scan_value(
        lines, 3, false, None, section_long_term(), key_access_key_id()));
    assert(scan_value(lines, 3, false, None, section_long_term(), key_access_key_id()) == scan_value(
        lines, 4, false, None, section_long_term(), key_access_key_id()));
    assert(scan_value(lines, 4, false, None, section_long_term(), key_access_key_id()) == scan_value(
        lines, 5, false, None, section_long_term(), key_access_key_id()));
    assert(scan_value(lines, 5, false, None, section_long_term(), key_access_key_id()) == scan_value(
        lines, 6, false, None, section_long_term(), key_access_key_id()));
    assert(scan_value(lines, 6, false, None, section_long_term(), key_access_key_id()) == scan_value(
        lines, 7, false, None, section_long_term(), key_access_key_id()));
    assert(scan_value(lines, 7, false, None, section_long_term(), key_access_key_id()) == scan_value(
        lines, 8, true, None, section_long_term(), key_access_key_id()));
    assert(scan_value(lines, 8, true, None, section_long_term(), key_access_key_id()) == scan_value(
        lines, 9, true, Some(la), section_long_term(), key_access_key_id()));
    assert(scan_value(lines, 9, true, Some(la), section_long_term(), key_access_key_id()) == scan_value(
        lines, 10, true, Some(la), section_long_term(), key_access_key_id()));
    assert(scan_value(lines, 10, true, Some(la), section_long_term(), key_access_key_id()) == scan_value(
        lines, 11, true, Some(la), section_long_term(), key_access_key_id()));
    assert(scan_value(lines, 11, true, Some(la), section_long_term(), key_access_key_id()) == scan_value(
        lines, 12, true, Some(la), section_long_term(), key_access_key_id()));
    assert(ini_lookup(lines, section_long_term(), key_access_key_id()) == Some(la));
    // lookup of key_secret_access_key() in section_long_term()
    assert(scan_value(lines, 0, false, None, section_long_term(), key_secret_access_key()) == scan_value(
        lines, 1, false, None, section_long_term(), key_secret_access_key()));
    assert(scan_value(lines, 1, false, None, section_long_term(), key_secret_access_key()) == scan_value(
        lines, 2, false, None, section_long_term(), key_secret_access_key()));
    assert(scan_value(lines, 2, false, None, section_long_term(), key_secret_access_key()) == scan_value(
        lines, 3, false, None, section_long_term(), key_secret_access_key()));
    assert(scan_value(lines, 3, false, None, section_long_term(), key_secret_access_key()) == scan_value(
        lines, 4, false, None, section_long_term(), key_secret_access_key()));
    assert(scan_value(lines, 4, false, None, section_long_term(), key_secret_access_key()) == scan_value(
        lines, 5, false, None, section_long_term(), key_secret_access_key()));
    assert(scan_value(lines, 5, false, None, section_long_term(), key_secret_access_key()) == scan_value(
        lines, 6, false, None, section_long_term(), key_secret_access_key()));
    assert(scan_value(lines, 6, false, None, section_long_term(), key_secret_access_key()) == scan_value(
        lines, 7, false, None, section_long_term(), key_secret_access_key()));
    assert(scan_value(lines, 7, false, None, section_long_term(), key_secret_access_key()) == scan_value(
        lines, 8, true, None, section_long_term(), key_secret_access_key()));
    assert(scan_value(lines, 8, true, None, section_long_term(), key_secret_access_key()) == scan_value(
        lines, 9, true, None, section_long_term(), key_secret_access_key()));
    assert(scan_value(lines, 9, true, None, section_long_term(), key_secret_access_key()) == scan_value(
        lines, 10, true, Some(ls), section_long_term(), key_secret_access_key()));
    assert(scan_value(lines, 10, true, Some(ls), section_long_term(), key_secret_access_key()) == scan_value(
        lines, 11, true, Some(ls), section_long_term(), key_secret_access_key()));
    assert(scan_value(lines, 11, true, Some(ls), section_long_term(), key_secret_access_key()) == scan_value(
        lines, 12, true, Some(ls), section_long_term(), key_secret_access_key()));
    assert(ini_lookup(lines, section_long_term(), key_secret_access_key()) == Some(ls));
    // lookup of key_mfa_device() in section_long_term()
    assert(scan_value(lines, 0, false, None, section_long_term(), key_mfa_device()) == scan_value(
        lines, 1, false, None, section_long_term(), key_mfa_device()));
    assert(scan_value(lines, 1, false, None, section_long_term(), key_mfa_device()) == scan_value(
        lines, 2, false, None, section_long_term(), key_mfa_device()));
    assert(scan_value(lines, 2, false, None, section_long_term(), key_mfa_device()) == scan_value(
        lines, 3, false, None, section_long_term(), key_mfa_device()));
    assert(scan_value(lines, 3, false, None, section_long_term(), key_mfa_device()) == scan_value(
        lines, 4, false, None, section_long_term(), key_mfa_device()));
    assert(scan_value(lines, 4, false, None, section_long_term(), key_mfa_device()) == scan_value(
        lines, 5, false, None, section_long_term(), key_mfa_device()));
    assert(scan_value(lines, 5, false, None, section_long_term(), key_mfa_device()) == scan_value(
        lines, 6, false, None, section_long_term(), key_mfa_device()));
    assert(scan_value(lines, 6, false, None, section_long_term(), key_mfa_device()) == scan_value(
        lines, 7, false, None, section_long_term(), key_mfa_device()));
    assert(scan_value(lines, 7, false, None, section_long_term(), key_mfa_device()) == scan_value(
        lines, 8, true, None, section_long_term(), key_mfa_device()));
    assert(scan_value(lines, 8, true, None, section_long_term(), key_mfa_device()) == scan_value(
        lines, 9, true, None, section_long_term(), key_mfa_device()));
    assert(scan_value(lines, 9, true, None, section_long_term(), key_mfa_device()) == scan_value(
        lines, 10, true, None, section_long_term(), key_mfa_device()));
    assert(scan_value(lines, 10, true, None, section_long_term(), key_mfa_device()) == scan_value(
        lines, 11, true, Some(lm), section_long_term(), key_mfa_device()));
    assert(scan_value(lines, 11, true, Some(lm), section_long_term(), key_mfa_device()) == scan_value(
        lines, 12, true, Some(lm), section_long_term(), key_mfa_device()));
    assert(ini_lookup(lines, section_long_term(), key_mfa_device()) == Some(lm));
}

/// Appends `src` to `out`.
fn append_bytes(out: &mut Vec<u8>, src: &Vec<u8>)
    ensures
        final(out)@ == old(out)@ + src@,
{
    let n = src.len();
    let mut i: usize = 0;
    while i < n
        invariant
            0 <= i <= n,
            n == src@.len(),
            out@ == old(out)@ + src@.subrange(0, i as int),
        decreases n - i,
    {
        out.push(src[i]);
        i = i + 1;
        proof {
            assert(out@ =~= old(out)@ + src@.subrange(0, i as int));
        }
    }
    proof {
        assert(out@ =~= old(out)@ + src@);
    }
}

/// Appends `[name]` and a newline.
fn push_header_line(out: &mut Vec<u8>, name: &Vec<u8>)
    ensures
        final(out)@ == old(out)@ + header_line(name@) + seq![10u8],
{
    out.push(91);
    append_bytes(out, name);
    out.push(93);
    out.push(10);
    proof {
        assert(out@ =~= old(out)@ + header_line(name@) + seq![10u8]);
    }
}

/// Appends `key=value` and a newline.
fn push_pair_line(out: &mut Vec<u8>, key: &Vec<u8>, value: &Vec<u8>)
    ensures
        final(out)@ == old(out)@ + pair_line(key@, value@) + seq![10u8],
{
    append_bytes(out, key);
    out.push(61);
    append_bytes(out, value);
    out.push(10);
    proof {
        assert(out@ =~= old(out)@ + pair_line(key@, value@) + seq![10u8]);
    }
}

/// The explicit serialization of the long-term credential, as it is re-emitted
/// into the rewritten file's `default-long-term` section.
pub fn render_long_term(long_term: &AwsCredentials) -> (r: Vec<u8>)
    ensures
        r@ == spec_render_long_term(
            long_term.access_key_id@,
            long_term.secret_access_key@,
            long_term.mfa_device@,
        ),
{
    let mut out: Vec<u8> = Vec::new();
    let k_id = key_access_key_id_bytes();
    let k_secret = key_secret_access_key_bytes();
    let k_mfa = key_mfa_device_bytes();
    push_pair_line(&mut out, &k_id, &long_term.access_key_id);
    push_pair_line(&mut out, &k_secret, &long_term.secret_access_key);
    append_bytes(&mut out, &k_mfa);
    out.push(61);
    append_bytes(&mut out, &long_term.mfa_device);
    proof {
        assert(out@ =~= spec_render_long_term(
            long_term.access_key_id@,
            long_term.secret_access_key@,
            long_term.mfa_device@,
        ));
    }
    out
}

/// Renders the whole rewritten credential file: the `default` section holding
/// the session (its token under both `aws_session_token` and the legacy
/// `aws_security_token`, its expiry as an RFC 3339 timestamp), then the
/// `default-long-term` section reproducing the three long-term fields.
#[verifier::rlimit(100)]
#[verifier::spinoff_prover]
pub fn render_credentials_file(session: &SessionCredential, long_term: &AwsCredentials) -> (r:
    Vec<u8>)
    requires
        session.wf(),
    ensures
        r@ == spec_render_file(
            session.access_key_id@,
            session.secret_access_key@,
            session.session_token@,
            rfc3339_of(session.expires_at as int),
            long_term.access_key_id@,
            long_term.secret_access_key@,
            long_term.mfa_device@,
        ),
        clean_value(rfc3339_of(session.expires_at as int)),
{
    let exp = match format_rfc3339(session.expires_at) {
        Some(v) => v,
        None => {
            return unreached();
        },
    };
    proof {
        lemma_timestamp_clean(exp@);
    }
    let sec_default = section_default_bytes();
    let sec_lt = section_long_term_bytes();
    let k_id = key_access_key_id_bytes();
    let k_secret = key_secret_access_key_bytes();
    let k_session = key_session_token_bytes();
    let k_security = key_security_token_bytes();
    let k_exp = key_expiration_bytes();
    let mut out: Vec<u8> = Vec::new();
    push_header_line(&mut out, &sec_default);
    push_pair_line(&mut out, &k_id, &session.access_key_id);
    push_pair_line(&mut out, &k_secret, &session.secret_access_key);
    push_pair_line(&mut out, &k_session, &session.session_token);
    push_pair_line(&mut out, &k_security, &session.session_token);
    push_pair_line(&mut out, &k_exp, &exp);
    out.push(10);
    push_header_line(&mut out, &sec_lt);
    let lt = render_long_term(long_term);
    append_bytes(&mut out, &lt);
    out.push(10);
    proof {
        assert(out@ =~= spec_render_file(
            session.access_key_id@,
            session.secret_access_key@,
            session.session_token@,
            rfc3339_of(session.expires_at as int),
            long_term.access_key_id@,
            long_term.secret_access_key@,
            long_term.mfa_device@,
        ));
    }
    out
}

/// A well-formed file whose `default-long-term` section carries the three
/// required fields non-empty loads to exactly those values.
pub proof fn lemma_load_complete(text: Seq<u8>)
    requires
        lines_ok(split_lines(text)),
        nonempty_lookup(split_lines(text), key_access_key_id()) is Some,
        nonempty_lookup(split_lines(text), key_secret_access_key()) is Some,
        nonempty_lookup(split_lines(text), key_mfa_device()) is Some,
    ensures
        spec_load(text) == (LoadOutcome::Loaded {
            access_key_id: nonempty_lookup(split_lines(text), key_access_key_id())->0,
            secret_access_key: nonempty_lookup(split_lines(text), key_secret_access_key())->0,
            mfa_device: nonempty_lookup(split_lines(text), key_mfa_device())->0,
        }),
{
}

/// A well-formed file missing (or carrying empty) one required field loads to
/// `Missing` naming that field, in the fixed checking order.
pub proof fn lemma_load_missing_field(text: Seq<u8>)
    requires
        lines_ok(split_lines(text)),
    ensures
        nonempty_lookup(split_lines(text), key_access_key_id()) is None ==> spec_load(text)
            == (LoadOutcome::Missing { field: key_access_key_id() }),
        nonempty_lookup(split_lines(text), key_access_key_id()) is Some && nonempty_lookup(
            split_lines(text),
            key_secret_access_key(),
        ) is None ==> spec_load(text) == (LoadOutcome::Missing {
            field: key_secret_access_key(),
        }),
        nonempty_lookup(split_lines(text), key_access_key_id()) is Some && nonempty_lookup(
            split_lines(text),
            key_secret_access_key(),
        ) is Some && nonempty_lookup(split_lines(text), key_mfa_device()) is None ==> spec_load(
            text,
        ) == (LoadOutcome::Missing { field: key_mfa_device() }),
{
}

/// Values a successful load yields are clean: they survive the round trip.
pub proof fn lemma_loaded_values_clean(text: Seq<u8>)
    requires
        spec_load(text) is Loaded,
    ensures
        clean_value(spec_load(text)->Loaded_access_key_id),
        clean_value(spec_load(text)->Loaded_secret_access_key),
        clean_value(spec_load(text)->Loaded_mfa_device),
{
    lemma_lookup_value_clean(text, section_long_term(), key_access_key_id());
    lemma_lookup_value_clean(text, section_long_term(), key_secret_access_key());
    lemma_lookup_value_clean(text, section_long_term(), key_mfa_device());
}

/// Rendering clean values and loading the result back yields exactly the
/// long-term fields that were rendered.
pub proof fn lemma_load_of_render(
    sa: Seq<u8>,
    ss: Seq<u8>,
    st: Seq<u8>,
    exp: Seq<u8>,
    la: Seq<u8>,
    ls: Seq<u8>,
    lm: Seq<u8>,
)
    requires
        clean_value(sa),
        clean_value(ss),
        clean_value(st),
        clean_value(exp),
        clean_value(la),
        clean_value(ls),
        clean_value(lm),
    ensures
        spec_load(spec_render_file(sa, ss, st, exp, la, ls, lm)) == (LoadOutcome::Loaded {
            access_key_id: la,
            secret_access_key: ls,
            mfa_device: lm,
        }),
{
    lemma_rendered_file_contents(sa, ss, st, exp, la, ls, lm);
}

/// The round trip of a successful run: whatever long-term credential a file
/// loads to, the rewritten file loads to the same one, whatever else the
/// original file carried.
pub proof fn lemma_round_trip_preserves_long_term(
    text: Seq<u8>,
    sa: Seq<u8>,
    ss: Seq<u8>,
    st: Seq<u8>,
    exp: Seq<u8>,
)
    requires
        spec_load(text) is Loaded,
        clean_value(sa),
        clean_value(ss),
        clean_value(st),
        clean_value(exp),
    ensures
        spec_load(
            spec_render_file(
                sa,
                ss,
                st,
                exp,
                spec_load(text)->Loaded_access_key_id,
                spec_load(text)->Loaded_secret_access_key,
                spec_load(text)->Loaded_mfa_device,
            ),
        ) == spec_load(text),
{
    lemma_loaded_values_clean(text);
    lemma_load_of_render(
        sa,
        ss,
        st,
        exp,
        spec_load(text)->Loaded_access_key_id,
        spec_load(text)->Loaded_secret_access_key,
        spec_load(text)->Loaded_mfa_device,
    );
}

/// In every rendered file the session token reads back equal under both its
/// key names.
pub proof fn lemma_output_tokens_equal(
    sa: Seq<u8>,
    ss: Seq<u8>,
    st: Seq<u8>,
    exp: Seq<u8>,
    la: Seq<u8>,
    ls: Seq<u8>,
    lm: Seq<u8>,
)
    requires
        clean_value(sa),
        clean_value(ss),
        clean_value(st),
        clean_value(exp),
        clean_value(la),
        clean_value(ls),
        clean_value(lm),
    ensures
        ({
            let lines = split_lines(spec_render_file(sa, ss, st, exp, la, ls, lm));
            ini_lookup(lines, section_default(), key_session_token()) == ini_lookup(
                lines,
                section_default(),
                key_security_token(),
            ) && ini_lookup(lines, section_default(), key_session_token()) == Some(st)
        }),
{
    lemma_rendered_file_contents(sa, ss, st, exp, la, ls, lm);
}

} // verus!
