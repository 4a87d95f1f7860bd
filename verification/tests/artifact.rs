use base64::engine::general_purpose::URL_SAFE_NO_PAD;
use base64::Engine;
use sha2::Digest;
use testquorum::environments::artifact::{
    after_upload_reply, upload_requests, BackendIds, UploadNext, UploadReply, UploadStage,
    backend_ids_from_token, build_single_file_zip, crc32, hex_lower, plan_upload, TokenError,
};
use testquorum::environments::github::{
    new_handshake_key, public_key_b64, sign_challenge, signing_payload,
};

#[test]
fn parses_backend_ids_from_real_shape_token() {
    let payload = r#"{"scp":"Actions.GenericRead:abc Actions.Results:run-id-123:job-id-456 Actions.UploadArtifacts:foo"}"#;
    let payload_b64 = URL_SAFE_NO_PAD.encode(payload);
    let token = format!("header.{}.sig", payload_b64);
    let ids = backend_ids_from_token(&token).unwrap();
    assert_eq!(ids.workflow_run_backend_id, "run-id-123");
    assert_eq!(ids.workflow_job_run_backend_id, "job-id-456");
}

#[test]
fn rejects_token_without_results_scope() {
    let payload = r#"{"scp":"Actions.GenericRead:abc"}"#;
    let payload_b64 = URL_SAFE_NO_PAD.encode(payload);
    let token = format!("header.{}.sig", payload_b64);
    assert!(backend_ids_from_token(&token).is_err());
}

#[test]
fn rejects_non_jwt_token() {
    assert!(backend_ids_from_token("not-a-jwt").is_err());
}

#[test]
fn token_errors_are_distinguished() {
    assert_eq!(backend_ids_from_token("a").unwrap_err(), TokenError::NotJwt);
    assert_eq!(backend_ids_from_token("a.!!!.c").unwrap_err(), TokenError::NotBase64Url);
    let not_json = URL_SAFE_NO_PAD.encode("scp");
    assert_eq!(backend_ids_from_token(&format!("a.{}.c", not_json)).unwrap_err(), TokenError::NotJson);
    let short = URL_SAFE_NO_PAD.encode(r#"{"scp":"Actions.Results:only-run Actions.Results:r:j:extra"}"#);
    let ids = backend_ids_from_token(&format!("a.{}", short)).unwrap();
    assert_eq!(ids.workflow_run_backend_id, "r");
    assert_eq!(ids.workflow_job_run_backend_id, "j");
    assert_eq!(TokenError::NoResultsScope.message(), "ACTIONS_RUNTIME_TOKEN scp claim missing Actions.Results entry");
}

#[test]
fn zip_archive_has_expected_layout() {
    let zip = build_single_file_zip("challenge.txt", b"hello");
    assert!(zip.windows(4).any(|w| w == 0x04034b50u32.to_le_bytes()));
    assert!(zip.windows(4).any(|w| w == 0x02014b50u32.to_le_bytes()));
    assert!(zip.windows(4).any(|w| w == 0x06054b50u32.to_le_bytes()));
    assert!(zip.windows(5).any(|w| w == b"hello"));
    assert!(zip.windows(13).any(|w| w == b"challenge.txt"));
}

#[test]
fn zip_fields_are_exact() {
    let zip = build_single_file_zip("a.txt", b"hi");
    assert_eq!(zip.len(), 2 * 5 + 2 + 98);
    assert_eq!(&zip[14..18], &crc32(b"hi").to_le_bytes());
    assert_eq!(&zip[18..22], &2u32.to_le_bytes());
    assert_eq!(&zip[26..28], &5u16.to_le_bytes());
    assert_eq!(&zip[30..35], b"a.txt");
    assert_eq!(&zip[35..37], b"hi");
    let end = zip.len() - 22;
    assert_eq!(&zip[end + 12..end + 16], &(46u32 + 5).to_le_bytes());
    assert_eq!(&zip[end + 16..end + 20], &37u32.to_le_bytes());
}

#[test]
fn crc32_matches_known_vector() {
    assert_eq!(crc32(b"123456789"), 0xCBF43926);
}

#[test]
fn crc32_of_nothing_is_zero() {
    assert_eq!(crc32(b""), 0);
    assert_eq!(crc32(b"a"), 0xE8B7BE43);
}

#[test]
fn hex_is_lowercase_two_digits_per_byte() {
    assert_eq!(hex_lower(&[0x00, 0x0f, 0xab, 0xff]), "000fabff");
    assert_eq!(hex_lower(&[]), "");
}

#[test]
fn upload_plan_hashes_the_archive() {
    let plan = plan_upload("https://results/", "challenge.txt", "abc");
    assert_eq!(plan.archive, build_single_file_zip("challenge.txt", b"abc"));
    assert!(plan.hash.starts_with("sha256:"));
    assert_eq!(plan.hash.len(), 7 + 64);
    assert_eq!(plan.size, plan.archive.len().to_string());
    assert_eq!(plan.create_url, "https://results/twirp/github.actions.results.api.v1.ArtifactService/CreateArtifact");
    assert_eq!(plan.finalize_url, "https://results/twirp/github.actions.results.api.v1.ArtifactService/FinalizeArtifact");
    let empty = plan_upload("u/", "f", "");
    assert_ne!(empty.hash, plan.hash);
}

#[test]
fn signature_has_expected_length() {
    let seed = rand::random::<[u8; 32]>().to_vec();
    let sig = sign_challenge(&seed, "some-challenge-value");
    let bytes = URL_SAFE_NO_PAD.decode(sig).unwrap();
    assert_eq!(bytes.len(), 64);
}

#[test]
fn public_key_encodes_to_43_chars_base64url() {
    let seed = rand::random::<[u8; 32]>().to_vec();
    let encoded = public_key_b64(&seed);
    assert_eq!(encoded.len(), 43);
    assert!(!encoded.contains('='));
    assert!(!encoded.contains('+'));
    assert!(!encoded.contains('/'));
}

#[test]
fn signing_payload_prefixes_the_domain() {
    assert_eq!(signing_payload("abc"), b"testquorum-exchange-v1:abc".to_vec());
    let seed = vec![7u8; 32];
    assert_eq!(sign_challenge(&seed, "x"), sign_challenge(&seed, "x"));
    assert_ne!(sign_challenge(&seed, "x"), sign_challenge(&seed, "y"));
}

#[test]
fn fresh_handshake_key_signs_verifiably() {
    let (seed, public_key) = new_handshake_key();
    assert_eq!(seed.len(), 32);
    assert_eq!(public_key, public_key_b64(&seed));
    let key_bytes: [u8; 32] = URL_SAFE_NO_PAD.decode(&public_key).unwrap().try_into().unwrap();
    let verifying = ed25519_dalek::VerifyingKey::from_bytes(&key_bytes).unwrap();
    let sig_bytes: [u8; 64] = URL_SAFE_NO_PAD
        .decode(sign_challenge(&seed, "challenge"))
        .unwrap()
        .try_into()
        .unwrap();
    let signature = ed25519_dalek::Signature::from_bytes(&sig_bytes);
    assert!(verifying.verify_strict(&signing_payload("challenge"), &signature).is_ok());
    let (other_seed, _) = new_handshake_key();
    assert_ne!(seed, other_seed);
}

#[test]
fn upload_walks_create_put_finalize() {
    let next = after_upload_reply(
        UploadStage::Create,
        UploadReply::Created { signed_upload_url: "https://blob/x?sig".to_string() },
    );
    assert_eq!(next, UploadNext::Put { url: "https://blob/x?sig".to_string() });
    assert_eq!(after_upload_reply(UploadStage::Put, UploadReply::Accepted), UploadNext::Finalize);
    assert_eq!(after_upload_reply(UploadStage::Finalize, UploadReply::Accepted), UploadNext::Done);
}

#[test]
fn upload_stops_at_the_first_failure() {
    let failed = |stage, reply| match after_upload_reply(stage, reply) {
        UploadNext::Failed { message } => message,
        other => panic!("expected failure, got {:?}", other),
    };
    assert_eq!(
        failed(UploadStage::Create, UploadReply::SendFailed { error: "timeout".to_string() }),
        "CreateArtifact request failed: timeout"
    );
    assert_eq!(
        failed(
            UploadStage::Create,
            UploadReply::Refused { status: "403 Forbidden".to_string(), body: "no".to_string() }
        ),
        "CreateArtifact returned 403 Forbidden: no"
    );
    assert_eq!(
        failed(UploadStage::Create, UploadReply::CreatedUnreadable { error: "eof".to_string() }),
        "CreateArtifact response not JSON: eof"
    );
    assert_eq!(
        failed(UploadStage::Put, UploadReply::SendFailed { error: "reset".to_string() }),
        "artifact blob PUT failed: reset"
    );
    assert_eq!(
        failed(
            UploadStage::Put,
            UploadReply::Refused { status: "400 Bad Request".to_string(), body: String::new() }
        ),
        "blob PUT returned 400 Bad Request: "
    );
    assert_eq!(
        failed(UploadStage::Finalize, UploadReply::SendFailed { error: "dns".to_string() }),
        "FinalizeArtifact request failed: dns"
    );
    assert_eq!(
        failed(
            UploadStage::Finalize,
            UploadReply::Refused { status: "500 Internal Server Error".to_string(), body: "x".to_string() }
        ),
        "FinalizeArtifact returned 500 Internal Server Error: x"
    );
}

#[test]
fn upload_requests_carry_token_ids_name_and_archive() {
    let ids = BackendIds {
        workflow_run_backend_id: "run-1".to_string(),
        workflow_job_run_backend_id: "job-2".to_string(),
    };
    let req = upload_requests("https://results/", "rt", &ids, "tq-challenge", "challenge.txt", "abc");
    assert_eq!(req.bearer_token, "rt");
    assert_eq!(
        req.create_url,
        "https://results/twirp/github.actions.results.api.v1.ArtifactService/CreateArtifact"
    );
    assert_eq!(req.create.workflow_run_backend_id, "run-1");
    assert_eq!(req.create.workflow_job_run_backend_id, "job-2");
    assert_eq!(req.create.name, "tq-challenge");
    assert_eq!(req.create.version, 4);
    let archive = build_single_file_zip("challenge.txt", b"abc");
    assert_eq!(req.put_body, archive);
    assert_eq!(
        req.put_headers,
        vec![
            ("x-ms-blob-type".to_string(), "BlockBlob".to_string()),
            ("x-ms-version".to_string(), "2020-04-08".to_string()),
            ("content-type".to_string(), "application/octet-stream".to_string()),
        ]
    );
    assert_eq!(
        req.finalize_url,
        "https://results/twirp/github.actions.results.api.v1.ArtifactService/FinalizeArtifact"
    );
    assert_eq!(req.finalize.workflow_run_backend_id, "run-1");
    assert_eq!(req.finalize.workflow_job_run_backend_id, "job-2");
    assert_eq!(req.finalize.name, "tq-challenge");
    assert_eq!(req.finalize.size, archive.len().to_string());
    let digest: String = sha2::Sha256::digest(&archive).iter().map(|b| format!("{:02x}", b)).collect();
    assert_eq!(req.finalize.hash, format!("sha256:{}", digest));
}
