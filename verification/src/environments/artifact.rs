//! The byte-level pieces of a GitHub Actions artifact upload: the CRC-32 and
//! store-only ZIP container the artifact service expects, the lowercase hex
//! digest, and the backend ids carried in the runtime token.

use vstd::prelude::*;
use base64::Engine;
use sha2::Digest;
use vstd::string::StringSliceAdditionalSpecFns;

use crate::text::{
    chars_eq, chars_of, concat, dec, dec_chars, owned, split_chars, split_on, string_of, views,
};

verus! {

/// The reflected CRC-32 polynomial (IEEE 802.3).
pub const CRC32_POLY: u32 = 0xEDB8_8320u32;

/// One bit step of the reflected CRC-32 register.
pub open spec fn crc_shift(c: u32) -> u32 {
    if c & 1u32 == 1u32 {
        (c >> 1u32) ^ CRC32_POLY
    } else {
        c >> 1u32
    }
}

/// `n` bit steps of the register.
pub open spec fn crc_shifts(c: u32, n: nat) -> u32
    decreases n,
{
    if n == 0 {
        c
    } else {
        crc_shift(crc_shifts(c, (n - 1) as nat))
    }
}

/// The register after absorbing one byte.
pub open spec fn crc_byte(c: u32, b: u8) -> u32 {
    crc_shifts(c ^ (b as u32), 8)
}

/// The register after absorbing `data`, starting from `c`.
pub open spec fn crc_fold(c: u32, data: Seq<u8>) -> u32
    decreases data.len(),
{
    if data.len() == 0 {
        c
    } else {
        crc_byte(crc_fold(c, data.drop_last()), data.last())
    }
}

/// CRC-32 (IEEE): initial register all ones, final complement.
pub open spec fn crc32_of(data: Seq<u8>) -> u32 {
    !crc_fold(0xFFFF_FFFFu32, data)
}

fn crc_shift_exec(c: u32) -> (r: u32)
    ensures
        r == crc_shift(c),
{
    if c & 1u32 == 1u32 {
        (c >> 1u32) ^ CRC32_POLY
    } else {
        c >> 1u32
    }
}

/// CRC-32 of `data`, bit by bit.
pub fn crc32(data: &[u8]) -> (r: u32)
    ensures
        r == crc32_of(data@),
{
    let mut crc: u32 = 0xFFFF_FFFFu32;
    let n = data.len();
    for i in 0..n
        invariant
            n == data@.len(),
            crc == crc_fold(0xFFFF_FFFFu32, data@.take(i as int)),
    {
        let b = data[i];
        let start: u32 = crc ^ (b as u32);
        crc = start;
        for j in 0..8u32
            invariant
                crc == crc_shifts(start, j as nat),
        {
            crc = crc_shift_exec(crc);
        }
        assert(data@.take(i + 1).drop_last() =~= data@.take(i as int));
    }
    assert(data@.take(n as int) =~= data@);
    !crc
}

/// `u16::to_le_bytes`.
pub open spec fn le16(n: u16) -> Seq<u8> {
    seq![(n % 256) as u8, ((n / 256) % 256) as u8]
}

/// `u32::to_le_bytes`.
pub open spec fn le32(n: u32) -> Seq<u8> {
    seq![
        (n % 256) as u8,
        ((n / 0x100) % 256) as u8,
        ((n / 0x1_0000) % 256) as u8,
        ((n / 0x100_0000) % 256) as u8,
    ]
}

fn le16_vec(x: u16) -> (r: Vec<u8>)
    ensures
        r@ == le16(x),
{
    let mut out: Vec<u8> = Vec::new();
    out.push((x % 256) as u8);
    out.push(((x / 256) % 256) as u8);
    assert(out@ =~= le16(x));
    out
}

fn le32_vec(x: u32) -> (r: Vec<u8>)
    ensures
        r@ == le32(x),
{
    let mut out: Vec<u8> = Vec::new();
    out.push((x % 256) as u8);
    out.push(((x / 0x100) % 256) as u8);
    out.push(((x / 0x1_0000) % 256) as u8);
    out.push(((x / 0x100_0000) % 256) as u8);
    assert(out@ =~= le32(x));
    out
}

fn push_bytes(out: &mut Vec<u8>, b: &[u8])
    ensures
        final(out)@ == old(out)@ + b@,
{
    let n = b.len();
    for i in 0..n
        invariant
            n == b@.len(),
            out@ == old(out)@ + b@.take(i as int),
    {
        out.push(b[i]);
        assert(b@.take(i + 1) =~= b@.take(i as int).push(b@[i as int]));
        assert(old(out)@ + b@.take(i + 1) =~= old(out)@ + b@.take(i as int) + seq![b@[i as int]]);
    }
    assert(b@.take(n as int) =~= b@);
}

fn push_le16(out: &mut Vec<u8>, x: u16)
    ensures
        final(out)@ == old(out)@ + le16(x),
{
    let v = le16_vec(x);
    push_bytes(out, v.as_slice());
}

fn push_le32(out: &mut Vec<u8>, x: u32)
    ensures
        final(out)@ == old(out)@ + le32(x),
{
    let v = le32_vec(x);
    push_bytes(out, v.as_slice());
}

/// The local file header and data of a stored single-file archive.
pub open spec fn zip_local(name: Seq<u8>, content: Seq<u8>) -> Seq<u8> {
    let crc = crc32_of(content);
    let c = content.len() as u32;
    le32(0x0403_4b50) + le16(20) + le16(0) + le16(0) + le16(0) + le16(0) + le32(crc) + le32(c)
        + le32(c) + le16(name.len() as u16) + le16(0) + name + content
}

/// The central directory header of the single entry, whose local header is at offset 0.
pub open spec fn zip_central(name: Seq<u8>, content: Seq<u8>) -> Seq<u8> {
    let crc = crc32_of(content);
    let c = content.len() as u32;
    le32(0x0201_4b50) + le16(20) + le16(20) + le16(0) + le16(0) + le16(0) + le16(0) + le32(crc)
        + le32(c) + le32(c) + le16(name.len() as u16) + le16(0) + le16(0) + le16(0) + le16(0)
        + le32(0) + le32(0) + name
}

/// The size field of the end record: the archive's length after the central
/// directory minus the directory's offset, both as 32-bit values.
pub open spec fn zip_central_size(name: Seq<u8>, content: Seq<u8>) -> int {
    let local = zip_local(name, content).len();
    let end = local + zip_central(name, content).len();
    (end as u32) as int - (local as u32) as int
}

/// The end-of-central-directory record.
pub open spec fn zip_end(name: Seq<u8>, content: Seq<u8>) -> Seq<u8> {
    le32(0x0605_4b50) + le16(0) + le16(0) + le16(1) + le16(1) + le32(
        zip_central_size(name, content) as u32,
    ) + le32(zip_local(name, content).len() as u32) + le16(0)
}

/// A store-only ZIP archive holding `content` as the single file `name`.
pub open spec fn zip_archive(name: Seq<u8>, content: Seq<u8>) -> Seq<u8> {
    zip_local(name, content) + zip_central(name, content) + zip_end(name, content)
}

/// Whether the archive can be built: the 32-bit subtraction that yields the
/// central directory size does not underflow, and the archive fits in memory.
pub open spec fn zip_buildable(name: Seq<u8>, content: Seq<u8>) -> bool {
    &&& zip_central_size(name, content) >= 0
    &&& 2 * name.len() + content.len() + 98 <= usize::MAX
}

fn zip_local_bytes(name: &[u8], content: &[u8], crc: u32) -> (r: Vec<u8>)
    requires
        crc == crc32_of(content@),
    ensures
        r@ == zip_local(name@, content@),
{
    let c32 = content.len() as u32;
    let mut out = le32_vec(0x0403_4b50u32);
    push_le16(&mut out, 20u16);
    push_le16(&mut out, 0u16);
    push_le16(&mut out, 0u16);
    push_le16(&mut out, 0u16);
    push_le16(&mut out, 0u16);
    push_le32(&mut out, crc);
    push_le32(&mut out, c32);
    push_le32(&mut out, c32);
    push_le16(&mut out, name.len() as u16);
    push_le16(&mut out, 0u16);
    push_bytes(&mut out, name);
    push_bytes(&mut out, content);
    out
}

fn zip_central_bytes(name: &[u8], content: &[u8], crc: u32) -> (r: Vec<u8>)
    requires
        crc == crc32_of(content@),
    ensures
        r@ == zip_central(name@, content@),
{
    let c32 = content.len() as u32;
    let mut out = le32_vec(0x0201_4b50u32);
    push_le16(&mut out, 20u16);
    push_le16(&mut out, 20u16);
    push_le16(&mut out, 0u16);
    push_le16(&mut out, 0u16);
    push_le16(&mut out, 0u16);
    push_le16(&mut out, 0u16);
    push_le32(&mut out, crc);
    push_le32(&mut out, c32);
    push_le32(&mut out, c32);
    push_le16(&mut out, name.len() as u16);
    push_le16(&mut out, 0u16);
    push_le16(&mut out, 0u16);
    push_le16(&mut out, 0u16);
    push_le16(&mut out, 0u16);
    push_le32(&mut out, 0u32);
    push_le32(&mut out, 0u32);
    push_bytes(&mut out, name);
    out
}

fn zip_end_bytes(central_size: u32, central_offset: u32) -> (r: Vec<u8>)
    ensures
        r@ == le32(0x0605_4b50) + le16(0) + le16(0) + le16(1) + le16(1) + le32(central_size)
            + le32(central_offset) + le16(0),
{
    let mut out = le32_vec(0x0605_4b50u32);
    push_le16(&mut out, 0u16);
    push_le16(&mut out, 0u16);
    push_le16(&mut out, 1u16);
    push_le16(&mut out, 1u16);
    push_le32(&mut out, central_size);
    push_le32(&mut out, central_offset);
    push_le16(&mut out, 0u16);
    out
}

/// The archive holds the file's bytes verbatim right after the 30-byte local
/// header and its name, starts with the local-header signature, ends with
/// the 22-byte end record, and is `2 * name + content + 98` bytes long.
pub proof fn lemma_zip_layout(name: Seq<u8>, content: Seq<u8>)
    ensures
        zip_archive(name, content).len() == 2 * name.len() + content.len() + 98,
        zip_archive(name, content).subrange(0, 4) == le32(0x0403_4b50),
        zip_archive(name, content).subrange(30, 30 + name.len() as int) == name,
        zip_archive(name, content).subrange(30 + name.len() as int, 30 + name.len() as int + content.len() as int) == content,
        zip_archive(name, content).subrange(
            30 + name.len() as int + content.len() as int,
            34 + name.len() as int + content.len() as int,
        ) == le32(0x0201_4b50),
        zip_archive(name, content).subrange(
            zip_archive(name, content).len() as int - 22,
            zip_archive(name, content).len() as int - 18,
        ) == le32(0x0605_4b50),
{
    let z = zip_archive(name, content);
    let l = zip_local(name, content);
    let c = zip_central(name, content);
    let e = zip_end(name, content);
    assert(l.len() == 30 + name.len() as int + content.len() as int);
    assert(c.len() == 46 + name.len());
    assert(e.len() == 22);
    assert(z.subrange(0, 4) =~= le32(0x0403_4b50));
    assert(z.subrange(30, 30 + name.len() as int) =~= name);
    assert(z.subrange(30 + name.len() as int, 30 + name.len() as int + content.len() as int) =~= content);
    assert(z.subrange(30 + name.len() as int + content.len() as int, 34 + name.len() as int + content.len() as int) =~= le32(0x0201_4b50));
    assert(z.subrange(z.len() as int - 22, z.len() as int - 18) =~= le32(0x0605_4b50));
}

/// Builds a minimal uncompressed ZIP holding a single file: the artifact
/// service takes a ZIP as the uploaded blob and shows the file inside it.
pub fn build_single_file_zip(filename: &str, content: &[u8]) -> (r: Vec<u8>)
    requires
        zip_buildable(filename.spec_bytes(), content@),
    ensures
        r@ == zip_archive(filename.spec_bytes(), content@),
{
    let ghost name = filename.spec_bytes();
    let crc = crc32(content);
    let name_bytes = filename.as_bytes();
    let mut out = zip_local_bytes(name_bytes, content, crc);
    let central_offset = out.len() as u32;
    let central = zip_central_bytes(name_bytes, content, crc);
    push_bytes(&mut out, central.as_slice());
    let end32 = out.len() as u32;
    let central_size = end32 - central_offset;
    let tail = zip_end_bytes(central_size, central_offset);
    push_bytes(&mut out, tail.as_slice());
    out
}

/// The lowercase hexadecimal digit for `d < 16`.
pub open spec fn hex_digit(d: nat) -> char {
    if d < 10 {
        (d + ('0' as nat)) as char
    } else {
        ((d - 10) + ('a' as nat)) as char
    }
}

/// Two lowercase hex digits per byte (`format!("{:02x}", b)` for each byte, joined).
pub open spec fn hex_lower_of(bytes: Seq<u8>) -> Seq<char>
    decreases bytes.len(),
{
    if bytes.len() == 0 {
        seq![]
    } else {
        hex_lower_of(bytes.drop_last()) + seq![
            hex_digit((bytes.last() / 16) as nat),
            hex_digit((bytes.last() % 16) as nat),
        ]
    }
}

fn hex_digit_exec(d: u8) -> (c: char)
    requires
        d < 16,
    ensures
        c == hex_digit(d as nat),
{
    if d < 10 {
        (d + 48u8) as char
    } else {
        (d - 10 + 97u8) as char
    }
}

/// Lowercase hex encoding of `bytes`.
pub fn hex_lower(bytes: &[u8]) -> (r: String)
    ensures
        r@ == hex_lower_of(bytes@),
{
    let mut v: Vec<char> = Vec::new();
    let n = bytes.len();
    for i in 0..n
        invariant
            n == bytes@.len(),
            v@ == hex_lower_of(bytes@.take(i as int)),
    {
        let b = bytes[i];
        v.push(hex_digit_exec(b / 16));
        v.push(hex_digit_exec(b % 16));
        assert(bytes@.take(i + 1).drop_last() =~= bytes@.take(i as int));
        assert(v@ =~= hex_lower_of(bytes@.take(i + 1)));
    }
    assert(bytes@.take(n as int) =~= bytes@);
    string_of(&v)
}

/// The run and job ids the artifact service routes an upload by.
#[derive(Debug, Clone, PartialEq, Eq)]
pub struct BackendIds {
    pub workflow_run_backend_id: String,
    pub workflow_job_run_backend_id: String,
}

/// Why a runtime token yielded no backend ids.
#[derive(Debug, Clone, Copy, PartialEq, Eq)]
pub enum TokenError {
    /// The token has no second `.`-separated segment.
    NotJwt,
    /// The payload segment is not unpadded base64url.
    NotBase64Url,
    /// The decoded payload is not a JSON object with a string `scp` claim.
    NotJson,
    /// No `scp` entry reads `Actions.Results:<run>:<job>`.
    NoResultsScope,
}

impl TokenError {
    pub fn message(&self) -> (r: String)
        ensures
            r@ == self.spec_message(),
    {
        match self {
            TokenError::NotJwt => owned("ACTIONS_RUNTIME_TOKEN is not a JWT"),
            TokenError::NotBase64Url => owned("ACTIONS_RUNTIME_TOKEN payload is not base64url"),
            TokenError::NotJson => owned("ACTIONS_RUNTIME_TOKEN payload is not JSON"),
            TokenError::NoResultsScope => owned("ACTIONS_RUNTIME_TOKEN scp claim missing Actions.Results entry"),
        }
    }

    pub open spec fn spec_message(&self) -> Seq<char> {
        match self {
            TokenError::NotJwt => "ACTIONS_RUNTIME_TOKEN is not a JWT"@,
            TokenError::NotBase64Url => "ACTIONS_RUNTIME_TOKEN payload is not base64url"@,
            TokenError::NotJson => "ACTIONS_RUNTIME_TOKEN payload is not JSON"@,
            TokenError::NoResultsScope => "ACTIONS_RUNTIME_TOKEN scp claim missing Actions.Results entry"@,
        }
    }
}

/// What `URL_SAFE_NO_PAD.decode` gives for a text: `None` where it is not
/// unpadded base64url.
pub uninterp spec fn base64url_decoded(text: Seq<char>) -> Option<Seq<u8>>;

/// `base64::engine::general_purpose::URL_SAFE_NO_PAD.decode`. Its result is named
/// by `base64url_decoded`; the alphabet and padding rules are not restated.
#[verifier::external_body]
fn decode_base64url(text: &str) -> (r: Option<Vec<u8>>)
    ensures
        match r {
            Some(b) => base64url_decoded(text@) == Some(b@),
            None => base64url_decoded(text@) is None,
        },
{
    base64::engine::general_purpose::URL_SAFE_NO_PAD.decode(text).ok()
}

/// What `URL_SAFE_NO_PAD.encode` gives for some bytes.
pub uninterp spec fn base64url_encoded(bytes: Seq<u8>) -> Seq<char>;

/// Whether `c` is in the URL-safe base64 alphabet (RFC 4648, section 5).
pub open spec fn base64url_char(c: char) -> bool {
    ('A' <= c <= 'Z') || ('a' <= c <= 'z') || ('0' <= c <= '9') || c == '-' || c == '_'
}

/// `URL_SAFE_NO_PAD.encode`. Its result is named by `base64url_encoded`; as
/// the encoding documents, it has `ceil(4n/3)` characters for `n` bytes, all
/// from the URL-safe alphabet, with no padding. The length computation
/// panics on overflow, which the bound on `n` rules out.
#[verifier::external_body]
pub(crate) fn encode_base64url(bytes: &[u8]) -> (r: String)
    requires
        bytes@.len() <= usize::MAX / 2,
    ensures
        r@ == base64url_encoded(bytes@),
        r@.len() == (4 * bytes@.len() + 2) / 3,
        forall|i: int| 0 <= i < r@.len() ==> base64url_char(#[trigger] r@[i]),
{
    base64::engine::general_purpose::URL_SAFE_NO_PAD.encode(bytes)
}

/// The string value of the `scp` member of the JSON object encoded in
/// `bytes`; `None` where `bytes` is not JSON, not an object, or has no string `scp`.
pub uninterp spec fn json_scp_claim(bytes: Seq<u8>) -> Option<Seq<char>>;

/// `serde_json::from_slice::<serde_json::Value>` followed by reading the `scp`
/// member as a string. Its result is named by `json_scp_claim`. Read through
/// `Value`, an object with `scp` twice gives the last one, and a JSON array is
/// no claims object; a derived one-field claims struct would refuse the first
/// and read the second by position.
#[verifier::external_body]
fn scp_claim(bytes: &[u8]) -> (r: Option<String>)
    ensures
        match r {
            Some(s) => json_scp_claim(bytes@) == Some(s@),
            None => json_scp_claim(bytes@) is None,
        },
{
    let v: serde_json::Value = serde_json::from_slice(bytes).ok()?;
    v.get("scp")?.as_str().map(|s| s.to_string())
}

/// The scope prefix whose entries carry the backend ids.
pub open spec fn results_scope() -> Seq<char> {
    "Actions.Results"@
}

/// The ids of the first scope that reads `Actions.Results:<run>:<job>[:...]`.
pub open spec fn results_ids(scopes: Seq<Seq<char>>) -> Option<(Seq<char>, Seq<char>)>
    decreases scopes.len(),
{
    if scopes.len() == 0 {
        None
    } else {
        let parts = split_on(scopes[0], ':');
        if parts[0] == results_scope() && parts.len() >= 3 {
            Some((parts[1], parts[2]))
        } else {
            results_ids(scopes.drop_first())
        }
    }
}

/// What `backend_ids_from_token` yields: the run and job ids, or the reason there are none.
pub open spec fn token_backend_ids(token: Seq<char>) -> Result<(Seq<char>, Seq<char>), TokenError> {
    let segments = split_on(token, '.');
    if segments.len() < 2 {
        Err(TokenError::NotJwt)
    } else {
        match base64url_decoded(segments[1]) {
            None => Err(TokenError::NotBase64Url),
            Some(payload) => match json_scp_claim(payload) {
                None => Err(TokenError::NotJson),
                Some(scp) => match results_ids(split_on(scp, ' ')) {
                    Some(ids) => Ok(ids),
                    None => Err(TokenError::NoResultsScope),
                },
            },
        }
    }
}

/// The ids of the first `Actions.Results` scope among `scopes`, searched from `from`.
fn find_results_ids(scopes: &Vec<Vec<char>>) -> (r: Option<(String, String)>)
    ensures
        match r {
            Some((a, b)) => results_ids(views(scopes@)) == Some((a@, b@)),
            None => results_ids(views(scopes@)) is None,
        },
{
    let prefix = chars_of("Actions.Results");
    let n = scopes.len();
    let mut i: usize = 0;
    assert(views(scopes@).skip(0) =~= views(scopes@));
    while i < n
        invariant
            n == scopes@.len(),
            i <= n,
            prefix@ == results_scope(),
            results_ids(views(scopes@)) == results_ids(views(scopes@).skip(i as int)),
        decreases n - i,
    {
        let ghost rest = views(scopes@).skip(i as int);
        assert(rest.drop_first() =~= views(scopes@).skip(i + 1));
        assert(rest[0] == scopes@[i as int]@);
        let parts = split_chars(scopes[i].as_slice(), ':');
        proof {
            crate::text::lemma_split_on_nonempty_view(scopes@[i as int]@, ':');
        }
        if parts.len() >= 3 && chars_eq(parts[0].as_slice(), prefix.as_slice()) {
            assert(parts@[1]@ == views(parts@)[1]);
            assert(parts@[2]@ == views(parts@)[2]);
            return Some((string_of(parts[1].as_slice()), string_of(parts[2].as_slice())));
        }
        proof {
            if views(parts@)[0] == results_scope() {
                assert(parts@[0]@ == views(parts@)[0]);
            }
        }
        i = i + 1;
    }
    None
}

/// Reads the `Actions.Results:<runId>:<jobId>` scope from an
/// `ACTIONS_RUNTIME_TOKEN` JWT. The signature is not checked: the ids are
/// routing keys, and the artifact service validates the token itself.
pub fn backend_ids_from_token(token: &str) -> (r: Result<BackendIds, TokenError>)
    ensures
        match r {
            Ok(ids) => token_backend_ids(token@) == Ok::<(Seq<char>, Seq<char>), TokenError>(
                (ids.workflow_run_backend_id@, ids.workflow_job_run_backend_id@),
            ),
            Err(e) => token_backend_ids(token@) == Err::<(Seq<char>, Seq<char>), TokenError>(e),
        },
{
    let t = chars_of(token);
    let segments = split_chars(t.as_slice(), '.');
    if segments.len() < 2 {
        return Err(TokenError::NotJwt);
    }
    assert(segments@[1]@ == views(segments@)[1]);
    let seg = string_of(segments[1].as_slice());
    let payload = match decode_base64url(seg.as_str()) {
        Some(p) => p,
        None => return Err(TokenError::NotBase64Url),
    };
    let scp = match scp_claim(payload.as_slice()) {
        Some(s) => s,
        None => return Err(TokenError::NotJson),
    };
    let sc = chars_of(scp.as_str());
    let scopes = split_chars(sc.as_slice(), ' ');
    match find_results_ids(&scopes) {
        Some((run, job)) => Ok(
            BackendIds { workflow_run_backend_id: run, workflow_job_run_backend_id: job },
        ),
        None => Err(TokenError::NoResultsScope),
    }
}

/// The Twirp service path of the artifact API, under `ACTIONS_RESULTS_URL`.
pub open spec fn twirp_base() -> Seq<char> {
    "twirp/github.actions.results.api.v1.ArtifactService"@
}

/// The artifact protocol version the runner speaks.
pub const ARTIFACT_VERSION: u32 = 4u32;

/// The SHA-256 digest of `data`.
pub uninterp spec fn sha256_of(data: Seq<u8>) -> Seq<u8>;

/// `sha2::Sha256::digest`. Its result is named by `sha256_of`; it is 32 bytes long.
#[verifier::external_body]
fn sha256_digest(data: &[u8]) -> (r: Vec<u8>)
    ensures
        r@ == sha256_of(data@),
        r@.len() == 32,
{
    sha2::Sha256::digest(data).to_vec()
}

/// Everything an upload sends that is computed rather than received: the
/// archive, its digest and size as the finalize call states them, and the two
/// service URLs.
pub struct UploadPlan {
    pub archive: Vec<u8>,
    pub hash: String,
    pub size: String,
    pub create_url: String,
    pub finalize_url: String,
}

/// `"sha256:"` followed by the lowercase hex digest of `archive`.
pub open spec fn archive_hash(archive: Seq<u8>) -> Seq<char> {
    "sha256:"@ + hex_lower_of(sha256_of(archive))
}

/// Plans the upload of `body` as the single file `filename` of an artifact:
/// the store-only ZIP, its `sha256:` hash, its size in decimal, and the
/// `CreateArtifact` and `FinalizeArtifact` URLs under `results_url`, which
/// ends in a slash.
pub fn plan_upload(results_url: &str, filename: &str, body: &str) -> (r: UploadPlan)
    requires
        zip_buildable(filename.spec_bytes(), body.spec_bytes()),
    ensures
        r.archive@ == zip_archive(filename.spec_bytes(), body.spec_bytes()),
        r.hash@ == archive_hash(r.archive@),
        r.size@ == dec(r.archive@.len()),
        r.create_url@ == results_url@ + twirp_base() + "/CreateArtifact"@,
        r.finalize_url@ == results_url@ + twirp_base() + "/FinalizeArtifact"@,
{
    let archive = build_single_file_zip(filename, body.as_bytes());
    let digest = sha256_digest(archive.as_slice());
    let hex = hex_lower(digest.as_slice());
    let hash = concat("sha256:", hex.as_str());
    let size_chars = dec_chars(archive.len() as u64);
    let size = string_of(size_chars.as_slice());
    let base = concat(results_url, "twirp/github.actions.results.api.v1.ArtifactService");
    let create_url = concat(base.as_str(), "/CreateArtifact");
    let finalize_url = concat(base.as_str(), "/FinalizeArtifact");
    UploadPlan { archive, hash, size, create_url, finalize_url }
}

/// The JSON body of `CreateArtifact`.
#[derive(Debug, Clone, PartialEq, Eq)]
pub struct CreateArtifactRequest {
    pub workflow_run_backend_id: String,
    pub workflow_job_run_backend_id: String,
    pub name: String,
    pub version: u32,
}

/// The JSON body of `FinalizeArtifact`.
#[derive(Debug, Clone, PartialEq, Eq)]
pub struct FinalizeArtifactRequest {
    pub workflow_run_backend_id: String,
    pub workflow_job_run_backend_id: String,
    pub name: String,
    pub size: String,
    pub hash: String,
}

/// Everything the three upload requests carry. `CreateArtifact` and
/// `FinalizeArtifact` are POSTed as JSON with `bearer_token` as bearer
/// authentication; the blob PUT goes to the URL `CreateArtifact` answers,
/// with `put_headers` and the archive as its body.
#[derive(Debug, Clone, PartialEq, Eq)]
pub struct UploadRequests {
    pub bearer_token: String,
    pub create_url: String,
    pub create: CreateArtifactRequest,
    pub put_headers: Vec<(String, String)>,
    pub put_body: Vec<u8>,
    pub finalize_url: String,
    pub finalize: FinalizeArtifactRequest,
}

/// The Azure Blob API version the PUT declares.
pub open spec fn blob_api_version() -> Seq<char> {
    "2020-04-08"@
}

/// The headers of the blob PUT: a single block blob of raw bytes.
pub fn blob_put_headers() -> (r: Vec<(String, String)>)
    ensures
        r@.len() == 3,
        r@[0].0@ == "x-ms-blob-type"@ && r@[0].1@ == "BlockBlob"@,
        r@[1].0@ == "x-ms-version"@ && r@[1].1@ == blob_api_version(),
        r@[2].0@ == "content-type"@ && r@[2].1@ == "application/octet-stream"@,
{
    let mut r: Vec<(String, String)> = Vec::new();
    r.push((owned("x-ms-blob-type"), owned("BlockBlob")));
    r.push((owned("x-ms-version"), owned("2020-04-08")));
    r.push((owned("content-type"), owned("application/octet-stream")));
    r
}

/// The requests that upload `body` as the single file `filename` of the
/// artifact `name`, for the run and job `ids`, authenticated with the
/// runtime token.
pub fn upload_requests(
    results_url: &str,
    runtime_token: &str,
    ids: &BackendIds,
    name: &str,
    filename: &str,
    body: &str,
) -> (r: UploadRequests)
    requires
        zip_buildable(filename.spec_bytes(), body.spec_bytes()),
    ensures
        r.bearer_token@ == runtime_token@,
        r.create_url@ == results_url@ + twirp_base() + "/CreateArtifact"@,
        r.create.workflow_run_backend_id@ == ids.workflow_run_backend_id@,
        r.create.workflow_job_run_backend_id@ == ids.workflow_job_run_backend_id@,
        r.create.name@ == name@,
        r.create.version == 4,
        r.put_headers@.len() == 3,
        r.put_headers@[0].0@ == "x-ms-blob-type"@ && r.put_headers@[0].1@ == "BlockBlob"@,
        r.put_headers@[1].0@ == "x-ms-version"@ && r.put_headers@[1].1@ == blob_api_version(),
        r.put_headers@[2].0@ == "content-type"@ && r.put_headers@[2].1@ == "application/octet-stream"@,
        r.put_body@ == zip_archive(filename.spec_bytes(), body.spec_bytes()),
        r.finalize_url@ == results_url@ + twirp_base() + "/FinalizeArtifact"@,
        r.finalize.workflow_run_backend_id@ == ids.workflow_run_backend_id@,
        r.finalize.workflow_job_run_backend_id@ == ids.workflow_job_run_backend_id@,
        r.finalize.name@ == name@,
        r.finalize.size@ == dec(r.put_body@.len()),
        r.finalize.hash@ == archive_hash(r.put_body@),
{
    let plan = plan_upload(results_url, filename, body);
    let create = CreateArtifactRequest {
        workflow_run_backend_id: owned(ids.workflow_run_backend_id.as_str()),
        workflow_job_run_backend_id: owned(ids.workflow_job_run_backend_id.as_str()),
        name: owned(name),
        version: ARTIFACT_VERSION,
    };
    let finalize = FinalizeArtifactRequest {
        workflow_run_backend_id: owned(ids.workflow_run_backend_id.as_str()),
        workflow_job_run_backend_id: owned(ids.workflow_job_run_backend_id.as_str()),
        name: owned(name),
        size: plan.size,
        hash: plan.hash,
    };
    UploadRequests {
        bearer_token: owned(runtime_token),
        create_url: plan.create_url,
        create,
        put_headers: blob_put_headers(),
        put_body: plan.archive,
        finalize_url: plan.finalize_url,
        finalize,
    }
}

/// The three requests of an artifact upload, in the order they are sent:
/// `CreateArtifact`, the block-blob PUT of the archive, `FinalizeArtifact`.
#[derive(Debug, Clone, Copy, PartialEq, Eq)]
pub enum UploadStage {
    Create,
    Put,
    Finalize,
}

/// What came back from the request of a stage.
#[derive(Debug, Clone, PartialEq, Eq)]
pub enum UploadReply {
    /// The request could not be sent or got no answer.
    SendFailed { error: String },
    /// The service answered with a status other than success.
    Refused { status: String, body: String },
    /// `CreateArtifact` succeeded and its JSON body names the upload URL.
    Created { signed_upload_url: String },
    /// `CreateArtifact` succeeded but its body is not the expected JSON.
    CreatedUnreadable { error: String },
    /// The PUT or `FinalizeArtifact` succeeded.
    Accepted,
}

/// What the upload does next.
#[derive(Debug, Clone, PartialEq, Eq)]
pub enum UploadNext {
    /// PUT the archive to this URL.
    Put { url: String },
    /// Send `FinalizeArtifact` with the plan's size and hash.
    Finalize,
    /// The artifact is uploaded.
    Done,
    /// The upload stops here, with this error.
    Failed { message: String },
}

/// Whether `reply` can come back from the request of `stage`: only
/// `CreateArtifact` yields an upload URL, and only the other two a bare success.
pub open spec fn reply_fits(stage: UploadStage, reply: UploadReply) -> bool {
    match reply {
        UploadReply::Created { .. } | UploadReply::CreatedUnreadable { .. } => stage is Create,
        UploadReply::Accepted => !(stage is Create),
        _ => true,
    }
}

/// How a request that could not be sent is reported.
pub open spec fn send_failed_prefix(stage: UploadStage) -> Seq<char> {
    match stage {
        UploadStage::Create => "CreateArtifact request failed: "@,
        UploadStage::Put => "artifact blob PUT failed: "@,
        UploadStage::Finalize => "FinalizeArtifact request failed: "@,
    }
}

/// How a refused request is reported, before its status.
pub open spec fn refused_prefix(stage: UploadStage) -> Seq<char> {
    match stage {
        UploadStage::Create => "CreateArtifact returned "@,
        UploadStage::Put => "blob PUT returned "@,
        UploadStage::Finalize => "FinalizeArtifact returned "@,
    }
}

/// The step after each response of the upload: the first failure stops it
/// with its message; a created artifact is PUT to its signed URL, a stored
/// blob is finalized, and a finalized artifact is done.
pub fn after_upload_reply(stage: UploadStage, reply: UploadReply) -> (r: UploadNext)
    requires
        reply_fits(stage, reply),
    ensures
        match reply {
            UploadReply::SendFailed { error } => r matches UploadNext::Failed { message }
                && message@ == send_failed_prefix(stage) + error@,
            UploadReply::Refused { status, body } => r matches UploadNext::Failed { message }
                && message@ == refused_prefix(stage) + status@ + ": "@ + body@,
            UploadReply::Created { signed_upload_url } => r matches UploadNext::Put { url }
                && url@ == signed_upload_url@,
            UploadReply::CreatedUnreadable { error } => r matches UploadNext::Failed { message }
                && message@ == "CreateArtifact response not JSON: "@ + error@,
            UploadReply::Accepted => if stage is Put {
                r is Finalize
            } else {
                r is Done
            },
        },
{
    match reply {
        UploadReply::SendFailed { error } => {
            let prefix = match stage {
                UploadStage::Create => "CreateArtifact request failed: ",
                UploadStage::Put => "artifact blob PUT failed: ",
                UploadStage::Finalize => "FinalizeArtifact request failed: ",
            };
            UploadNext::Failed { message: concat(prefix, error.as_str()) }
        },
        UploadReply::Refused { status, body } => {
            let prefix = match stage {
                UploadStage::Create => "CreateArtifact returned ",
                UploadStage::Put => "blob PUT returned ",
                UploadStage::Finalize => "FinalizeArtifact returned ",
            };
            let a = concat(prefix, status.as_str());
            let b = concat(a.as_str(), ": ");
            UploadNext::Failed { message: concat(b.as_str(), body.as_str()) }
        },
        UploadReply::Created { signed_upload_url } => UploadNext::Put { url: signed_upload_url },
        UploadReply::CreatedUnreadable { error } => UploadNext::Failed {
            message: concat("CreateArtifact response not JSON: ", error.as_str()),
        },
        UploadReply::Accepted => match stage {
            UploadStage::Put => UploadNext::Finalize,
            _ => UploadNext::Done,
        },
    }
}

} // verus!
