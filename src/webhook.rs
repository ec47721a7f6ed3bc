use vstd::prelude::*;
use crate::command::texts;
use crate::error::{ErrorKind, MonitorError, Result, result_view};
use crate::ordered::{merge_ascending, strictly_ascending};
use crate::text::{has_prefix, str_equal, strip_prefix_text};

verus! {

/// The repository a push event is about.
#[derive(Clone, Debug)]
pub struct Repository {
    pub full_name: String,
    pub clone_url: String,
}

/// One commit of a push event, with the paths it added, modified and removed.
#[derive(Clone, Debug)]
pub struct Commit {
    pub id: String,
    pub message: String,
    pub added: Vec<String>,
    pub modified: Vec<String>,
    pub removed: Vec<String>,
}

/// A push event as the hosting service delivers it.
#[derive(Clone, Debug)]
pub struct WebhookPayload {
    pub git_ref: String,
    pub repository: Repository,
    pub commits: Vec<Commit>,
}

/// A push event reduced to its branch, its repository and the paths it touched,
/// each list ascending with every path once.
#[derive(Clone, Debug)]
pub struct ProcessedWebhook {
    pub branch: String,
    pub repository: String,
    pub added_files: Vec<String>,
    pub modified_files: Vec<String>,
    pub removed_files: Vec<String>,
}

/// The paths added by any of the commits.
pub open spec fn added_paths(commits: Seq<Commit>) -> Set<Seq<char>>
    decreases commits.len(),
{
    if commits.len() == 0 {
        Set::empty()
    } else {
        added_paths(commits.drop_last()) + texts(commits.last().added@).to_set()
    }
}

/// The paths modified by any of the commits.
pub open spec fn modified_paths(commits: Seq<Commit>) -> Set<Seq<char>>
    decreases commits.len(),
{
    if commits.len() == 0 {
        Set::empty()
    } else {
        modified_paths(commits.drop_last()) + texts(commits.last().modified@).to_set()
    }
}

/// The paths removed by any of the commits.
pub open spec fn removed_paths(commits: Seq<Commit>) -> Set<Seq<char>>
    decreases commits.len(),
{
    if commits.len() == 0 {
        Set::empty()
    } else {
        removed_paths(commits.drop_last()) + texts(commits.last().removed@).to_set()
    }
}

/// The two lowercase hexadecimal digits of each byte, in order.
pub open spec fn hex_lower(bytes: Seq<u8>) -> Seq<char>
    decreases bytes.len(),
{
    if bytes.len() == 0 {
        Seq::empty()
    } else {
        let digits = seq![
            '0', '1', '2', '3', '4', '5', '6', '7', '8', '9', 'a', 'b', 'c', 'd', 'e', 'f'
        ];
        let b = bytes.last();
        hex_lower(bytes.drop_last()) + seq![digits[(b / 16) as int], digits[(b % 16) as int]]
    }
}

/// Relies on `hex::encode`: two lowercase hexadecimal digits per byte, in order.
#[verifier::external_body]
fn to_hex(bytes: &[u8]) -> (r: String)
    ensures
        r@ == hex_lower(bytes@),
{
    hex::encode(bytes)
}

/// The HMAC-SHA256 tag of `message` under the key made of `key`'s UTF-8 bytes.
pub uninterp spec fn hmac_sha256_of(key: Seq<char>, message: Seq<u8>) -> Seq<u8>;

/// Relies on hmac's `Hmac<Sha256>`: `new_from_slice` accepts a key of any length
/// (longer keys are hashed), and `finalize` gives the tag of everything passed to
/// `update`.
#[verifier::external_body]
fn hmac_sha256(key: &str, message: &[u8]) -> (r: core::result::Result<Vec<u8>, String>)
    ensures
        r is Ok,
        r->Ok_0@ == hmac_sha256_of(key@, message@),
{
    match <hmac::Hmac<sha2::Sha256> as hmac::Mac>::new_from_slice(key.as_bytes()) {
        Ok(mut mac) => {
            hmac::Mac::update(&mut mac, message);
            Ok(hmac::Mac::finalize(mac).into_bytes().to_vec())
        },
        Err(e) => Err(e.to_string()),
    }
}

/// What checking `signature` against the computed `tag` gives: the signature must
/// read `sha256=` followed by the tag in lowercase hexadecimal.
pub open spec fn signature_outcome(tag: Seq<u8>, signature: Seq<char>) -> core::result::Result<
    bool,
    (ErrorKind, Seq<char>),
> {
    if has_prefix(signature, "sha256="@) {
        Ok(hex_lower(tag) == signature.subrange(7, signature.len() as int))
    } else {
        Err((ErrorKind::WebhookValidation, "Invalid signature format"@))
    }
}

/// Receives push events signed with a shared secret.
pub struct WebhookServer {
    secret: String,
}

impl WebhookServer {
    pub closed spec fn spec_secret(&self) -> Seq<char> {
        self.secret@
    }

    pub fn new(secret: String) -> (r: WebhookServer)
        ensures
            r.spec_secret() == secret@,
    {
        WebhookServer { secret }
    }

    /// Checks a signature header against an already computed tag of the payload.
    pub fn signature_matches(tag: &[u8], signature: &str) -> (r: Result<bool>)
        ensures
            result_view(r) == signature_outcome(tag@, signature@),
    {
        proof {
            reveal_strlit("sha256=");
        }
        match strip_prefix_text(signature, "sha256=") {
            None => Err(MonitorError::WebhookValidation("Invalid signature format".to_string())),
            Some(expected) => {
                let computed = to_hex(tag);
                Ok(str_equal(computed.as_str(), expected.as_str()))
            },
        }
    }

    /// Whether `signature` (a `sha256=<hex>` header) is the HMAC-SHA256 of the
    /// payload under the shared secret. A header of another shape is an error.
    pub fn validate_signature(&self, payload: &[u8], signature: &str) -> (r: Result<bool>)
        ensures
            result_view(r) == signature_outcome(hmac_sha256_of(self.spec_secret(), payload@), signature@),
    {
        match hmac_sha256(self.secret.as_str(), payload) {
            Ok(tag) => Self::signature_matches(tag.as_slice(), signature),
            Err(e) => {
                let mut m = "Invalid key: ".to_string();
                m.append(e.as_str());
                Err(MonitorError::WebhookValidation(m))
            },
        }
    }

    /// Reduces a push event to its branch, its repository and the paths its commits
    /// touched. The reference must name a branch (`refs/heads/<branch>`); each list
    /// of paths gathers every commit's, ascending, each path once.
    pub fn process_payload(&self, payload: WebhookPayload) -> (r: Result<ProcessedWebhook>)
        ensures
            !has_prefix(payload.git_ref@, "refs/heads/"@) ==> (r matches Err(e) && e@ == (
                ErrorKind::WebhookValidation,
                "Invalid git ref format: "@ + payload.git_ref@,
            )),
            has_prefix(payload.git_ref@, "refs/heads/"@) ==> (r matches Ok(p) && p.branch@
                == payload.git_ref@.subrange(11, payload.git_ref@.len() as int) && p.repository@
                == payload.repository.full_name@ && strictly_ascending(texts(p.added_files@))
                && texts(p.added_files@).to_set() == added_paths(payload.commits@)
                && strictly_ascending(texts(p.modified_files@)) && texts(p.modified_files@).to_set()
                == modified_paths(payload.commits@) && strictly_ascending(texts(p.removed_files@))
                && texts(p.removed_files@).to_set() == removed_paths(payload.commits@)),
    {
        proof {
            reveal_strlit("refs/heads/");
        }
        let branch = match strip_prefix_text(payload.git_ref.as_str(), "refs/heads/") {
            Some(b) => b,
            None => {
                let mut m = "Invalid git ref format: ".to_string();
                m.append(payload.git_ref.as_str());
                return Err(MonitorError::WebhookValidation(m));
            },
        };
        let mut added_files: Vec<String> = Vec::new();
        let mut modified_files: Vec<String> = Vec::new();
        let mut removed_files: Vec<String> = Vec::new();
        let commits = &payload.commits;
        let mut i: usize = 0;
        while i < commits.len()
            invariant
                i <= commits.len(),
                strictly_ascending(texts(added_files@)),
                strictly_ascending(texts(modified_files@)),
                strictly_ascending(texts(removed_files@)),
                texts(added_files@).to_set() == added_paths(commits@.take(i as int)),
                texts(modified_files@).to_set() == modified_paths(commits@.take(i as int)),
                texts(removed_files@).to_set() == removed_paths(commits@.take(i as int)),
            decreases commits.len() - i,
        {
            let commit = &commits[i];
            merge_ascending(&mut added_files, &commit.added);
            merge_ascending(&mut modified_files, &commit.modified);
            merge_ascending(&mut removed_files, &commit.removed);
            proof {
                assert(commits@.take(i + 1).drop_last() =~= commits@.take(i as int));
            }
            i = i + 1;
        }
        assert(commits@.take(i as int) =~= commits@);
        Ok(ProcessedWebhook {
            branch,
            repository: payload.repository.full_name,
            added_files,
            modified_files,
            removed_files,
        })
    }
}

} // verus!
