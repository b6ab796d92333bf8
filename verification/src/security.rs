//! The security snapshot and the predicates evaluated against it.
//!
//! A snapshot bundles the rate-limit ceiling, the token key and the two
//! blocklists. It never changes once built; a reload builds a new one. Each
//! predicate answers `Ok` or the status with which the request is refused.

use crate::headers::lines;
use crate::headers::set_security_headers;
use crate::headers::with_security_headers;
use crate::headers::Header;
use crate::rate_limit::store_admits;
use crate::rate_limit::store_after;
use crate::rate_limit::RateLimitStore;
use crate::rate_limit::TOO_MANY_REQUESTS;
use crate::text::chars_of;
use crate::text::contains;
use crate::text::contains_text;
use crate::text::decode_or_empty;
use crate::text::decoded_text;
use crate::text::lowercase_of;
use crate::text::starts_with;
use crate::text::trim;
use crate::text::trimmed;
use vstd::prelude::*;
use vstd::string::StrSliceExecFns;
use vstd::string::StringExecFns;
use vstd::utf8::encode_utf8;

verus! {

/// Status answered to a blocked path or user agent.
pub const FORBIDDEN: u16 = 403;

/// Status answered to a request without an acceptable bearer token.
pub const UNAUTHORIZED: u16 = 401;

/// The marker of a path that climbs out of its directory.
pub open spec fn path_traversal_marker() -> Seq<char> {
    seq!['.', '.']
}

/// The scheme prefix of an `Authorization` header that carries a token.
pub open spec fn bearer_prefix() -> Seq<char> {
    seq!['B', 'e', 'a', 'r', 'e', 'r', ' ']
}

/// The user agents every snapshot blocks.
pub open spec fn seeded_user_agents() -> Seq<Seq<char>> {
    seq!["curl"@, "python-requests"@, "wget"@, "python-urllib"@]
}

/// The path prefixes every snapshot blocks.
pub open spec fn seeded_path_prefixes() -> Seq<Seq<char>> {
    seq!["/.env"@, "/.git"@, "/admin"@, "/.aws"@, "/.ssh"@]
}

/// The texts of a list of strings.
pub open spec fn texts(list: Seq<String>) -> Seq<Seq<char>> {
    Seq::new(list.len(), |i: int| list[i]@)
}

/// The lowercase forms of a list of texts.
pub open spec fn lowered(list: Seq<Seq<char>>) -> Seq<Seq<char>> {
    Seq::new(list.len(), |i: int| lowercase_of(list[i]))
}

/// Some entry of `prefixes` is a prefix of `text`.
pub open spec fn any_prefix_of(prefixes: Seq<Seq<char>>, text: Seq<char>) -> bool {
    exists|i: int| 0 <= i < prefixes.len() && (#[trigger] prefixes[i]).is_prefix_of(text)
}

/// Some entry of `needles` stands somewhere in `text`.
pub open spec fn any_contained_in(needles: Seq<Seq<char>>, text: Seq<char>) -> bool {
    exists|i: int| 0 <= i < needles.len() && contains_text(text, #[trigger] needles[i])
}

/// A path is forbidden when it holds the traversal marker, or when its
/// lowercase form begins with a blocked prefix.
pub open spec fn path_forbidden(text: Seq<char>, lower: Seq<char>, prefixes: Seq<Seq<char>>) -> bool {
    contains_text(text, path_traversal_marker()) || any_prefix_of(prefixes, lower)
}

/// The verdict on a raw request path under a list of blocked prefixes.
pub open spec fn raw_path_forbidden(raw: Seq<u8>, prefixes: Seq<Seq<char>>) -> bool {
    path_forbidden(decoded_text(raw), lowercase_of(decoded_text(raw)), prefixes)
}

/// The verdict on a raw `User-Agent` header under a blocklist: a missing or
/// empty header is forbidden, and so is one whose lowercase form holds the
/// lowercase form of a blocked entry.
pub open spec fn raw_user_agent_forbidden(header: Option<Seq<u8>>, blocked: Seq<Seq<char>>) -> bool {
    match header {
        None => true,
        Some(raw) => raw.len() == 0 || any_contained_in(
            lowered(blocked),
            lowercase_of(decoded_text(raw)),
        ),
    }
}

/// The token an `Authorization` header carries: what follows the bearer
/// prefix, when the header is present and begins with it.
pub open spec fn bearer_token_of(header: Option<Seq<u8>>) -> Option<Seq<char>> {
    match header {
        None => None,
        Some(raw) => if bearer_prefix().is_prefix_of(decoded_text(raw)) {
            Some(decoded_text(raw).skip(7))
        } else {
            None
        },
    }
}

/// Whether some entry of `prefixes` is a prefix of `text`.
pub fn begins_with_any(text: &[char], prefixes: &Vec<String>) -> (found: bool)
    ensures
        found == any_prefix_of(texts(prefixes@), text@),
{
    let mut i: usize = 0;
    while i < prefixes.len()
        invariant
            i <= prefixes.len(),
            forall|k: int| 0 <= k < i ==> !(#[trigger] texts(prefixes@)[k]).is_prefix_of(text@),
        decreases prefixes.len() - i,
    {
        let prefix = chars_of(prefixes[i].as_str());
        assert(texts(prefixes@)[i as int] == prefix@);
        if starts_with(text, prefix.as_slice()) {
            return true;
        }
        i += 1;
    }
    false
}

/// Whether some entry of `needles` stands somewhere in `text`.
pub fn holds_any(text: &[char], needles: &Vec<String>) -> (found: bool)
    ensures
        found == any_contained_in(texts(needles@), text@),
{
    let mut i: usize = 0;
    while i < needles.len()
        invariant
            i <= needles.len(),
            forall|k: int| 0 <= k < i ==> !contains_text(text@, #[trigger] texts(needles@)[k]),
        decreases needles.len() - i,
    {
        let needle = chars_of(needles[i].as_str());
        assert(texts(needles@)[i as int] == needle@);
        if contains(text, needle.as_slice()) {
            return true;
        }
        i += 1;
    }
    false
}

/// Judges a path from its text and the lowercase form of that text.
pub fn judge_path(text: &str, lower: &str, prefixes: &Vec<String>) -> (r: Result<(), u16>)
    ensures
        r == if path_forbidden(text@, lower@, texts(prefixes@)) {
            Err::<(), u16>(FORBIDDEN)
        } else {
            Ok::<(), u16>(())
        },
{
    let text_chars = chars_of(text);
    let marker: Vec<char> = vec!['.', '.'];
    assert(marker@ =~= path_traversal_marker());
    if contains(text_chars.as_slice(), marker.as_slice()) {
        return Err(FORBIDDEN);
    }
    let lower_chars = chars_of(lower);
    if begins_with_any(lower_chars.as_slice(), prefixes) {
        return Err(FORBIDDEN);
    }
    Ok(())
}

/// Judges a user agent from the lowercase form of its text and the
/// lowercase forms of the blocked entries.
pub fn judge_user_agent(lower: &str, lower_blocked: &Vec<String>) -> (r: Result<(), u16>)
    ensures
        r == if any_contained_in(texts(lower_blocked@), lower@) {
            Err::<(), u16>(FORBIDDEN)
        } else {
            Ok::<(), u16>(())
        },
{
    let lower_chars = chars_of(lower);
    if holds_any(lower_chars.as_slice(), lower_blocked) {
        Err(FORBIDDEN)
    } else {
        Ok(())
    }
}

/// The lowercase forms of a list of strings.
pub fn lowercase_all(list: &Vec<String>) -> (lower: Vec<String>)
    ensures
        texts(lower@) == lowered(texts(list@)),
{
    let mut lower: Vec<String> = Vec::new();
    let mut i: usize = 0;
    while i < list.len()
        invariant
            i <= list.len(),
            lower@.len() == i,
            forall|k: int| 0 <= k < i ==> (#[trigger] lower@[k])@ == lowercase_of(list@[k]@),
        decreases list.len() - i,
    {
        lower.push(list[i].as_str().to_lowercase());
        i += 1;
    }
    assert(texts(lower@) =~= lowered(texts(list@)));
    lower
}

/// What a snapshot holds, as plain values.
pub struct SnapshotView {
    pub rate_limit_per_second: u32,
    pub token_key: Seq<u8>,
    pub blocked_user_agents: Seq<Seq<char>>,
    pub blocked_path_prefixes: Seq<Seq<char>>,
}

/// The snapshot built from a ceiling and a secret: the key is the secret
/// without surrounding whitespace, the blocklists are the seeded ones.
pub open spec fn seeded_snapshot(rate_limit_per_second: u32, secret: Seq<char>) -> SnapshotView {
    SnapshotView {
        rate_limit_per_second,
        token_key: encode_utf8(trimmed(secret)),
        blocked_user_agents: seeded_user_agents(),
        blocked_path_prefixes: seeded_path_prefixes(),
    }
}

/// One published bundle of security parameters.
pub struct SecurityLayer {
    /// Ceiling of accepted requests per client and second.
    pub rate_limit_per_second: u32,
    /// Symmetric key that bearer tokens are signed with.
    pub token_key: Vec<u8>,
    /// Substrings that a user agent must not hold, compared without case.
    pub blocked_user_agents: Vec<String>,
    /// Prefixes that a lowercased path must not begin with.
    pub blocked_path_prefixes: Vec<String>,
}

/// The user agents every snapshot blocks.
fn default_user_agents() -> (list: Vec<String>)
    ensures
        texts(list@) == seeded_user_agents(),
{
    let mut list: Vec<String> = Vec::new();
    list.push(String::from_str("curl"));
    list.push(String::from_str("python-requests"));
    list.push(String::from_str("wget"));
    list.push(String::from_str("python-urllib"));
    assert(texts(list@) =~= seeded_user_agents());
    list
}

/// The path prefixes every snapshot blocks.
fn default_path_prefixes() -> (list: Vec<String>)
    ensures
        texts(list@) == seeded_path_prefixes(),
{
    let mut list: Vec<String> = Vec::new();
    list.push(String::from_str("/.env"));
    list.push(String::from_str("/.git"));
    list.push(String::from_str("/admin"));
    list.push(String::from_str("/.aws"));
    list.push(String::from_str("/.ssh"));
    assert(texts(list@) =~= seeded_path_prefixes());
    list
}

impl View for SecurityLayer {
    type V = SnapshotView;

    open spec fn view(&self) -> SnapshotView {
        SnapshotView {
            rate_limit_per_second: self.rate_limit_per_second,
            token_key: self.token_key@,
            blocked_user_agents: texts(self.blocked_user_agents@),
            blocked_path_prefixes: texts(self.blocked_path_prefixes@),
        }
    }
}

impl SecurityLayer {
    /// Builds a snapshot with the given ceiling and secret and the seeded
    /// blocklists. The secret is used without the whitespace around it.
    pub fn new(rate_limit_per_second: u32, jwt_secret: &str) -> (layer: SecurityLayer)
        ensures
            layer@ == seeded_snapshot(rate_limit_per_second, jwt_secret@),
    {
        SecurityLayer {
            rate_limit_per_second,
            token_key: trim(jwt_secret).as_bytes_vec(),
            blocked_user_agents: default_user_agents(),
            blocked_path_prefixes: default_path_prefixes(),
        }
    }

    /// The snapshot with one more blocked user agent. Everything else stays
    /// as it was.
    pub fn with_blocked_user_agent(self, entry: &str) -> (layer: SecurityLayer)
        ensures
            layer@ == (SnapshotView {
                blocked_user_agents: self@.blocked_user_agents.push(entry@),
                ..self@
            }),
    {
        let mut layer = self;
        layer.blocked_user_agents.push(String::from_str(entry));
        assert(texts(layer.blocked_user_agents@) =~= texts(self.blocked_user_agents@).push(entry@));
        layer
    }

    /// Judges a request of `client_ip` at the instant `now` against the
    /// ceiling of this snapshot, and records it in `store` when accepted.
    pub fn check_rate_limit(&self, store: &mut RateLimitStore, client_ip: &str, now: u64) -> (r:
        Result<(), u16>)
        ensures
            r == if store_admits(old(store)@, client_ip@, now, self.rate_limit_per_second as nat) {
                Ok::<(), u16>(())
            } else {
                Err::<(), u16>(TOO_MANY_REQUESTS)
            },
            final(store)@ == store_after(
                old(store)@,
                client_ip@,
                now,
                self.rate_limit_per_second as nat,
            ),
    {
        store.check(client_ip, now, self.rate_limit_per_second as usize)
    }

    /// Judges the `User-Agent` header: absent or empty is refused, and so is
    /// any value that holds a blocked entry, compared in lowercase.
    pub fn check_user_agent(&self, user_agent: Option<&[u8]>) -> (r: Result<(), u16>)
        ensures
            r == if raw_user_agent_forbidden(
                match user_agent {
                    Some(raw) => Some(raw@),
                    None => None,
                },
                texts(self.blocked_user_agents@),
            ) {
                Err::<(), u16>(FORBIDDEN)
            } else {
                Ok::<(), u16>(())
            },
    {
        match user_agent {
            None => Err(FORBIDDEN),
            Some(raw) => {
                if raw.len() == 0 {
                    return Err(FORBIDDEN);
                }
                let lower = decode_or_empty(raw).to_lowercase();
                let lower_blocked = lowercase_all(&self.blocked_user_agents);
                judge_user_agent(lower.as_str(), &lower_blocked)
            },
        }
    }

    /// Judges the raw request path: refused when it holds `..` or when its
    /// lowercase form begins with a blocked prefix.
    pub fn check_path(&self, path: &[u8]) -> (r: Result<(), u16>)
        ensures
            r == if raw_path_forbidden(path@, texts(self.blocked_path_prefixes@)) {
                Err::<(), u16>(FORBIDDEN)
            } else {
                Ok::<(), u16>(())
            },
    {
        let text = decode_or_empty(path);
        let lower = text.to_lowercase();
        judge_path(text, lower.as_str(), &self.blocked_path_prefixes)
    }

    /// Takes the token out of an `Authorization` header. The header must be
    /// present and begin with `Bearer `; the token is everything after.
    pub fn bearer_token<'a>(auth_header: Option<&'a [u8]>) -> (r: Result<&'a str, u16>)
        ensures
            match bearer_token_of(
                match auth_header {
                    Some(raw) => Some(raw@),
                    None => None,
                },
            ) {
                Some(token) => r matches Ok(found) && found@ == token,
                None => r == Err::<&str, u16>(UNAUTHORIZED),
            },
    {
        match auth_header {
            None => Err(UNAUTHORIZED),
            Some(raw) => {
                let text = decode_or_empty(raw);
                let text_chars = chars_of(text);
                let prefix: Vec<char> = vec!['B', 'e', 'a', 'r', 'e', 'r', ' '];
                assert(prefix@ =~= bearer_prefix());
                if !starts_with(text_chars.as_slice(), prefix.as_slice()) {
                    return Err(UNAUTHORIZED);
                }
                let token = text.substring_char(7, text_chars.len());
                assert(token@ =~= text@.skip(7));
                Ok(token)
            },
        }
    }

    /// Sets the fixed security headers on a response that is about to be
    /// delivered; every other header stays as it was.
    pub fn inject_security_headers(&self, resp: &mut Vec<Header>)
        ensures
            lines(final(resp)@) == with_security_headers(lines(old(resp)@)),
    {
        set_security_headers(resp);
    }

    /// Judges the `Authorization` header, given whether the token it carries
    /// passed verification against this snapshot's key. Without a bearer
    /// token the answer is 401 whatever `token_accepted` says.
    pub fn check_jwt(&self, auth_header: Option<&[u8]>, token_accepted: bool) -> (r: Result<
        (),
        u16,
    >)
        ensures
            r == if token_accepted && bearer_token_of(
                match auth_header {
                    Some(raw) => Some(raw@),
                    None => None,
                },
            ) is Some {
                Ok::<(), u16>(())
            } else {
                Err::<(), u16>(UNAUTHORIZED)
            },
    {
        match Self::bearer_token(auth_header) {
            Err(status) => Err(status),
            Ok(_) => if token_accepted {
                Ok(())
            } else {
                Err(UNAUTHORIZED)
            },
        }
    }
}

} // verus!
