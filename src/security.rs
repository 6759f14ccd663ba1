//! Validation of user-supplied names and secrets.

use vstd::prelude::*;
use vstd::string::*;
use std::collections::HashMap;
use crate::error::Error;
use crate::outside::{
    ascii_digit, alphanumeric_char, is_alphanumeric, is_lowercase, is_numeric, is_uppercase, lowercase_char,
    new_uuid, new_uuid_simple, numeric_char, push_char, sha256, sha256_of, uppercase_char,
};
use crate::types::Timestamp;
use crate::text::{clone_strings, contains_char, contains_pair, has_pair, same};

verus! {

/// A character that may stay in a stored file name.
pub open spec fn filename_char(c: char) -> bool {
    alphanumeric_char(c) || c == '.' || c == '_' || c == '-'
}

/// `s` with every character that may not stand in a file name removed.
pub open spec fn sanitized(s: Seq<char>) -> Seq<char>
    decreases s.len(),
{
    if s.len() == 0 {
        Seq::empty()
    } else {
        let rest = sanitized(s.drop_last());
        if filename_char(s.last()) {
            rest.push(s.last())
        } else {
            rest
        }
    }
}

/// Keeps the alphanumeric characters, dots, underscores and hyphens of
/// `filename`, in order, and drops the rest.
pub fn sanitize_filename(filename: &str) -> (r: String)
    ensures
        r@ == sanitized(filename@),
{
    let n = filename.unicode_len();
    let mut out = String::new();
    let mut i: usize = 0;
    while i < n
        invariant
            n == filename@.len(),
            i <= n,
            out@ == sanitized(filename@.subrange(0, i as int)),
        decreases n - i,
    {
        let c = filename.get_char(i);
        let keep = is_alphanumeric(c) || c == '.' || c == '_' || c == '-';
        assert(filename@.subrange(0, i as int + 1).drop_last() =~= filename@.subrange(0, i as int));
        if keep {
            push_char(&mut out, c);
        }
        i = i + 1;
    }
    assert(filename@.subrange(0, n as int) =~= filename@);
    out
}

/// The characters that count as special in a password.
pub open spec fn special_chars() -> Seq<char> {
    "!@#$%^&*()_+-=[]{}|;:,.<>?"@
}

/// Why `password` is refused, or `None` when it is accepted: it must be at
/// least eight bytes long and hold an upper-case letter, a lower-case letter,
/// an ASCII digit and a special character, checked in that order.
pub open spec fn password_problem(password: &str) -> Option<Seq<char>> {
    let s = password@;
    if password.len() < 8 {
        Some("Password must be at least 8 characters long"@)
    } else if !exists|i: int| 0 <= i < s.len() && #[trigger] uppercase_char(s[i]) {
        Some("Password must contain at least one uppercase letter"@)
    } else if !exists|i: int| 0 <= i < s.len() && #[trigger] lowercase_char(s[i]) {
        Some("Password must contain at least one lowercase letter"@)
    } else if !exists|i: int| 0 <= i < s.len() && #[trigger] ascii_digit(s[i]) {
        Some("Password must contain at least one digit"@)
    } else if !exists|i: int| 0 <= i < s.len() && #[trigger] special_chars().contains(s[i]) {
        Some("Password must contain at least one special character"@)
    } else {
        None
    }
}

pub fn validate_password(password: &str) -> (r: Result<(), Error>)
    ensures
        r is Ok <==> password_problem(password) is None,
        r is Err ==> r->Err_0 is Validation && r->Err_0->Validation_0@ == password_problem(
            password,
        )->Some_0,
{
    if password.len() < 8 {
        return Err(Error::validation("Password must be at least 8 characters long"));
    }
    let n = password.unicode_len();
    let mut upper = false;
    let mut lower = false;
    let mut digit = false;
    let mut special = false;
    let mut i: usize = 0;
    while i < n
        invariant
            n == password@.len(),
            i <= n,
            upper == exists|j: int| 0 <= j < i && #[trigger] uppercase_char(password@[j]),
            lower == exists|j: int| 0 <= j < i && #[trigger] lowercase_char(password@[j]),
            digit == exists|j: int| 0 <= j < i && #[trigger] ascii_digit(password@[j]),
            special == exists|j: int|
                0 <= j < i && #[trigger] special_chars().contains(password@[j]),
        decreases n - i,
    {
        let c = password.get_char(i);
        assert(ascii_digit(password@[i as int]) == ('0' <= c && c <= '9'));
        let is_special = contains_char("!@#$%^&*()_+-=[]{}|;:,.<>?", c);
        assert(special_chars().contains(password@[i as int]) == is_special);
        if is_uppercase(c) {
            upper = true;
        }
        if is_lowercase(c) {
            lower = true;
        }
        if '0' <= c && c <= '9' {
            digit = true;
        }
        if is_special {
            special = true;
        }
        i = i + 1;
    }
    if !upper {
        return Err(Error::validation("Password must contain at least one uppercase letter"));
    }
    if !lower {
        return Err(Error::validation("Password must contain at least one lowercase letter"));
    }
    if !digit {
        return Err(Error::validation("Password must contain at least one digit"));
    }
    if !special {
        return Err(Error::validation("Password must contain at least one special character"));
    }
    Ok(())
}

/// A character that may stand in a container name.
pub open spec fn container_name_char(c: char) -> bool {
    alphanumeric_char(c) || c == '-' || c == '_'
}

/// Why `name` is refused as a container name, or `None`: it must be
/// non-empty, at most 63 bytes long, made of alphanumeric characters,
/// hyphens and underscores, and neither start nor end with a hyphen.
pub open spec fn container_name_problem(name: &str) -> Option<Seq<char>> {
    let s = name@;
    if s.len() == 0 {
        Some("Container name cannot be empty"@)
    } else if name.len() > 63 {
        Some("Container name cannot be longer than 63 characters"@)
    } else if exists|i: int| 0 <= i < s.len() && !#[trigger] container_name_char(s[i]) {
        Some(
            "Container name can only contain alphanumeric characters, hyphens, and underscores"@,
        )
    } else if s[0] == '-' || s.last() == '-' {
        Some("Container name cannot start or end with a hyphen"@)
    } else {
        None
    }
}

pub fn validate_container_name(name: &str) -> (r: Result<(), Error>)
    ensures
        r is Ok <==> container_name_problem(name) is None,
        r is Err ==> r->Err_0 is Validation && r->Err_0->Validation_0@
            == container_name_problem(name)->Some_0,
{
    if name.is_empty() {
        return Err(Error::validation("Container name cannot be empty"));
    }
    if name.len() > 63 {
        return Err(Error::validation("Container name cannot be longer than 63 characters"));
    }
    let n = name.unicode_len();
    let mut i: usize = 0;
    while i < n
        invariant
            n == name@.len(),
            n > 0,
            name.len() <= 63,
            i <= n,
            forall|j: int| 0 <= j < i ==> #[trigger] container_name_char(name@[j]),
        decreases n - i,
    {
        let c = name.get_char(i);
        let ok = is_alphanumeric(c) || c == '-' || c == '_';
        assert(container_name_char(name@[i as int]) == ok);
        if !ok {
            return Err(
                Error::validation(
                    "Container name can only contain alphanumeric characters, hyphens, and underscores",
                ),
            );
        }
        i = i + 1;
    }
    if name.get_char(0) == '-' || name.get_char(n - 1) == '-' {
        return Err(Error::validation("Container name cannot start or end with a hyphen"));
    }
    Ok(())
}

/// Why `image` is refused as an image name, or `None`: it must be
/// non-empty and hold neither `..` nor `//`.
pub open spec fn image_name_problem(image: Seq<char>) -> Option<Seq<char>> {
    if image.len() == 0 {
        Some("Image name cannot be empty"@)
    } else if has_pair(image, '.', '.') || has_pair(image, '/', '/') {
        Some("Invalid image name format"@)
    } else {
        None
    }
}

pub fn validate_image_name(image: &str) -> (r: Result<(), Error>)
    ensures
        r is Ok <==> image_name_problem(image@) is None,
        r is Err ==> r->Err_0 is Validation && r->Err_0->Validation_0@ == image_name_problem(
            image@,
        )->Some_0,
{
    if image.is_empty() {
        return Err(Error::validation("Image name cannot be empty"));
    }
    if contains_pair(image, '.', '.') || contains_pair(image, '/', '/') {
        return Err(Error::validation("Invalid image name format"));
    }
    Ok(())
}

/// A character that may stand in an environment variable name.
pub open spec fn env_name_char(c: char) -> bool {
    alphanumeric_char(c) || c == '_'
}

/// Why `key` is refused as an environment variable name, or `None`: it
/// must be non-empty, made of alphanumeric characters and underscores, and
/// not start with a numeric character.
pub open spec fn env_key_problem(key: Seq<char>) -> Option<Seq<char>> {
    if key.len() == 0 {
        Some("Environment variable name cannot be empty"@)
    } else if exists|i: int| 0 <= i < key.len() && !#[trigger] env_name_char(key[i]) {
        Some(
            "Environment variable names can only contain alphanumeric characters and underscores"@,
        )
    } else if numeric_char(key[0]) {
        Some("Environment variable names cannot start with a number"@)
    } else {
        None
    }
}

/// Checks one environment variable name.
pub fn validate_env_key(key: &str) -> (r: Result<(), Error>)
    ensures
        r is Ok <==> env_key_problem(key@) is None,
        r is Err ==> r->Err_0 is Validation && r->Err_0->Validation_0@ == env_key_problem(
            key@,
        )->Some_0,
{
    let n = key.unicode_len();
    if n == 0 {
        return Err(Error::validation("Environment variable name cannot be empty"));
    }
    let mut i: usize = 0;
    while i < n
        invariant
            n == key@.len(),
            i <= n,
            forall|j: int| 0 <= j < i ==> #[trigger] env_name_char(key@[j]),
        decreases n - i,
    {
        let c = key.get_char(i);
        let ok = is_alphanumeric(c) || c == '_';
        assert(env_name_char(key@[i as int]) == ok);
        if !ok {
            return Err(
                Error::validation(
                    "Environment variable names can only contain alphanumeric characters and underscores",
                ),
            );
        }
        i = i + 1;
    }
    if is_numeric(key.get_char(0)) {
        return Err(Error::validation("Environment variable names cannot start with a number"));
    }
    Ok(())
}

/// Checks the names of `entries` in order and reports the first refusal.
pub fn validate_env_entries(entries: &Vec<(String, String)>) -> (r: Result<(), Error>)
    ensures
        r is Ok <==> forall|i: int|
            0 <= i < entries@.len() ==> #[trigger] env_key_problem(entries@[i].0@) is None,
        r is Err ==> exists|i: int|
            0 <= i < entries@.len() && (forall|j: int|
                0 <= j < i ==> #[trigger] env_key_problem(entries@[j].0@) is None)
                && env_key_problem(entries@[i].0@) is Some && r->Err_0 is Validation
                && r->Err_0->Validation_0@ == env_key_problem(entries@[i].0@)->Some_0,
{
    let mut i: usize = 0;
    while i < entries.len()
        invariant
            i <= entries@.len(),
            forall|j: int| 0 <= j < i ==> #[trigger] env_key_problem(entries@[j].0@) is None,
        decreases entries.len() - i,
    {
        let res = validate_env_key(entries[i].0.as_str());
        if res.is_err() {
            return res;
        }
        i = i + 1;
    }
    Ok(())
}

/// Checks the names of an environment: it is accepted exactly when every
/// name is, and otherwise the error is the refusal of one of its names.
pub fn validate_environment_variables(env: &HashMap<String, String>) -> (r: Result<(), Error>)
    ensures
        r is Ok <==> forall|k: String| #[trigger] env@.contains_key(k) ==> env_key_problem(k@) is None,
        r is Err ==> exists|k: String|
            #[trigger] env@.contains_key(k) && env_key_problem(k@) is Some && r->Err_0 is Validation
                && r->Err_0->Validation_0@ == env_key_problem(k@)->Some_0,
{
    let entries = crate::outside::map_entries(env);
    let r = validate_env_entries(&entries);
    if r.is_ok() {
        assert forall|k: String| #[trigger] env@.contains_key(k) implies env_key_problem(k@) is None by {
            let i = choose|i: int| 0 <= i < entries@.len() && #[trigger] entries@[i].0@ == k@;
            assert(env_key_problem(entries@[i].0@) is None);
        }
    } else {
        proof {
            let i = choose|i: int|
                0 <= i < entries@.len() && (forall|j: int|
                    0 <= j < i ==> #[trigger] env_key_problem(entries@[j].0@) is None)
                    && env_key_problem(entries@[i].0@) is Some && r->Err_0 is Validation
                    && r->Err_0->Validation_0@ == env_key_problem(entries@[i].0@)->Some_0;
            let k = choose|k: String| #[trigger] env@.contains_key(k) && k@ == entries@[i].0@;
            assert(env@.contains_key(k));
        }
    }
    r
}

/// The lower-case hex digit for `d`, which is below sixteen.
pub open spec fn hex_digit(d: nat) -> char {
    if d < 10 {
        ((48 + d) as u8) as char
    } else {
        ((87 + d) as u8) as char
    }
}

/// Each byte of `b` as two lower-case hex digits, high digit first.
pub open spec fn hex_lower(b: Seq<u8>) -> Seq<char>
    decreases b.len(),
{
    if b.len() == 0 {
        Seq::empty()
    } else {
        hex_lower(b.drop_last()) + seq![
            hex_digit((b.last() / 16) as nat),
            hex_digit((b.last() % 16) as nat),
        ]
    }
}

fn hex_char(d: u8) -> (r: char)
    requires
        d < 16,
    ensures
        r == hex_digit(d as nat),
{
    if d < 10 {
        ((48 + d) as u8) as char
    } else {
        ((87 + d) as u8) as char
    }
}

/// Writes `b` in lower-case hex.
pub fn to_hex(b: &[u8]) -> (r: String)
    ensures
        r@ == hex_lower(b@),
{
    let mut s = String::new();
    let mut i: usize = 0;
    while i < b.len()
        invariant
            i <= b@.len(),
            s@ == hex_lower(b@.subrange(0, i as int)),
        decreases b.len() - i,
    {
        let x = b[i];
        push_char(&mut s, hex_char(x / 16));
        push_char(&mut s, hex_char(x % 16));
        assert(b@.subrange(0, i as int + 1).drop_last() =~= b@.subrange(0, i as int));
        assert(s@ =~= hex_lower(b@.subrange(0, i as int + 1)));
        i = i + 1;
    }
    assert(b@.subrange(0, b@.len() as int) =~= b@);
    s
}

/// The stored form of an API key: the hex SHA-256 digest of its UTF-8 bytes.
pub fn hash_api_key(key: &str) -> (r: String)
    ensures
        r@ == hex_lower(sha256_of(key.spec_bytes())),
        r@.len() == 64,
{
    let digest = sha256(key.as_bytes());
    let r = to_hex(digest.as_slice());
    proof {
        lemma_hex_len(digest@);
    }
    r
}

proof fn lemma_hex_len(b: Seq<u8>)
    ensures
        hex_lower(b).len() == 2 * b.len(),
    decreases b.len(),
{
    if b.len() > 0 {
        lemma_hex_len(b.drop_last());
    }
}

/// A fresh API key: `cc_` followed by 32 random hex digits.
pub fn generate_api_key() -> (r: String)
    ensures
        r@.len() == 35,
        r@.subrange(0, 3) == "cc_"@,
{
    let id = new_uuid_simple();
    let mut s = String::from_str("cc_");
    s.append(id.as_str());
    proof {
        reveal_strlit("cc_");
        assert(s@.subrange(0, 3) =~= "cc_"@);
    }
    s
}

/// A stored API key.
#[derive(Debug, Clone)]
pub struct ApiKey {
    pub id: String,
    pub name: String,
    pub key_hash: String,
    pub permissions: Vec<String>,
    pub created_at: Timestamp,
    pub expires_at: Option<Timestamp>,
    pub last_used: Option<Timestamp>,
    pub is_active: bool,
}

/// The claims of a session token.
#[derive(Debug, Clone)]
pub struct JwtClaims {
    pub sub: String,
    pub iat: i64,
    pub exp: i64,
    pub permissions: Vec<String>,
    pub session_id: String,
}

/// Who is acting in a request, and with which permissions.
#[derive(Debug, Clone)]
pub struct SecurityContext {
    pub user_id: Option<String>,
    pub session_id: Option<String>,
    pub permissions: Vec<String>,
    pub api_key_id: Option<String>,
    pub request_id: String,
}

/// Whether `perms` grants `permission`: it holds it, or it holds `admin`.
pub open spec fn grants(perms: Seq<String>, permission: Seq<char>) -> bool {
    exists|i: int| 0 <= i < perms.len() && (#[trigger] perms[i]@ == permission || perms[i]@ == "admin"@)
}

impl SecurityContext {
    /// An anonymous context without permissions, with a fresh request id.
    pub fn new() -> (r: Self)
        ensures
            r.user_id.is_none(),
            r.session_id.is_none(),
            r.permissions@.len() == 0,
            r.api_key_id.is_none(),
            r.request_id@.len() == 36,
    {
        SecurityContext {
            user_id: None,
            session_id: None,
            permissions: Vec::new(),
            api_key_id: None,
            request_id: new_uuid(),
        }
    }

    /// The context of a request authenticated by `api_key`.
    pub fn with_api_key(api_key: &ApiKey) -> (r: Self)
        ensures
            r.user_id.is_none(),
            r.session_id.is_none(),
            r.permissions@ == api_key.permissions@,
            r.api_key_id == Some(api_key.id),
            r.request_id@.len() == 36,
    {
        SecurityContext {
            user_id: None,
            session_id: None,
            permissions: clone_strings(&api_key.permissions),
            api_key_id: Some(api_key.id.clone()),
            request_id: new_uuid(),
        }
    }

    /// The context of a request authenticated by a session token.
    pub fn with_jwt(claims: &JwtClaims) -> (r: Self)
        ensures
            r.user_id == Some(claims.sub),
            r.session_id == Some(claims.session_id),
            r.permissions@ == claims.permissions@,
            r.api_key_id.is_none(),
            r.request_id@.len() == 36,
    {
        SecurityContext {
            user_id: Some(claims.sub.clone()),
            session_id: Some(claims.session_id.clone()),
            permissions: clone_strings(&claims.permissions),
            api_key_id: None,
            request_id: new_uuid(),
        }
    }

    pub fn has_permission(&self, permission: &str) -> (r: bool)
        ensures
            r == grants(self.permissions@, permission@),
    {
        let mut i: usize = 0;
        while i < self.permissions.len()
            invariant
                i <= self.permissions@.len(),
                forall|j: int|
                    0 <= j < i ==> !(#[trigger] self.permissions@[j]@ == permission@
                        || self.permissions@[j]@ == "admin"@),
            decreases self.permissions.len() - i,
        {
            let p = self.permissions[i].as_str();
            if same(p, permission) || same(p, "admin") {
                return true;
            }
            i = i + 1;
        }
        false
    }

    /// Succeeds when the context grants `permission`, and otherwise fails
    /// with an authentication error that names it.
    pub fn require_permission(&self, permission: &str) -> (r: Result<(), Error>)
        ensures
            r is Ok <==> grants(self.permissions@, permission@),
            r is Err ==> r->Err_0 is Auth && r->Err_0->Auth_0@ == "Permission '"@ + permission@
                + "' required"@,
    {
        if self.has_permission(permission) {
            Ok(())
        } else {
            let mut m = String::from_str("Permission '");
            m.append(permission);
            m.append("' required");
            Err(Error::Auth(m))
        }
    }
}

impl Default for SecurityContext {
    fn default() -> (r: Self)
        ensures
            r.user_id.is_none(),
            r.session_id.is_none(),
            r.permissions@.len() == 0,
            r.api_key_id.is_none(),
    {
        Self::new()
    }
}

} // verus!
