//! Identity and moderation: per-thread pseudonyms, tripcodes, moderator
//! password checks and the ban list.

use vstd::prelude::*;
use vstd::string::{StrSliceExecFns, StringExecFns};
use vstd::utf8::encode_utf8;
use crate::digest::{
    base64_encode, base64_standard, hex_encode, hex_lower, is_hex_lower_char, lemma_hex_lower_shape,
    sha256, sha256_digest,
};
use crate::error::AppError;
use crate::ident::now_micros;
use crate::models::Ban;
use crate::net::{parse_ip, parse_network, read_ip, read_network};
use crate::text::{chars_of, same_chars};

verus! {

/// Number of characters in a per-thread pseudonym.
pub const THREAD_ID_LEN: usize = 8;

/// Number of Base64 characters in a tripcode, after the leading `!`.
pub const TRIPCODE_LEN: usize = 10;

/// Whether `text` parses as a PHC password-hash string, as
/// `PasswordHash::new` of the `password-hash` crate decides it.
pub uninterp spec fn phc_well_formed(text: Seq<char>) -> bool;

/// Whether Argon2 verification of `password` against the PHC string `hash`
/// succeeds, as `Argon2::verify_password` decides it.
pub uninterp spec fn argon2_accepts(password: Seq<u8>, hash: Seq<char>) -> bool;

/// The pseudonym of a client in a thread: the first eight hex digits of
/// `SHA-256(secret ‖ address ‖ thread)`.
pub open spec fn thread_id_for(secret: Seq<char>, ip: Seq<char>, thread_id: Seq<char>) -> Seq<
    char,
> {
    hex_lower(sha256(encode_utf8(secret) + encode_utf8(ip) + encode_utf8(thread_id))).subrange(
        0,
        THREAD_ID_LEN as int,
    )
}

/// The tripcode of a password: `!` and the first ten Base64 characters of
/// its SHA-256 digest.
pub open spec fn tripcode_for(password: Seq<char>) -> Seq<char> {
    seq!['!'] + base64_standard(sha256(encode_utf8(password))).subrange(0, TRIPCODE_LEN as int)
}

/// Whether `password` passes against the stored hash: the hash is a PHC
/// string and Argon2 accepts the password for it.
pub open spec fn admin_password_ok(password: Seq<char>, hash: Seq<char>) -> bool {
    phc_well_formed(hash) && argon2_accepts(encode_utf8(password), hash)
}

/// Whether the ban entry `entry` covers the client address `addr`: the two
/// texts are the same, or the entry names a network that holds the address.
pub open spec fn ban_covers(entry: Seq<char>, addr: Seq<char>) -> bool {
    entry == addr || (parse_network(entry) is Some && parse_ip(addr) is Some && parse_network(
        entry,
    )->0.spec_contains(parse_ip(addr)->0))
}

/// Whether a ban is in force at time `now`: it never expires, or it expires
/// no earlier than `now`.
pub open spec fn ban_active(expires_at: Option<i64>, now: i64) -> bool {
    match expires_at {
        None => true,
        Some(t) => t >= now,
    }
}

/// Whether some ban of the list is in force at `now` and covers `addr`.
pub open spec fn banned_by(bans: Seq<Ban>, addr: Seq<char>, now: i64) -> bool {
    exists|i: int|
        0 <= i < bans.len() && ban_active((#[trigger] bans[i]).expires_at, now) && ban_covers(
            bans[i].ip_address@,
            addr,
        )
}

/// `PasswordHash::new`: tells whether the text can be parsed as a PHC
/// string.
#[verifier::external_body]
fn phc_parses(hash: &str) -> (ok: bool)
    ensures
        ok == phc_well_formed(hash@),
{
    argon2::password_hash::PasswordHash::new(hash).is_ok()
}

/// `verify_password` of the default `Argon2` context on a PHC string that
/// parses: recomputes the hash with the parameters and salt of `hash` and
/// compares.
#[verifier::external_body]
fn argon2_verify(password: &[u8], hash: &str) -> (ok: bool)
    requires
        phc_well_formed(hash@),
    ensures
        ok == argon2_accepts(password@, hash@),
{
    match argon2::password_hash::PasswordHash::new(hash) {
        Ok(parsed) => argon2::password_hash::PasswordVerifier::verify_password(
            &argon2::Argon2::default(),
            password,
            &parsed,
        ).is_ok(),
        Err(_) => false,
    }
}

/// The identity and moderation interface.
pub trait AuthProvider {
    /// The pseudonym that this provider gives a client in a thread.
    spec fn spec_thread_id(&self, ip: Seq<char>, thread_id: Seq<char>) -> Seq<char>;

    /// Whether this provider holds `ip` banned at time `now`.
    spec fn spec_banned(&self, ip: Seq<char>, now: i64) -> bool;

    /// The pseudonym of a client within one thread: eight characters, the
    /// same for the same client and thread as long as the provider lives.
    fn generate_thread_id(&self, ip: &str, thread_id: &str) -> (id: String)
        ensures
            id@ == self.spec_thread_id(ip@, thread_id@),
            id@.len() == THREAD_ID_LEN,
    ;

    /// The public pseudonym that a password stands for: `!` and ten
    /// characters, the same for the same password whoever asks.
    fn generate_tripcode(&self, password: &str) -> (trip: String)
        ensures
            trip@ == tripcode_for(password@),
            trip@.len() == TRIPCODE_LEN + 1,
    ;

    /// Checks a moderator's password against a stored Argon2 hash.
    fn verify_admin_password(&self, password: &str, hash: &str) -> (ok: bool)
        ensures
            ok == admin_password_ok(password@, hash@),
    ;

    /// Tells whether the client address is banned right now.
    fn check_ban(&self, ip: &str) -> (r: Result<bool, AppError>)
        ensures
            r matches Ok(banned) ==> exists|now: i64| banned == self.spec_banned(ip@, now),
    ;
}

/// The built-in provider: a session secret for pseudonyms and a ban list
/// held in memory.
pub struct SimpleAuthProvider {
    /// Mixed into every pseudonym; a new secret gives new pseudonyms.
    session_salt: String,
    bans: Vec<Ban>,
}

impl SimpleAuthProvider {
    /// The session secret.
    pub closed spec fn salt(&self) -> Seq<char> {
        self.session_salt@
    }

    /// The ban list.
    pub closed spec fn ban_list(&self) -> Seq<Ban> {
        self.bans@
    }

    /// A provider with the given session secret and no bans.
    pub fn new(salt: &str) -> (provider: Self)
        ensures
            provider.salt() == salt@,
            provider.ban_list() == Seq::<Ban>::empty(),
    {
        SimpleAuthProvider { session_salt: String::from_str(salt), bans: Vec::new() }
    }

    /// Adds a ban to the list.
    pub fn add_ban(&mut self, ban: Ban)
        ensures
            final(self).salt() == old(self).salt(),
            final(self).ban_list() == old(self).ban_list().push(ban),
    {
        self.bans.push(ban);
    }

    /// Tells whether `ip` is banned at time `now`: some ban that has not
    /// expired names this address or a network that holds it.
    pub fn is_banned_at(&self, ip: &str, now: i64) -> (banned: bool)
        ensures
            banned == banned_by(self.ban_list(), ip@, now),
    {
        let addr = chars_of(ip);
        let parsed = read_ip(addr.as_slice());
        let mut i: usize = 0;
        while i < self.bans.len()
            invariant
                i <= self.bans.len(),
                addr@ == ip@,
                parsed == parse_ip(ip@),
                forall|j: int|
                    0 <= j < i ==> !(ban_active((#[trigger] self.bans@[j]).expires_at, now)
                        && ban_covers(self.bans@[j].ip_address@, ip@)),
            decreases self.bans.len() - i,
        {
            let ban = &self.bans[i];
            let active = match ban.expires_at {
                None => true,
                Some(t) => t >= now,
            };
            if active {
                let entry = chars_of(ban.ip_address.as_str());
                if same_chars(entry.as_slice(), addr.as_slice()) {
                    return true;
                }
                let net = read_network(entry.as_slice());
                match (net, parsed) {
                    (Some(net), Some(a)) => {
                        if net.contains(a) {
                            return true;
                        }
                    },
                    _ => {},
                }
            }
            i = i + 1;
        }
        false
    }
}

impl AuthProvider for SimpleAuthProvider {
    open spec fn spec_thread_id(&self, ip: Seq<char>, thread_id: Seq<char>) -> Seq<char> {
        thread_id_for(self.salt(), ip, thread_id)
    }

    open spec fn spec_banned(&self, ip: Seq<char>, now: i64) -> bool {
        banned_by(self.ban_list(), ip, now)
    }

    fn generate_thread_id(&self, ip: &str, thread_id: &str) -> (id: String)
        ensures
            forall|i: int| 0 <= i < id@.len() ==> is_hex_lower_char(#[trigger] id@[i]),
    {
        let mut material: Vec<u8> = Vec::new();
        material.extend_from_slice(self.session_salt.as_str().as_bytes());
        material.extend_from_slice(ip.as_bytes());
        material.extend_from_slice(thread_id.as_bytes());
        assert(material@ =~= encode_utf8(self.salt()) + encode_utf8(ip@) + encode_utf8(
            thread_id@,
        ));
        let digest = sha256_digest(material.as_slice());
        let hash = hex_encode(digest.as_slice());
        proof {
            lemma_hex_lower_shape(digest@);
        }
        String::from_str(hash.as_str().substring_char(0, THREAD_ID_LEN))
    }

    fn generate_tripcode(&self, password: &str) -> (trip: String) {
        let digest = sha256_digest(password.as_bytes());
        let encoded = base64_encode(digest.as_slice());
        proof {
            reveal_strlit("!");
            assert("!"@ =~= seq!['!']);
        }
        String::from_str("!").concat(encoded.as_str().substring_char(0, TRIPCODE_LEN))
    }

    fn verify_admin_password(&self, password: &str, hash: &str) -> (ok: bool) {
        if !phc_parses(hash) {
            return false;
        }
        argon2_verify(password.as_bytes(), hash)
    }

    fn check_ban(&self, ip: &str) -> (r: Result<bool, AppError>)
        ensures
            r is Ok,
    {
        let now = now_micros();
        let banned = self.is_banned_at(ip, now);
        assert(banned == self.spec_banned(ip@, now));
        Ok(banned)
    }
}

} // verus!
