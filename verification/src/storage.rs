//! The secret store: durable custody of settings (optionally
//! authenticated-encrypted under one master key), the single administrator
//! identity, and an append-only event log, all kept in one embedded
//! relational database.

use vstd::prelude::*;

use aes_gcm::aead::{Aead, KeyInit};
use base64::Engine;
use rusqlite::OptionalExtension;
use vstd::math::min;
use vstd::string::StrSliceExecFns;
use vstd::string::StringExecFns;

verus! {

/// The database handle of the embedded relational store.
#[verifier::external_type_specification]
#[verifier::external_body]
pub struct ExConnection(rusqlite::Connection);

/// The settings held by the database: key to stored text and
/// encrypted-flag.
pub uninterp spec fn db_settings(conn: rusqlite::Connection) -> Map<Seq<char>, (Seq<char>, bool)>;

/// The administrator registered in the database, if any.
pub uninterp spec fn db_admin(conn: rusqlite::Connection) -> Option<u64>;

/// The event messages held by the database, in insertion order.
pub uninterp spec fn db_history(conn: rusqlite::Connection) -> Seq<Seq<char>>;

/// What AES-256-GCM sealing returns for this key, nonce and plaintext.
pub uninterp spec fn aead_seal(key: Seq<u8>, nonce: Seq<u8>, plaintext: Seq<u8>) -> Seq<u8>;

/// What AES-256-GCM opening returns for this key, nonce and ciphertext:
/// the sealed plaintext, or nothing where the tag does not verify.
pub uninterp spec fn aead_open(key: Seq<u8>, nonce: Seq<u8>, ciphertext: Seq<u8>) -> Option<
    Seq<u8>,
>;

/// The standard-alphabet base64 rendering of these bytes.
pub uninterp spec fn b64_of(bytes: Seq<u8>) -> Seq<char>;

/// What standard-alphabet base64 decoding returns for this text: bytes, or
/// nothing where the text is not a base64 rendering.
pub uninterp spec fn b64_decode(text: Seq<char>) -> Option<Seq<u8>>;

/// A settings table holding nothing.
pub open spec fn no_settings() -> Map<Seq<char>, (Seq<char>, bool)> {
    Map::empty()
}

/// Relies on rand::random: twelve fresh random bytes for an AEAD nonce;
/// nothing is promised of their value.
#[verifier::external_body]
fn random_nonce() -> (r: Vec<u8>)
    ensures
        r@.len() == 12,
{
    rand::random::<[u8; 12]>().to_vec()
}

/// Relies on aes_gcm::Aes256Gcm (through aead::Aead::encrypt): sealing is a
/// function of key, nonce and plaintext alone; it appends a 16-byte tag,
/// succeeds for every plaintext below the cipher's length limit, and what
/// it seals, opening under the same key and nonce gives back.
#[verifier::external_body]
fn aead_seal_bytes(key: &Vec<u8>, nonce: &Vec<u8>, plaintext: &Vec<u8>) -> (r: Option<Vec<u8>>)
    requires
        key@.len() == 32,
        nonce@.len() == 12,
    ensures
        r matches Some(ct) ==> ct@ == aead_seal(key@, nonce@, plaintext@) && ct@.len()
            == plaintext@.len() + 16 && aead_open(key@, nonce@, ct@) == Some(plaintext@),
        plaintext@.len() < 0x1000000000 ==> r is Some,
{
    let cipher = aes_gcm::Aes256Gcm::new_from_slice(key.as_slice()).unwrap();
    let nonce = aes_gcm::Nonce::from_slice(nonce.as_slice());
    cipher.encrypt(nonce, plaintext.as_slice()).ok()
}

/// Relies on aes_gcm::Aes256Gcm (through aead::Aead::decrypt): opening is a
/// function of key, nonce and ciphertext alone, and fails exactly where the
/// authentication tag does not verify.
#[verifier::external_body]
fn aead_open_bytes(key: &Vec<u8>, nonce: &Vec<u8>, ciphertext: &Vec<u8>) -> (r: Option<Vec<u8>>)
    requires
        key@.len() == 32,
        nonce@.len() == 12,
    ensures
        r matches Some(pt) ==> aead_open(key@, nonce@, ciphertext@) == Some(pt@),
        r is None ==> aead_open(key@, nonce@, ciphertext@) is None,
{
    let cipher = aes_gcm::Aes256Gcm::new_from_slice(key.as_slice()).unwrap();
    let nonce = aes_gcm::Nonce::from_slice(nonce.as_slice());
    cipher.decrypt(nonce, ciphertext.as_slice()).ok()
}

/// Relies on base64's standard-alphabet engine: encoding is a function of
/// the bytes alone, and decoding gives the bytes back.
#[verifier::external_body]
fn b64_encode_bytes(bytes: &Vec<u8>) -> (r: String)
    requires
        bytes@.len() <= usize::MAX / 4,
    ensures
        r@ == b64_of(bytes@),
        b64_decode(r@) == Some(bytes@),
{
    base64::prelude::BASE64_STANDARD.encode(bytes.as_slice())
}

/// Relies on base64's standard-alphabet engine: decoding is a function of
/// the text alone; it fails exactly on text that is no base64 rendering.
#[verifier::external_body]
fn b64_decode_str(text: &str) -> (r: Option<Vec<u8>>)
    ensures
        r matches Some(b) ==> b64_decode(text@) == Some(b@),
        r is None ==> b64_decode(text@) is None,
{
    base64::prelude::BASE64_STANDARD.decode(text).ok()
}

/// Relies on String::from_utf8: it succeeds exactly on valid UTF-8 and
/// returns the decoded characters.
#[verifier::external_body]
fn string_from_utf8(bytes: Vec<u8>) -> (r: Option<String>)
    ensures
        r matches Some(s) ==> vstd::utf8::valid_utf8(bytes@) && s@ == vstd::utf8::decode_utf8(
            bytes@,
        ),
        r is None ==> !vstd::utf8::valid_utf8(bytes@),
{
    String::from_utf8(bytes).ok()
}

/// Relies on rusqlite::Connection::open: opens or creates the database
/// file at this path.
#[verifier::external_body]
fn conn_open(path: &str) -> (r: Option<rusqlite::Connection>)
{
    rusqlite::Connection::open(path).ok()
}

/// Relies on rusqlite::Connection::open_in_memory: a fresh in-memory
/// database holding nothing.
#[verifier::external_body]
fn conn_open_in_memory() -> (r: Option<rusqlite::Connection>)
    ensures
        r matches Some(conn) ==> db_settings(conn) == no_settings(),
        r matches Some(conn) ==> db_admin(conn) is None,
        r matches Some(conn) ==> db_history(conn) == Seq::<Seq<char>>::empty(),
{
    rusqlite::Connection::open_in_memory().ok()
}

/// Relies on rusqlite::Connection::execute running CREATE TABLE IF NOT
/// EXISTS statements: they create the three tables where missing and touch
/// no stored row, whether they succeed or fail.
#[verifier::external_body]
fn sql_setup(conn: &mut rusqlite::Connection) -> (r: Result<(), ()>)
    ensures
        db_settings(*final(conn)) == db_settings(*old(conn)),
        db_admin(*final(conn)) == db_admin(*old(conn)),
        db_history(*final(conn)) == db_history(*old(conn)),
{
    let r1 = conn.execute(
        "CREATE TABLE IF NOT EXISTS settings (id INTEGER PRIMARY KEY, key TEXT UNIQUE, value TEXT, is_encrypted INTEGER DEFAULT 0)",
        (),
    );
    let r2 = conn.execute(
        "CREATE TABLE IF NOT EXISTS users (id INTEGER PRIMARY KEY, telegram_id INTEGER UNIQUE, is_admin INTEGER DEFAULT 0)",
        (),
    );
    let r3 = conn.execute(
        "CREATE TABLE IF NOT EXISTS history (id INTEGER PRIMARY KEY, timestamp DATETIME DEFAULT CURRENT_TIMESTAMP, event TEXT)",
        (),
    );
    if r1.is_ok() && r2.is_ok() && r3.is_ok() { Ok(()) } else { Err(()) }
}

/// Relies on rusqlite::Connection::execute running INSERT OR REPLACE on the
/// uniquely-keyed settings table: on success the key maps to exactly this
/// text and flag and no other row moves; a failed statement changes
/// nothing.
#[verifier::external_body]
fn sql_set_setting(
    conn: &mut rusqlite::Connection,
    key: &str,
    value: &str,
    encrypted: bool,
) -> (r: Result<(), ()>)
    ensures
        r is Ok ==> db_settings(*final(conn)) == db_settings(*old(conn)).insert(
            key@,
            (value@, encrypted),
        ),
        r is Err ==> db_settings(*final(conn)) == db_settings(*old(conn)),
        db_admin(*final(conn)) == db_admin(*old(conn)),
        db_history(*final(conn)) == db_history(*old(conn)),
{
    let flag: i64 = if encrypted { 1 } else { 0 };
    match conn.execute(
        "INSERT OR REPLACE INTO settings (key, value, is_encrypted) VALUES (?1, ?2, ?3)",
        (key, value, flag),
    ) {
        Ok(_) => Ok(()),
        Err(_) => Err(()),
    }
}

/// Relies on rusqlite::Connection::query_row on the settings table: on
/// success it returns the stored text and flag at the key, or nothing where
/// no row has the key.
#[verifier::external_body]
fn sql_get_setting(conn: &rusqlite::Connection, key: &str) -> (r: Result<
    Option<(String, bool)>,
    (),
>)
    ensures
        r matches Ok(Some((v, e))) ==> db_settings(*conn).contains_key(key@) && db_settings(
            *conn,
        )[key@] == (v@, e),
        r matches Ok(None) ==> !db_settings(*conn).contains_key(key@),
{
    conn.query_row("SELECT value, is_encrypted FROM settings WHERE key = ?1", (key,), |row| {
        let v: String = row.get(0)?;
        let e: i64 = row.get(1)?;
        Ok((v, e == 1))
    }).optional().map_err(|_| ())
}

/// Relies on rusqlite::Connection::query_row on the users table: returns
/// the registered administrator, if any.
#[verifier::external_body]
fn sql_get_admin(conn: &rusqlite::Connection) -> (r: Result<Option<u64>, ()>)
    ensures
        r matches Ok(a) ==> a == db_admin(*conn),
{
    conn.query_row("SELECT telegram_id FROM users WHERE is_admin = 1 LIMIT 1", (), |row| {
        let id: i64 = row.get(0)?;
        Ok(id as u64)
    }).optional().map_err(|_| ())
}

/// Relies on rusqlite::Connection::execute inserting into the users table
/// while it holds no administrator row: on success this identity is the
/// registered administrator. A plain INSERT is used so that a conflicting
/// pre-existing row (one with this identity but no administrator flag)
/// surfaces as a failure; a failed statement changes nothing.
#[verifier::external_body]
fn sql_insert_admin(conn: &mut rusqlite::Connection, telegram_id: u64) -> (r: Result<(), ()>)
    requires
        db_admin(*old(conn)) is None,
    ensures
        r is Ok ==> db_admin(*final(conn)) == Some(telegram_id),
        r is Err ==> db_admin(*final(conn)) == db_admin(*old(conn)),
        db_settings(*final(conn)) == db_settings(*old(conn)),
        db_history(*final(conn)) == db_history(*old(conn)),
{
    match conn.execute(
        "INSERT INTO users (telegram_id, is_admin) VALUES (?1, 1)",
        (telegram_id as i64,),
    ) {
        Ok(_) => Ok(()),
        Err(_) => Err(()),
    }
}

/// Relies on rusqlite::Connection::execute inserting into the append-only
/// history table: on success the message is appended, with a
/// server-assigned timestamp; a failed statement changes nothing.
#[verifier::external_body]
fn sql_insert_event(conn: &mut rusqlite::Connection, message: &str) -> (r: Result<(), ()>)
    ensures
        r is Ok ==> db_history(*final(conn)) == db_history(*old(conn)).push(message@),
        r is Err ==> db_history(*final(conn)) == db_history(*old(conn)),
        db_settings(*final(conn)) == db_settings(*old(conn)),
        db_admin(*final(conn)) == db_admin(*old(conn)),
{
    match conn.execute("INSERT INTO history (event) VALUES (?1)", (message,)) {
        Ok(_) => Ok(()),
        Err(_) => Err(()),
    }
}

/// Relies on a rusqlite prepared query reading the history table newest
/// first under a LIMIT: on success it returns up to `limit` rows, most
/// recent first, each the stored timestamp text and the logged message.
#[verifier::external_body]
fn sql_recent_history(conn: &rusqlite::Connection, limit: u32) -> (r: Result<
    Vec<(String, String)>,
    (),
>)
    ensures
        r matches Ok(rows) ==> rows@.len() == min(limit as int, db_history(*conn).len() as int)
            && (forall|i: int|
            0 <= i < rows@.len() ==> rows@[i].1@ == db_history(*conn)[db_history(*conn).len() - 1
                - i]),
{
    let mut stmt = conn.prepare("SELECT timestamp, event FROM history ORDER BY id DESC LIMIT ?1")
        .map_err(|_| ())?;
    let rows = stmt.query_map((limit,), |row| {
        Ok((row.get::<_, String>(0)?, row.get::<_, String>(1)?))
    }).map_err(|_| ())?;
    let mut out = Vec::new();
    for row in rows {
        out.push(row.map_err(|_| ())?);
    }
    Ok(out)
}

/// Why a store operation failed.
#[derive(Clone, Copy, PartialEq, Eq, Structural, Debug)]
pub enum StoreError {
    /// The underlying database reported a failure.
    Sql,
    /// Sealing failed or the plaintext is beyond the cipher's limit.
    Encryption,
    /// The blob is tampered with, truncated, or sealed under another key.
    Decryption,
    /// A decrypted setting does not hold text.
    InvalidText,
}

/// What opening a blob under this key yields: the blob is base64 text
/// holding a 12-byte nonce followed by the sealed bytes.
pub open spec fn spec_decrypt(key: Seq<u8>, blob: Seq<char>) -> Option<Seq<u8>> {
    match b64_decode(blob) {
        Option::None => Option::None,
        Option::Some(combined) => if combined.len() < 12 {
            Option::None
        } else {
            aead_open(key, combined.take(12), combined.skip(12))
        },
    }
}

/// Whether `blob` is a well-formed sealed container for `data` under
/// `key`: base64 text that decodes to a fresh 12-byte nonce followed by
/// exactly the bytes AES-256-GCM sealing gives for that nonce and `data`,
/// which carry a 16-byte tag, so the decoded blob is 28 bytes longer than
/// `data`.
pub open spec fn spec_sealed_blob(key: Seq<u8>, blob: Seq<char>, data: Seq<u8>) -> bool {
    exists|nonce: Seq<u8>|
        #![auto]
        nonce.len() == 12 && b64_decode(blob) == Some(nonce + aead_seal(key, nonce, data))
            && aead_seal(key, nonce, data).len() == data.len() + 16
}

/// The plain text a stored settings entry holds under this key: the stored
/// text itself where it is not encrypted, else the decrypted text, or
/// nothing where decryption or text decoding fails.
pub open spec fn spec_setting_plain(key: Seq<u8>, entry: (Seq<char>, bool)) -> Option<Seq<char>> {
    if !entry.1 {
        Option::Some(entry.0)
    } else {
        match spec_decrypt(key, entry.0) {
            Option::None => Option::None,
            Option::Some(bytes) => if vstd::utf8::valid_utf8(bytes) {
                Option::Some(vstd::utf8::decode_utf8(bytes))
            } else {
                Option::None
            },
        }
    }
}

/// Whether `line` renders `message` as one history row: the stored
/// timestamp (whatever the store assigned) in brackets, then the message.
pub open spec fn spec_history_line(line: Seq<char>, message: Seq<char>) -> bool {
    exists|ts: Seq<char>| line == seq!['['] + ts + seq![']', ' '] + message
}

/// The administrator registered after one registration request:
/// first-writer-wins, a later identity never displaces an earlier one.
pub open spec fn spec_admin_after(cur: Option<u64>, id: u64) -> Option<u64> {
    if cur is Some {
        cur
    } else {
        Option::Some(id)
    }
}

/// The durable, authenticated-encrypted store.
pub struct Storage {
    conn: rusqlite::Connection,
    key: Vec<u8>,
}

impl Storage {
    /// The master key's bytes.
    pub closed spec fn key_bytes(self) -> Seq<u8> {
        self.key@
    }

    /// The settings the store holds: key to stored text and encrypted-flag.
    pub closed spec fn settings(self) -> Map<Seq<char>, (Seq<char>, bool)> {
        db_settings(self.conn)
    }

    /// The registered administrator, if any.
    pub closed spec fn admin(self) -> Option<u64> {
        db_admin(self.conn)
    }

    /// The logged event messages, in insertion order.
    pub closed spec fn history(self) -> Seq<Seq<char>> {
        db_history(self.conn)
    }

    /// Well-formedness: the master key has the cipher's key length.
    pub closed spec fn wf(self) -> bool {
        self.key@.len() == 32
    }

    /// Open (or create) the store's database at this path, with custody
    /// under the given 32-byte master key.
    pub fn open(key: Vec<u8>, db_path: &str) -> (r: Result<Storage, StoreError>)
        requires
            key@.len() == 32,
        ensures
            r matches Ok(s) ==> s.wf() && s.key_bytes() == key@,
    {
        match conn_open(db_path) {
            None => Err(StoreError::Sql),
            Some(mut conn) => match sql_setup(&mut conn) {
                Ok(()) => Ok(Storage { conn, key }),
                Err(()) => Err(StoreError::Sql),
            },
        }
    }

    /// Open a fresh store holding nothing, kept in memory only.
    pub fn open_in_memory(key: Vec<u8>) -> (r: Result<Storage, StoreError>)
        requires
            key@.len() == 32,
        ensures
            r matches Ok(s) ==> s.wf() && s.key_bytes() == key@ && s.settings() == Map::<
                Seq<char>,
                (Seq<char>, bool),
            >::empty() && s.admin() is None && s.history() == Seq::<Seq<char>>::empty(),
    {
        match conn_open_in_memory() {
            None => Err(StoreError::Sql),
            Some(mut conn) => match sql_setup(&mut conn) {
                Ok(()) => Ok(Storage { conn, key }),
                Err(()) => Err(StoreError::Sql),
            },
        }
    }

    /// Seal bytes under the master key. A fresh random nonce is drawn for
    /// every call and bound to the ciphertext (prepended); the whole is
    /// returned as base64 text. Whatever this returns, `decrypt` under the
    /// same key gives back exactly the sealed bytes.
    pub fn encrypt(&self, data: &Vec<u8>) -> (r: Result<String, StoreError>)
        requires
            self.wf(),
        ensures
            r matches Ok(blob) ==> spec_decrypt(self.key_bytes(), blob@) == Some(data@),
            r matches Ok(blob) ==> spec_sealed_blob(self.key_bytes(), blob@, data@),
            r matches Err(e) ==> e == StoreError::Encryption,
            data@.len() < 0x1000000000 && data@.len() + 28 <= usize::MAX / 4 ==> r is Ok,
    {
        let nonce = random_nonce();
        let mut sealed = match aead_seal_bytes(&self.key, &nonce, data) {
            None => {
                return Err(StoreError::Encryption);
            },
            Some(ct) => ct,
        };
        let ghost nonce_bytes = nonce@;
        let ghost sealed_bytes = sealed@;
        let mut combined = nonce;
        combined.append(&mut sealed);
        if combined.len() > usize::MAX / 4 {
            return Err(StoreError::Encryption);
        }
        let blob = b64_encode_bytes(&combined);
        proof {
            assert(combined@.take(12) =~= nonce_bytes);
            assert(combined@.skip(12) =~= sealed_bytes);
            assert(combined@ =~= nonce_bytes + sealed_bytes);
            assert(spec_sealed_blob(self.key_bytes(), blob@, data@));
        }
        Ok(blob)
    }

    /// Open a blob sealed by `encrypt`: it fails on tampering, truncation,
    /// base64 damage, or a wrong key, and on success returns exactly the
    /// sealed bytes, never partially-decrypted data.
    pub fn decrypt(&self, encoded: &str) -> (r: Result<Vec<u8>, StoreError>)
        requires
            self.wf(),
        ensures
            r matches Ok(pt) ==> spec_decrypt(self.key_bytes(), encoded@) == Some(pt@),
            r is Err ==> spec_decrypt(self.key_bytes(), encoded@) is None,
            r matches Err(e) ==> e == StoreError::Decryption,
            spec_decrypt(self.key_bytes(), encoded@) is Some ==> r is Ok,
    {
        let mut combined = match b64_decode_str(encoded) {
            None => {
                return Err(StoreError::Decryption);
            },
            Some(c) => c,
        };
        if combined.len() < 12 {
            return Err(StoreError::Decryption);
        }
        let ghost combined_bytes = combined@;
        let ct = combined.split_off(12);
        let nonce = combined;
        proof {
            assert(nonce@ =~= combined_bytes.take(12));
            assert(ct@ =~= combined_bytes.skip(12));
        }
        match aead_open_bytes(&self.key, &nonce, &ct) {
            None => Err(StoreError::Decryption),
            Some(pt) => Ok(pt),
        }
    }

    /// Store a named setting, sealing the value first when asked to. On
    /// success the stored entry holds the value: read back under the same
    /// key it decodes to exactly the text written.
    pub fn set_setting(&mut self, key: &str, value: &str, encrypt_flag: bool) -> (r: Result<
        (),
        StoreError,
    >)
        requires
            old(self).wf(),
        ensures
            final(self).wf(),
            final(self).key_bytes() == old(self).key_bytes(),
            final(self).admin() == old(self).admin(),
            final(self).history() == old(self).history(),
            r is Ok ==> exists|stored: Seq<char>|
                final(self).settings() == old(self).settings().insert(
                    key@,
                    (stored, encrypt_flag),
                ) && spec_setting_plain(old(self).key_bytes(), (stored, encrypt_flag)) == Some(
                    value@,
                ),
            r is Err ==> final(self).settings() == old(self).settings(),
            r matches Err(e) ==> e == StoreError::Sql || e == StoreError::Encryption,
            vstd::utf8::encode_utf8(value@).len() < 0x1000000000 && vstd::utf8::encode_utf8(
                value@,
            ).len() + 28 <= usize::MAX / 4 ==> (r matches Err(e) ==> e == StoreError::Sql),
    {
        let ghost kb = self.key_bytes();
        let stored: String = if encrypt_flag {
            let bytes = value.as_bytes_vec();
            match self.encrypt(&bytes) {
                Ok(blob) => {
                    proof {
                        vstd::utf8::encode_utf8_decode_utf8(value@);
                        vstd::utf8::encode_utf8_valid_utf8(value@);
                    }
                    blob
                },
                Err(e) => {
                    return Err(e);
                },
            }
        } else {
            value.to_owned()
        };
        proof {
            assert(spec_setting_plain(kb, (stored@, encrypt_flag)) == Some(value@));
        }
        match sql_set_setting(&mut self.conn, key, stored.as_str(), encrypt_flag) {
            Ok(()) => Ok(()),
            Err(()) => Err(StoreError::Sql),
        }
    }

    /// Read a named setting back as plain text, transparently opening a
    /// sealed one: nothing where the store has no such setting, and a
    /// decryption error where its entry cannot be decoded under the key.
    pub fn get_setting(&self, key: &str) -> (r: Result<Option<String>, StoreError>)
        requires
            self.wf(),
        ensures
            r matches Ok(Some(v)) ==> self.settings().contains_key(key@) && spec_setting_plain(
                self.key_bytes(),
                self.settings()[key@],
            ) == Some(v@),
            r matches Ok(None) ==> !self.settings().contains_key(key@),
            r matches Err(e) ==> e == StoreError::Sql || (self.settings().contains_key(key@)
                && spec_setting_plain(self.key_bytes(), self.settings()[key@]) is None && (e
                == StoreError::Decryption || e == StoreError::InvalidText)),
    {
        match sql_get_setting(&self.conn, key) {
            Err(()) => Err(StoreError::Sql),
            Ok(None) => Ok(None),
            Ok(Some((stored, encrypted))) => {
                if !encrypted {
                    Ok(Some(stored))
                } else {
                    let bytes = match self.decrypt(stored.as_str()) {
                        Err(e) => {
                            return Err(e);
                        },
                        Ok(b) => b,
                    };
                    match string_from_utf8(bytes) {
                        None => Err(StoreError::InvalidText),
                        Some(text) => Ok(Some(text)),
                    }
                }
            },
        }
    }

    /// The registered administrator, if any.
    pub fn get_admin(&self) -> (r: Result<Option<u64>, StoreError>)
        requires
            self.wf(),
        ensures
            r matches Ok(a) ==> a == self.admin(),
            r matches Err(e) ==> e == StoreError::Sql,
    {
        match sql_get_admin(&self.conn) {
            Ok(a) => Ok(a),
            Err(()) => Err(StoreError::Sql),
        }
    }

    /// Register an administrator, first-writer-wins: the first successful
    /// registration locks the store to that identity, and every later call,
    /// whatever identity it carries, is silently ignored.
    pub fn set_admin(&mut self, telegram_id: u64) -> (r: Result<(), StoreError>)
        requires
            old(self).wf(),
        ensures
            final(self).wf(),
            final(self).key_bytes() == old(self).key_bytes(),
            final(self).settings() == old(self).settings(),
            final(self).history() == old(self).history(),
            r is Ok ==> final(self).admin() == spec_admin_after(old(self).admin(), telegram_id),
            r is Err ==> final(self).admin() == old(self).admin(),
            r matches Err(e) ==> e == StoreError::Sql,
    {
        match sql_get_admin(&self.conn) {
            Err(()) => Err(StoreError::Sql),
            Ok(Some(_)) => Ok(()),
            Ok(None) => match sql_insert_admin(&mut self.conn, telegram_id) {
                Ok(()) => Ok(()),
                Err(()) => Err(StoreError::Sql),
            },
        }
    }

    /// Append a message to the event log; the store assigns the timestamp.
    pub fn log_event(&mut self, event: &str) -> (r: Result<(), StoreError>)
        requires
            old(self).wf(),
        ensures
            final(self).wf(),
            final(self).key_bytes() == old(self).key_bytes(),
            final(self).settings() == old(self).settings(),
            final(self).admin() == old(self).admin(),
            r is Ok ==> final(self).history() == old(self).history().push(event@),
            r is Err ==> final(self).history() == old(self).history(),
            r matches Err(e) ==> e == StoreError::Sql,
    {
        match sql_insert_event(&mut self.conn, event) {
            Ok(()) => Ok(()),
            Err(()) => Err(StoreError::Sql),
        }
    }

    /// The most recent events, newest first, at most `limit` of them, each
    /// rendered as its stored timestamp in brackets followed by the logged
    /// message, in exactly the order `log_event` appended them.
    pub fn get_recent_history(&self, limit: i32) -> (r: Result<Vec<String>, StoreError>)
        requires
            self.wf(),
        ensures
            r matches Ok(rows) ==> {
                let h = self.history();
                let lim: int = if limit < 0 { 0 } else { limit as int };
                &&& rows@.len() == min(lim, h.len() as int)
                &&& forall|i: int|
                    0 <= i < rows@.len() ==> #[trigger] spec_history_line(
                        rows@[i]@,
                        h[h.len() - 1 - i],
                    )
            },
            r matches Err(e) ==> e == StoreError::Sql,
    {
        let lim: u32 = if limit < 0 {
            0
        } else {
            limit as u32
        };
        let raw = match sql_recent_history(&self.conn, lim) {
            Err(()) => {
                return Err(StoreError::Sql);
            },
            Ok(rows) => rows,
        };
        proof {
            reveal_strlit("[");
            reveal_strlit("] ");
        }
        let mut out: Vec<String> = Vec::new();
        let mut i: usize = 0;
        while i < raw.len()
            invariant
                i <= raw@.len(),
                out@.len() == i,
                raw@.len() == min(lim as int, self.history().len() as int),
                forall|j: int|
                    0 <= j < raw@.len() ==> raw@[j].1@ == self.history()[self.history().len() - 1
                        - j],
                forall|j: int|
                    0 <= j < i ==> #[trigger] spec_history_line(
                        out@[j]@,
                        self.history()[self.history().len() - 1 - j],
                    ),
                ("[")@ == seq!['['],
                ("] ")@ == seq![']', ' '],
            decreases raw@.len() - i,
        {
            let mut line: String = "[".to_owned();
            line.append(raw[i].0.as_str());
            line.append("] ");
            line.append(raw[i].1.as_str());
            proof {
                let ts = raw@[i as int].0@;
                let msg = self.history()[self.history().len() - 1 - i];
                assert(line@ =~= seq!['['] + ts + seq![']', ' '] + msg);
                assert(spec_history_line(line@, msg));
            }
            out.push(line);
            i = i + 1;
        }
        Ok(out)
    }

    /// Store the signing key's serialized form, always sealed.
    pub fn save_keypair(&mut self, keypair_json: &str) -> (r: Result<(), StoreError>)
        requires
            old(self).wf(),
        ensures
            final(self).wf(),
            final(self).key_bytes() == old(self).key_bytes(),
            final(self).admin() == old(self).admin(),
            final(self).history() == old(self).history(),
            r is Ok ==> exists|stored: Seq<char>|
                final(self).settings() == old(self).settings().insert(
                    "solana_keypair"@,
                    (stored, true),
                ) && spec_setting_plain(old(self).key_bytes(), (stored, true)) == Some(
                    keypair_json@,
                ),
            r is Err ==> final(self).settings() == old(self).settings(),
            r matches Err(e) ==> e == StoreError::Sql || e == StoreError::Encryption,
    {
        self.set_setting("solana_keypair", keypair_json, true)
    }

    /// Read the signing key's serialized form back, if one is stored.
    pub fn get_keypair(&self) -> (r: Result<Option<String>, StoreError>)
        requires
            self.wf(),
        ensures
            r matches Ok(Some(v)) ==> self.settings().contains_key("solana_keypair"@)
                && spec_setting_plain(self.key_bytes(), self.settings()["solana_keypair"@]) == Some(
                v@,
            ),
            r matches Ok(None) ==> !self.settings().contains_key("solana_keypair"@),
            r matches Err(e) ==> e == StoreError::Sql || (self.settings().contains_key(
                "solana_keypair"@,
            ) && spec_setting_plain(self.key_bytes(), self.settings()["solana_keypair"@]) is None
                && (e == StoreError::Decryption || e == StoreError::InvalidText)),
    {
        self.get_setting("solana_keypair")
    }
}

/// Law: administrator registration is idempotent after the first success;
/// a second registration with a different identity leaves the stored
/// administrator unchanged.
pub proof fn lemma_admin_first_writer_wins(first: u64, second: u64)
    ensures
        spec_admin_after(spec_admin_after(Option::None, first), second) == Option::Some(first),
{
}

} // verus!
