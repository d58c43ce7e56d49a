//! The status dashboard: who may see it, what it shows, and where plain HTTP is sent.
use base64::Engine;
use vstd::prelude::*;

use crate::json::{
    double_number, int_entry, integer_number, json_entry, new_object, no_entries, number_entry,
    object_entries, object_value, put_bool, put_int, put_null, put_object, put_optional_number,
    put_text, put_whole_real, whole_entry, JsonEntry,
};
use crate::state::{
    law_relay_bits, law_relay_keys, relay_key, relay_name, relay_on, unpack_relays, PoolState,
};
use crate::text::{
    after_prefix, law_after_prefix, law_split_at_first, law_without_suffix, same_text,
    split_at_first, split_once, strip_prefix, strip_suffix_or_same, trim_text, trimmed,
    without_suffix,
};

verus! {

/// The first line of `raw`, trimmed, that is neither empty nor a comment.
pub open spec fn first_entry(raw: Seq<char>) -> Option<Seq<char>>
    decreases raw.len(),
{
    proof {
        raw.index_of_first_ensures('\n');
    }
    match split_at_first(raw, '\n') {
        Some((line, rest)) => if is_entry(trimmed(line)) {
            Some(trimmed(line))
        } else {
            first_entry(rest)
        },
        None => if is_entry(trimmed(raw)) {
            Some(trimmed(raw))
        } else {
            None
        },
    }
}

/// Whether a trimmed line is neither empty nor a comment.
pub open spec fn is_entry(line: Seq<char>) -> bool {
    line.len() > 0 && line[0] != '#'
}

fn entry_line(line: &str) -> (entry: bool)
    ensures
        entry == is_entry(line@),
{
    line.unicode_len() > 0 && line.get_char(0) != '#'
}

/// Finds the first line that is neither empty nor a comment, and trims it.
fn find_entry(raw: &str) -> (entry: Option<String>)
    ensures
        match entry {
            Some(line) => first_entry(raw@) == Some(line@),
            None => first_entry(raw@) is None,
        },
{
    let mut rest = raw.to_owned();
    loop
        invariant
            first_entry(rest@) == first_entry(raw@),
        decreases rest@.len(),
    {
        match split_once(rest.as_str(), '\n') {
            Some((line, after)) => {
                let trimmed_line = trim_text(line.as_str());
                proof {
                    rest@.index_of_first_ensures('\n');
                }
                if entry_line(trimmed_line.as_str()) {
                    return Some(trimmed_line);
                }
                rest = after;
            },
            None => {
                let trimmed_line = trim_text(rest.as_str());
                if entry_line(trimmed_line.as_str()) {
                    return Some(trimmed_line);
                }
                return None;
            },
        }
    }
}

/// The password hash that a password file gives, or what is wrong with the file.
pub open spec fn password_hash(raw: Seq<char>) -> Result<Seq<char>, Seq<char>> {
    match first_entry(raw) {
        None => Err("auth file is empty"@),
        Some(line) => match split_at_first(line, ':') {
            None => Err("auth line must be user:hash"@),
            Some((user, hash)) => if user != "web"@ {
                Err("expected username web, found "@ + user)
            } else if hash.len() == 0 {
                Err("empty password hash"@)
            } else {
                Ok(hash)
            },
        },
    }
}

/// The texts of an outcome.
pub open spec fn texts_of(outcome: Result<String, String>) -> Result<Seq<char>, Seq<char>> {
    match outcome {
        Ok(text) => Ok(text@),
        Err(text) => Err(text@),
    }
}

/// Takes the password hash out of a password file: the hash of the line `web:<hash>`, which is
/// the first line that is neither empty nor a comment.
pub fn load_password_hash(raw: &str) -> (hash: Result<String, String>)
    ensures
        texts_of(hash) == password_hash(raw@),
{
    let line = match find_entry(raw) {
        Some(line) => line,
        None => {
            return Err("auth file is empty".to_owned());
        },
    };
    match split_once(line.as_str(), ':') {
        None => Err("auth line must be user:hash".to_owned()),
        Some((user, hash)) => {
            if !same_text(user.as_str(), "web") {
                let mut text = "expected username web, found ".to_owned();
                text.append(user.as_str());
                return Err(text);
            }
            if hash.as_str().unicode_len() == 0 {
                return Err("empty password hash".to_owned());
            }
            Ok(hash)
        },
    }
}

/// What the standard Base64 alphabet with padding decodes `text` to, if it is such a text.
pub uninterp spec fn base64_decoded(text: Seq<char>) -> Option<Seq<u8>>;

/// `base64::Engine::decode` of the engine `base64::engine::general_purpose::STANDARD`. The bytes,
/// and whether there are any, are a function of the text alone.
#[verifier::external_body]
fn decode_base64(text: &str) -> (bytes: Option<Vec<u8>>)
    ensures
        (match bytes {
            Some(decoded) => base64_decoded(text@) == Some(decoded@),
            None => base64_decoded(text@) is None,
        }),
{
    base64::engine::general_purpose::STANDARD.decode(text).ok()
}

/// The text that bytes encode in UTF-8, if they do.
pub open spec fn utf8_text(bytes: Seq<u8>) -> Option<Seq<char>> {
    if vstd::utf8::valid_utf8(bytes) {
        Some(vstd::utf8::decode_utf8(bytes))
    } else {
        None
    }
}

/// `String::from_utf8`: the text that the bytes encode, where they are valid UTF-8, else none.
#[verifier::external_body]
fn decode_utf8(bytes: Vec<u8>) -> (text: Option<String>)
    ensures
        (match text {
            Some(decoded) => utf8_text(bytes@) == Some(decoded@),
            None => utf8_text(bytes@) is None,
        }),
{
    String::from_utf8(bytes).ok()
}

/// What bcrypt says of a password and a hash: whether they match, or nothing where the hash is
/// none.
pub uninterp spec fn bcrypt_verdict(password: Seq<char>, hash: Seq<char>) -> Option<bool>;

/// `bcrypt::verify`, which takes salt and cost out of the hash and hashes the password anew. The
/// verdict is a function of the two texts alone; there is none where the hash cannot be read.
#[verifier::external_body]
fn bcrypt_verify(password: &str, hash: &str) -> (verdict: Option<bool>)
    ensures
        verdict == bcrypt_verdict(password@, hash@),
{
    bcrypt::verify(password, hash).ok()
}

/// The token of a Basic `Authorization` header: what follows `Basic `, trimmed.
pub open spec fn basic_token(header: Option<Seq<char>>) -> Option<Seq<char>> {
    match header {
        Some(value) => match after_prefix(value, "Basic "@) {
            Some(rest) => Some(trimmed(rest)),
            None => None,
        },
        None => None,
    }
}

/// The user name and password in the bytes of a token: UTF-8, with the first colon between them.
pub open spec fn credentials(bytes: Option<Seq<u8>>) -> Option<(Seq<char>, Seq<char>)> {
    match bytes {
        Some(decoded) => match utf8_text(decoded) {
            Some(text) => split_at_first(text, ':'),
            None => None,
        },
        None => None,
    }
}

/// The bytes that a token stands for.
pub open spec fn token_bytes(token: Option<Seq<char>>) -> Option<Seq<u8>> {
    match token {
        Some(text) => base64_decoded(text),
        None => None,
    }
}

/// Whether a user is let in with a verdict on their password.
pub open spec fn lets_in(user: Seq<char>, verdict: Option<bool>) -> bool {
    user == "web"@ && verdict == Some(true)
}

/// Whether a request with this `Authorization` header may see the dashboard.
pub open spec fn is_authorized(header: Option<Seq<char>>, hash: Seq<char>) -> bool {
    match credentials(token_bytes(basic_token(header))) {
        Some((user, password)) => lets_in(user, bcrypt_verdict(password, hash)),
        None => false,
    }
}

/// The characters of an optional text.
pub open spec fn text_view(text: Option<String>) -> Option<Seq<char>> {
    match text {
        Some(s) => Some(s@),
        None => None,
    }
}

/// The token of a Basic `Authorization` header, if it is one.
pub fn token_of(header: &Option<String>) -> (token: Option<String>)
    ensures
        text_view(token) == basic_token(text_view(*header)),
{
    match header {
        Some(value) => match strip_prefix(value.as_str(), "Basic ") {
            Some(rest) => Some(trim_text(rest.as_str())),
            None => None,
        },
        None => None,
    }
}

/// The user name and password in the bytes of a token, if they hold them.
pub fn credentials_in(bytes: Option<Vec<u8>>) -> (pair: Option<(String, String)>)
    ensures
        match pair {
            Some((user, password)) => bytes matches Some(decoded) && credentials(Some(decoded@))
                == Some((user@, password@)),
            None => match bytes {
                Some(decoded) => credentials(Some(decoded@)) is None,
                None => true,
            },
        },
{
    match bytes {
        Some(decoded) => match decode_utf8(decoded) {
            Some(text) => split_once(text.as_str(), ':'),
            None => None,
        },
        None => None,
    }
}

/// Whether a user is let in with a verdict on their password.
pub fn is_let_in(user: &str, verdict: Option<bool>) -> (yes: bool)
    ensures
        yes == lets_in(user@, verdict),
{
    same_text(user, "web") && match verdict {
        Some(matched) => matched,
        None => false,
    }
}

/// Whether a request with this `Authorization` header may see the dashboard: it is a Basic header
/// with the user `web` and the password of `password_hash`. No other user's password is hashed.
pub fn authorized(header: &Option<String>, password_hash: &str) -> (yes: bool)
    ensures
        yes == is_authorized(text_view(*header), password_hash@),
{
    let bytes = match token_of(header) {
        Some(token) => decode_base64(token.as_str()),
        None => None,
    };
    match credentials_in(bytes) {
        Some((user, password)) => if same_text(user.as_str(), "web") {
            let verdict = bcrypt_verify(password.as_str(), password_hash);
            is_let_in(user.as_str(), verdict)
        } else {
            false
        },
        None => false,
    }
}

/// Nobody is let in without an `Authorization` header, with one of another scheme, or under
/// another name than `web`.
pub proof fn law_only_web_is_let_in(header: Option<Seq<char>>, hash: Seq<char>)
    requires
        is_authorized(header, hash),
    ensures
        header is Some,
        "Basic "@.is_prefix_of(header->0),
        credentials(token_bytes(basic_token(header))) matches Some((user, _)) && user == "web"@,
{
}

/// Where plain HTTP is sent: the same host without port 80, the same path and query, over TLS.
pub open spec fn https_location(host: Option<Seq<char>>, path: Option<Seq<char>>) -> Seq<char> {
    "https://"@ + without_suffix(
        match host {
            Some(name) => name,
            None => "localhost"@,
        },
        ":80"@,
    ) + match path {
        Some(text) => text,
        None => "/"@,
    }
}

/// Where plain HTTP is sent, by the request's `Host` header and its path and query.
pub fn redirect_location(host: &Option<String>, path_and_query: &Option<String>) -> (location:
    String)
    ensures
        location@ == https_location(text_view(*host), text_view(*path_and_query)),
{
    let name = match host {
        Some(value) => strip_suffix_or_same(value.as_str(), ":80"),
        None => strip_suffix_or_same("localhost", ":80"),
    };
    let mut location = "https://".to_owned();
    location.append(name.as_str());
    match path_and_query {
        Some(path) => location.append(path.as_str()),
        None => location.append("/"),
    }
    location
}

/// A redirect always leads to TLS.
pub proof fn law_redirect_is_https(host: Option<Seq<char>>, path: Option<Seq<char>>)
    ensures
        "https://"@.is_prefix_of(https_location(host, path)),
{
    let location = https_location(host, path);
    assert("https://"@ =~= location.subrange(0, "https://"@.len() as int));
}

/// The relays of a packed relay byte as members, for the first `count` of them.
pub open spec fn relay_members(byte: u8, count: int) -> Map<Seq<char>, JsonEntry>
    decreases count,
{
    if count <= 0 {
        no_entries()
    } else {
        relay_members(byte, count - 1).insert(
            relay_key(count - 1),
            JsonEntry::Bool(relay_on(byte, count - 1)),
        )
    }
}

fn relay_object(byte: u8) -> (relays: serde_json::Map<String, serde_json::Value>)
    ensures
        object_entries(relays) == relay_members(byte, 8),
{
    let bits = unpack_relays(byte);
    let mut map = new_object();
    let mut i: usize = 0;
    while i < 8
        invariant
            i <= 8,
            bits@.len() == 8,
            forall|j: int| 0 <= j < 8 ==> bits@[j] == #[trigger] relay_on(byte, j),
            object_entries(map) == relay_members(byte, i as int),
        decreases 8 - i,
    {
        put_bool(&mut map, relay_name(i), bits[i]);
        assert(bits@[i as int] == relay_on(byte, i as int));
        i = i + 1;
    }
    map
}

/// The member of the measured relays: an object, or `null` before the first feedback.
pub open spec fn feedback_entry(feedback: Option<u8>) -> JsonEntry {
    match feedback {
        Some(byte) => JsonEntry::Object(relay_members(byte, 8)),
        None => JsonEntry::Null,
    }
}

impl PoolState {
    /// The members of the dashboard's status.
    pub open spec fn dashboard_entries(self) -> Map<Seq<char>, JsonEntry> {
        no_entries().insert("ip"@, JsonEntry::Text(self.measured.ip@)).insert(
            "mode"@,
            int_entry(self.commanded.mode as int),
        ).insert("set_speed"@, int_entry(self.commanded.set_speed as int)).insert(
            "set_spa_temp"@,
            int_entry(self.commanded.set_spa_temp as int),
        ).insert("set_pool_temp"@, int_entry(self.commanded.set_pool_temp as int)).insert(
            "rpm"@,
            int_entry(self.measured.rpm as int),
        ).insert("watt"@, int_entry(self.measured.watt as int)).insert(
            "air_temp"@,
            whole_entry(self.measured.air_temp as int),
        ).insert("spa_temp"@, number_entry(self.measured.spa_temp)).insert(
            "pool_temp"@,
            number_entry(self.measured.pool_temp),
        ).insert(
            "commanded_relays"@,
            JsonEntry::Object(relay_members(self.commanded.relays, 8)),
        ).insert("measured_relays"@, feedback_entry(self.measured.relay_status)).insert(
            "update_pump"@,
            JsonEntry::Bool(self.update_pump),
        ).insert("update_relays"@, JsonEntry::Bool(self.update_relays)).insert(
            "water_temp_settling"@,
            JsonEntry::Bool(self.water_temp_settling),
        )
    }
}

/// Builds the dashboard's status, with plain names and both the commanded and the measured relays.
pub fn status_dashboard_json(state: &PoolState) -> (status: serde_json::Value)
    ensures
        json_entry(status) == JsonEntry::Object(state.dashboard_entries()),
{
    let mut map = new_object();
    put_text(&mut map, "ip", state.measured.ip.as_str());
    put_int(&mut map, "mode", state.commanded.mode as i64);
    put_int(&mut map, "set_speed", state.commanded.set_speed as i64);
    put_int(&mut map, "set_spa_temp", state.commanded.set_spa_temp as i64);
    put_int(&mut map, "set_pool_temp", state.commanded.set_pool_temp as i64);
    put_int(&mut map, "rpm", state.measured.rpm as i64);
    put_int(&mut map, "watt", state.measured.watt as i64);
    put_whole_real(&mut map, "air_temp", state.measured.air_temp);
    put_optional_number(&mut map, "spa_temp", &state.measured.spa_temp);
    put_optional_number(&mut map, "pool_temp", &state.measured.pool_temp);
    put_object(&mut map, "commanded_relays", relay_object(state.commanded.relays));
    match state.measured.relay_status {
        Some(byte) => put_object(&mut map, "measured_relays", relay_object(byte)),
        None => put_null(&mut map, "measured_relays"),
    }
    put_bool(&mut map, "update_pump", state.update_pump);
    put_bool(&mut map, "update_relays", state.update_relays);
    put_bool(&mut map, "water_temp_settling", state.water_temp_settling);
    object_value(map)
}

/// What the dashboard does on its way up.
#[derive(Debug, Clone, Copy, PartialEq, Eq, Structural)]
pub enum StartupStep {
    /// Install the process-wide TLS provider; one that is there already will do.
    InstallCrypto,
    /// Load the password hash.
    LoadAuth,
    /// Load certificate and key.
    LoadTls,
    /// Parse the address of the plain listener.
    ParseHttpBind,
    /// Parse the address of the TLS listener.
    ParseHttpsBind,
    /// Listen on both addresses.
    Serve,
    /// Do not run, or run no longer.
    Stop,
}

/// The first step: none where the dashboard is off.
pub fn first_step(enabled: bool) -> (step: StartupStep)
    ensures
        step == if enabled {
            StartupStep::InstallCrypto
        } else {
            StartupStep::Stop
        },
{
    if enabled {
        StartupStep::InstallCrypto
    } else {
        StartupStep::Stop
    }
}

/// The step that follows one that succeeded, or failed.
pub open spec fn step_after(step: StartupStep, ok: bool) -> StartupStep {
    match step {
        StartupStep::InstallCrypto => StartupStep::LoadAuth,
        StartupStep::LoadAuth => if ok {
            StartupStep::LoadTls
        } else {
            StartupStep::Stop
        },
        StartupStep::LoadTls => if ok {
            StartupStep::ParseHttpBind
        } else {
            StartupStep::Stop
        },
        StartupStep::ParseHttpBind => if ok {
            StartupStep::ParseHttpsBind
        } else {
            StartupStep::Stop
        },
        StartupStep::ParseHttpsBind => if ok {
            StartupStep::Serve
        } else {
            StartupStep::Stop
        },
        StartupStep::Serve => StartupStep::Stop,
        StartupStep::Stop => StartupStep::Stop,
    }
}

/// The step that follows one that succeeded, or failed.
pub fn next_step(step: StartupStep, ok: bool) -> (next: StartupStep)
    ensures
        next == step_after(step, ok),
{
    match step {
        StartupStep::InstallCrypto => StartupStep::LoadAuth,
        StartupStep::Serve => StartupStep::Stop,
        StartupStep::Stop => StartupStep::Stop,
        _ => if !ok {
            StartupStep::Stop
        } else {
            match step {
                StartupStep::LoadAuth => StartupStep::LoadTls,
                StartupStep::LoadTls => StartupStep::ParseHttpBind,
                StartupStep::ParseHttpBind => StartupStep::ParseHttpsBind,
                _ => StartupStep::Serve,
            }
        },
    }
}

/// The dashboard serves exactly where password hash, certificate and both addresses are usable;
/// the TLS provider alone may have been there already.
pub proof fn law_serves_only_when_all_loaded(
    crypto: bool,
    auth: bool,
    tls: bool,
    http_bind: bool,
    https_bind: bool,
)
    ensures
        ({
            let loaded = step_after(step_after(StartupStep::InstallCrypto, crypto), auth);
            let end = step_after(step_after(step_after(loaded, tls), http_bind), https_bind);
            &&& end == StartupStep::Serve <==> auth && tls && http_bind && https_bind
            &&& end == StartupStep::Serve || end == StartupStep::Stop
        }),
{
}

/// The first line of a password file that, once trimmed, is neither empty nor starts with `#` is
/// its entry; a line that is either is passed over.
pub proof fn law_first_entry(line: Seq<char>, rest: Seq<char>)
    requires
        !line.contains('\n'),
    ensures
        ({
            let entry = trimmed(line).len() > 0 && trimmed(line)[0] != '#';
            &&& entry ==> first_entry(line + seq!['\n'] + rest) == Some(trimmed(line))
            &&& !entry ==> first_entry(line + seq!['\n'] + rest) == first_entry(rest)
            &&& entry ==> first_entry(line) == Some(trimmed(line))
            &&& !entry ==> first_entry(line) is None
        }),
{
    let raw = line + seq!['\n'] + rest;
    law_split_at_first(raw, '\n', line, rest);
    law_split_at_first(line, '\n', line, rest);
}

/// The entry of a password file is `web`, a colon, and the hash, which is all that follows the first
/// colon. A file without an entry, an entry without a colon, another user and an empty hash are
/// refused, each in its own words.
pub proof fn law_password_entries(raw: Seq<char>, user: Seq<char>, hash: Seq<char>)
    requires
        !user.contains(':'),
    ensures
        first_entry(raw) is None ==> password_hash(raw) == Err::<Seq<char>, Seq<char>>(
            "auth file is empty"@,
        ),
        first_entry(raw) == Some(user) ==> password_hash(raw) == Err::<Seq<char>, Seq<char>>(
            "auth line must be user:hash"@,
        ),
        first_entry(raw) == Some(user + seq![':'] + hash) ==> ({
            &&& user != "web"@ ==> password_hash(raw) == Err::<Seq<char>, Seq<char>>(
                "expected username web, found "@ + user,
            )
            &&& user == "web"@ && hash.len() == 0 ==> password_hash(raw) == Err::<
                Seq<char>,
                Seq<char>,
            >("empty password hash"@)
            &&& user == "web"@ && hash.len() > 0 ==> password_hash(raw) == Ok::<
                Seq<char>,
                Seq<char>,
            >(hash)
        }),
{
    law_split_at_first(user + seq![':'] + hash, ':', user, hash);
    law_split_at_first(user, ':', user, hash);
}

/// Who is let in: a request with the header `Basic ` and a token whose bytes are UTF-8 for a user, a
/// colon and a password, where the user is `web` and bcrypt finds that the password has the hash.
/// The user ends at the first colon, and white space around the token does not count.
pub proof fn law_who_is_let_in(
    token: Seq<char>,
    bytes: Seq<u8>,
    user: Seq<char>,
    password: Seq<char>,
    hash: Seq<char>,
)
    requires
        base64_decoded(trimmed(token)) == Some(bytes),
        vstd::utf8::valid_utf8(bytes),
        vstd::utf8::decode_utf8(bytes) == user + seq![':'] + password,
        !user.contains(':'),
    ensures
        is_authorized(Some("Basic "@ + token), hash) <==> user == "web"@ && bcrypt_verdict(
            password,
            hash,
        ) == Some(true),
{
    law_after_prefix("Basic "@ + token, "Basic "@, token);
    law_split_at_first(user + seq![':'] + password, ':', user, password);
}

/// Who is kept out: a request without a header, with one that does not start with `Basic `, with a
/// token that is not Base64, or with bytes that are not UTF-8 or hold no colon.
pub proof fn law_who_is_kept_out(header: Seq<char>, token: Seq<char>, hash: Seq<char>)
    ensures
        !is_authorized(None, hash),
        !"Basic "@.is_prefix_of(header) ==> !is_authorized(Some(header), hash),
        base64_decoded(trimmed(token)) is None ==> !is_authorized(Some("Basic "@ + token), hash),
        base64_decoded(trimmed(token)) matches Some(bytes) ==> (!vstd::utf8::valid_utf8(bytes)
            || !vstd::utf8::decode_utf8(bytes).contains(':') ==> !is_authorized(
            Some("Basic "@ + token),
            hash,
        )),
{
    law_after_prefix("Basic "@ + token, "Basic "@, token);
}

/// A redirect keeps host, path and query: it is `https://`, the host with `:80` taken off its end,
/// and the path. Without a host it is `localhost`, and without a path it is `/`.
pub proof fn law_redirects(name: Seq<char>, path: Seq<char>)
    ensures
        https_location(Some(name + ":80"@), Some(path)) == "https://"@ + name + path,
        !":80"@.is_suffix_of(name) ==> https_location(Some(name), Some(path)) == "https://"@ + name
            + path,
        https_location(None, Some(path)) == "https://"@ + "localhost"@ + path,
        https_location(Some(name), None) == https_location(Some(name), Some("/"@)),
        https_location(None, None) == https_location(None, Some("/"@)),
{
    law_without_suffix(name, ":80"@, name);
    reveal_strlit(":80");
    reveal_strlit("localhost");
    assert(!":80"@.is_suffix_of("localhost"@)) by {
        assert("localhost"@.subrange(6, 9)[0] == 'o');
    }
}

proof fn lemma_relay_members(byte: u8, count: int)
    requires
        0 <= count <= 8,
    ensures
        forall|i: int|
            0 <= i < count ==> relay_members(byte, count).contains_pair(
                #[trigger] relay_key(i),
                JsonEntry::Bool(relay_on(byte, i)),
            ),
        forall|key: Seq<char>| #[trigger]
            relay_members(byte, count).contains_key(key) ==> exists|i: int|
                0 <= i < count && key == #[trigger] relay_key(i),
    decreases count,
{
    if count > 0 {
        lemma_relay_members(byte, count - 1);
        assert forall|key: Seq<char>| #[trigger]
            relay_members(byte, count).contains_key(key) implies exists|i: int|
            0 <= i < count && key == #[trigger] relay_key(i) by {
            if key != relay_key(count - 1) {
                assert(relay_members(byte, count - 1).contains_key(key));
                let i = choose|i: int| 0 <= i < count - 1 && key == #[trigger] relay_key(i);
                assert(0 <= i < count && key == relay_key(i));
            }
        }
        assert forall|i: int| 0 <= i < count implies relay_members(byte, count).contains_pair(
            #[trigger] relay_key(i),
            JsonEntry::Bool(relay_on(byte, i)),
        ) by {
            law_relay_keys(i);
            law_relay_keys(count - 1);
        }
    }
}

/// The relays of a byte as members: `r1` to `r8` say whether the lowest to the highest bit is set,
/// and there are no others.
pub proof fn law_relay_members(byte: u8, key: Seq<char>)
    ensures
        ({
            let members = relay_members(byte, 8);
            &&& members.contains_pair("r1"@, JsonEntry::Bool(byte & 0x01 != 0))
            &&& members.contains_pair("r2"@, JsonEntry::Bool(byte & 0x02 != 0))
            &&& members.contains_pair("r3"@, JsonEntry::Bool(byte & 0x04 != 0))
            &&& members.contains_pair("r4"@, JsonEntry::Bool(byte & 0x08 != 0))
            &&& members.contains_pair("r5"@, JsonEntry::Bool(byte & 0x10 != 0))
            &&& members.contains_pair("r6"@, JsonEntry::Bool(byte & 0x20 != 0))
            &&& members.contains_pair("r7"@, JsonEntry::Bool(byte & 0x40 != 0))
            &&& members.contains_pair("r8"@, JsonEntry::Bool(byte & 0x80 != 0))
            &&& members.contains_key(key) ==> key == "r1"@ || key == "r2"@ || key == "r3"@ || key
                == "r4"@ || key == "r5"@ || key == "r6"@ || key == "r7"@ || key == "r8"@
        }),
        feedback_entry(Some(byte)) == JsonEntry::Object(relay_members(byte, 8)),
        feedback_entry(None) == JsonEntry::Null,
{
    lemma_relay_members(byte, 8);
    law_relay_bits(byte, 0);
    let members = relay_members(byte, 8);
    assert(members.contains_pair(relay_key(0), JsonEntry::Bool(relay_on(byte, 0))));
    assert(members.contains_pair(relay_key(1), JsonEntry::Bool(relay_on(byte, 1))));
    assert(members.contains_pair(relay_key(2), JsonEntry::Bool(relay_on(byte, 2))));
    assert(members.contains_pair(relay_key(3), JsonEntry::Bool(relay_on(byte, 3))));
    assert(members.contains_pair(relay_key(4), JsonEntry::Bool(relay_on(byte, 4))));
    assert(members.contains_pair(relay_key(5), JsonEntry::Bool(relay_on(byte, 5))));
    assert(members.contains_pair(relay_key(6), JsonEntry::Bool(relay_on(byte, 6))));
    assert(members.contains_pair(relay_key(7), JsonEntry::Bool(relay_on(byte, 7))));
}

/// A number that tells the dashboard's keys apart: their length and their first character.
spec fn dashboard_code(key: Seq<char>) -> int {
    key.len() * 1000 + (key[0] as int)
}

proof fn lemma_dashboard_keys()
    ensures
        dashboard_code("ip"@) == 2105,
        dashboard_code("mode"@) == 4109,
        dashboard_code("set_speed"@) == 9115,
        dashboard_code("set_spa_temp"@) == 12115,
        dashboard_code("set_pool_temp"@) == 13115,
        dashboard_code("rpm"@) == 3114,
        dashboard_code("watt"@) == 4119,
        dashboard_code("air_temp"@) == 8097,
        dashboard_code("spa_temp"@) == 8115,
        dashboard_code("pool_temp"@) == 9112,
        dashboard_code("commanded_relays"@) == 16099,
        dashboard_code("measured_relays"@) == 15109,
        dashboard_code("update_pump"@) == 11117,
        dashboard_code("update_relays"@) == 13117,
        dashboard_code("water_temp_settling"@) == 19119,
{
    reveal_strlit("ip");
    reveal_strlit("mode");
    reveal_strlit("set_speed");
    reveal_strlit("set_spa_temp");
    reveal_strlit("set_pool_temp");
    reveal_strlit("rpm");
    reveal_strlit("watt");
    reveal_strlit("air_temp");
    reveal_strlit("spa_temp");
    reveal_strlit("pool_temp");
    reveal_strlit("commanded_relays");
    reveal_strlit("measured_relays");
    reveal_strlit("update_pump");
    reveal_strlit("update_relays");
    reveal_strlit("water_temp_settling");
}

/// The dashboard shows what is commanded and what is measured, each under its own key: the
/// commanded relays and, apart from them, the feedback, which is `null` before the first; and a
/// water temperature that is not known is `null`. There are no other members.
pub proof fn law_dashboard_shows_state(state: PoolState, key: Seq<char>)
    ensures
        ({
            let shown = state.dashboard_entries();
            &&& shown.contains_pair("ip"@, JsonEntry::Text(state.measured.ip@))
            &&& shown.contains_pair(
                "mode"@,
                JsonEntry::Number(integer_number(state.commanded.mode as int)),
            )
            &&& shown.contains_pair(
                "set_speed"@,
                JsonEntry::Number(integer_number(state.commanded.set_speed as int)),
            )
            &&& shown.contains_pair(
                "set_spa_temp"@,
                JsonEntry::Number(integer_number(state.commanded.set_spa_temp as int)),
            )
            &&& shown.contains_pair(
                "set_pool_temp"@,
                JsonEntry::Number(integer_number(state.commanded.set_pool_temp as int)),
            )
            &&& shown.contains_pair(
                "rpm"@,
                JsonEntry::Number(integer_number(state.measured.rpm as int)),
            )
            &&& shown.contains_pair(
                "watt"@,
                JsonEntry::Number(integer_number(state.measured.watt as int)),
            )
            &&& shown.contains_pair(
                "air_temp"@,
                JsonEntry::Number(double_number(state.measured.air_temp as int)),
            )
            &&& state.measured.spa_temp matches Some(temp) ==> shown.contains_pair(
                "spa_temp"@,
                JsonEntry::Number(temp),
            )
            &&& state.measured.spa_temp is None ==> shown.contains_pair(
                "spa_temp"@,
                JsonEntry::Null,
            )
            &&& state.measured.pool_temp matches Some(temp) ==> shown.contains_pair(
                "pool_temp"@,
                JsonEntry::Number(temp),
            )
            &&& state.measured.pool_temp is None ==> shown.contains_pair(
                "pool_temp"@,
                JsonEntry::Null,
            )
            &&& shown.contains_pair(
                "commanded_relays"@,
                JsonEntry::Object(relay_members(state.commanded.relays, 8)),
            )
            &&& state.measured.relay_status matches Some(byte) ==> shown.contains_pair(
                "measured_relays"@,
                JsonEntry::Object(relay_members(byte, 8)),
            )
            &&& state.measured.relay_status is None ==> shown.contains_pair(
                "measured_relays"@,
                JsonEntry::Null,
            )
            &&& shown.contains_pair("update_pump"@, JsonEntry::Bool(state.update_pump))
            &&& shown.contains_pair("update_relays"@, JsonEntry::Bool(state.update_relays))
            &&& shown.contains_pair(
                "water_temp_settling"@,
                JsonEntry::Bool(state.water_temp_settling),
            )
            &&& shown.contains_key(key) ==> key == "ip"@ || key == "mode"@ || key == "set_speed"@
                || key == "set_spa_temp"@ || key == "set_pool_temp"@ || key == "rpm"@ || key
                == "watt"@ || key == "air_temp"@ || key == "spa_temp"@ || key == "pool_temp"@ || key
                == "commanded_relays"@ || key == "measured_relays"@ || key == "update_pump"@ || key
                == "update_relays"@ || key == "water_temp_settling"@
        }),
{
    lemma_dashboard_keys();
}

/// The dashboard comes up step by step: TLS provider, password hash, certificate, the two addresses,
/// and then it serves. A step that fails stops it, but for the TLS provider; once it has served or
/// stopped it stays stopped.
pub proof fn law_startup_order(ok: bool)
    ensures
        step_after(StartupStep::InstallCrypto, ok) == StartupStep::LoadAuth,
        step_after(StartupStep::LoadAuth, true) == StartupStep::LoadTls,
        step_after(StartupStep::LoadTls, true) == StartupStep::ParseHttpBind,
        step_after(StartupStep::ParseHttpBind, true) == StartupStep::ParseHttpsBind,
        step_after(StartupStep::ParseHttpsBind, true) == StartupStep::Serve,
        step_after(StartupStep::LoadAuth, false) == StartupStep::Stop,
        step_after(StartupStep::LoadTls, false) == StartupStep::Stop,
        step_after(StartupStep::ParseHttpBind, false) == StartupStep::Stop,
        step_after(StartupStep::ParseHttpsBind, false) == StartupStep::Stop,
        step_after(StartupStep::Serve, ok) == StartupStep::Stop,
        step_after(StartupStep::Stop, ok) == StartupStep::Stop,
{
}

/// A text, and an outcome that is a text either way, is seen as its characters.
pub proof fn law_text_views(text: String)
    ensures
        texts_of(Ok(text)) == Ok::<Seq<char>, Seq<char>>(text@),
        texts_of(Err(text)) == Err::<Seq<char>, Seq<char>>(text@),
        text_view(Some(text)) == Some(text@),
        text_view(None) is None,
{
}

/// The parts of an `Authorization` header: the token after `Basic `, the bytes of the token, and the
/// user and the password in the bytes. A user is let in by name and by the verdict on the password.
pub proof fn law_credentials(
    token: Seq<char>,
    bytes: Seq<u8>,
    user: Seq<char>,
    password: Seq<char>,
    verdict: Option<bool>,
)
    ensures
        basic_token(Some("Basic "@ + token)) == Some(trimmed(token)),
        basic_token(None) is None,
        token_bytes(Some(token)) == base64_decoded(token),
        token_bytes(None) is None,
        credentials(Some(bytes)) == Some((user, password)) <==> vstd::utf8::valid_utf8(bytes)
            && vstd::utf8::decode_utf8(bytes) == user + seq![':'] + password && !user.contains(':'),
        credentials(None) is None,
        lets_in(user, verdict) <==> user == "web"@ && verdict == Some(true),
{
    law_after_prefix("Basic "@ + token, "Basic "@, token);
    if vstd::utf8::valid_utf8(bytes) {
        law_split_at_first(vstd::utf8::decode_utf8(bytes), ':', user, password);
    }
}

} // verus!
