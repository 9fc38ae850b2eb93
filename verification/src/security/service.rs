//! The token service: encrypts authentication tokens, keeps a record of each
//! stored token by id, and checks the tokens that API requests present.
use vstd::prelude::*;
use vstd::string::*;
use vstd::utf8::*;
use crate::clock::unix_time_now;
use crate::security::encryption::{
    aes_gcm_max_plaintext, decrypt_all_outcome, decrypt_token_outcome, keys_of, padded_key, pair_views,
    EncryptionError, EncryptionErrorKind, TokenEncryption,
};
use crate::security::models::{SecurityConfig, SecurityError, TokenInfo};

verus! {

/// What the service keeps of a stored token: its encrypted form, when it was
/// stored and last used (seconds since the Unix epoch), and how often it was
/// decrypted.
pub type TokenEntry = (Seq<char>, i64, i64, u64);

/// The entry of a token record.
pub open spec fn entry_of(t: TokenInfo) -> TokenEntry {
    (t.encrypted_token@, t.created_at, t.last_accessed, t.access_count)
}

/// No two records share a token id.
pub open spec fn distinct_ids(s: Seq<TokenInfo>) -> bool {
    forall|i: int, j: int| 0 <= i < j < s.len() ==> #[trigger] s[i].token_id@ != #[trigger] s[j].token_id@
}

/// Some record has the token id `k`.
pub open spec fn holds_id(s: Seq<TokenInfo>, k: Seq<char>) -> bool {
    exists|i: int| 0 <= i < s.len() && #[trigger] s[i].token_id@ == k
}

/// The records as a map from token id to entry.
pub open spec fn cache_map(s: Seq<TokenInfo>) -> Map<Seq<char>, TokenEntry> {
    Map::new(
        |k: Seq<char>| holds_id(s, k),
        |k: Seq<char>| entry_of(s[choose|i: int| 0 <= i < s.len() && #[trigger] s[i].token_id@ == k]),
    )
}

/// The entry of a freshly stored token.
pub open spec fn fresh_entry(encrypted: Seq<char>, now: i64) -> TokenEntry {
    (encrypted, now, now, 0)
}

/// An entry after one more decryption at `now`; the count stops at its maximum.
pub open spec fn touched(e: TokenEntry, now: i64) -> TokenEntry {
    (e.0, e.1, now, if e.3 < u64::MAX { (e.3 + 1) as u64 } else { e.3 })
}

/// The map after a decryption of token `k` at `now`: unchanged when `k` is not stored.
pub open spec fn touch(m: Map<Seq<char>, TokenEntry>, k: Seq<char>, now: i64) -> Map<Seq<char>, TokenEntry> {
    if m.dom().contains(k) {
        m.insert(k, touched(m[k], now))
    } else {
        m
    }
}

/// The map after decryptions of the tokens `ks`, in order.
pub open spec fn touch_all(m: Map<Seq<char>, TokenEntry>, ks: Seq<Seq<char>>, now: i64) -> Map<Seq<char>, TokenEntry>
    decreases ks.len(),
{
    if ks.len() == 0 {
        m
    } else {
        touch_all(touch(m, ks[0], now), ks.drop_first(), now)
    }
}

/// The map after storing the encrypted pairs `ps`, in order.
pub open spec fn store_all(m: Map<Seq<char>, TokenEntry>, ps: Seq<(Seq<char>, Seq<char>)>, now: i64) -> Map<
    Seq<char>,
    TokenEntry,
>
    decreases ps.len(),
{
    if ps.len() == 0 {
        m
    } else {
        store_all(m.insert(ps[0].0, fresh_entry(ps[0].1, now)), ps.drop_first(), now)
    }
}

/// The first second that a token stored `max_age_hours` before `now` may still have.
pub open spec fn cutoff(now: i64, max_age_hours: i64) -> int {
    now - max_age_hours * 3600
}

/// Largest age, in hours, that the clock arithmetic of the cleanup accepts.
pub const MAX_TOKEN_AGE_HOURS: i64 = 2_000_000_000;

pub proof fn lemma_cache_lookup(s: Seq<TokenInfo>, i: int)
    requires
        distinct_ids(s),
        0 <= i < s.len(),
    ensures
        cache_map(s).dom().contains(s[i].token_id@),
        cache_map(s)[s[i].token_id@] == entry_of(s[i]),
{
    let k = s[i].token_id@;
    assert(holds_id(s, k));
    let j = choose|j: int| 0 <= j < s.len() && #[trigger] s[j].token_id@ == k;
    if j != i {
        if j < i {
            assert(s[j].token_id@ != s[i].token_id@);
        } else {
            assert(s[i].token_id@ != s[j].token_id@);
        }
    }
}

proof fn lemma_cache_push(s: Seq<TokenInfo>, x: TokenInfo)
    requires
        distinct_ids(s),
        !holds_id(s, x.token_id@),
    ensures
        distinct_ids(s.push(x)),
        cache_map(s.push(x)) == cache_map(s).insert(x.token_id@, entry_of(x)),
{
    let t = s.push(x);
    assert forall|i: int, j: int| 0 <= i < j < t.len() implies #[trigger] t[i].token_id@ != #[trigger] t[j].token_id@ by {
        if j == s.len() {
            assert(t[i] == s[i]);
        } else {
            assert(t[i] == s[i] && t[j] == s[j]);
        }
    }
    let m = cache_map(s).insert(x.token_id@, entry_of(x));
    assert forall|k: Seq<char>| #[trigger] cache_map(t).dom().contains(k) <==> m.dom().contains(k) by {
        if holds_id(t, k) {
            let i = choose|i: int| 0 <= i < t.len() && #[trigger] t[i].token_id@ == k;
            if i < s.len() {
                assert(t[i] == s[i]);
                assert(holds_id(s, k));
            }
        }
        if holds_id(s, k) {
            let i = choose|i: int| 0 <= i < s.len() && #[trigger] s[i].token_id@ == k;
            assert(t[i] == s[i]);
            assert(holds_id(t, k));
        }
        if k == x.token_id@ {
            assert(t[s.len() as int] == x);
            assert(holds_id(t, k));
        }
    }
    assert forall|k: Seq<char>| #[trigger] cache_map(t).dom().contains(k) implies cache_map(t)[k] == m[k] by {
        let i = choose|i: int| 0 <= i < t.len() && #[trigger] t[i].token_id@ == k;
        lemma_cache_lookup(t, i);
        if i < s.len() {
            assert(t[i] == s[i]);
            lemma_cache_lookup(s, i);
        } else {
            assert(t[i] == x);
        }
    }
    assert(cache_map(t) =~= m);
}

proof fn lemma_cache_update(s: Seq<TokenInfo>, j: int, x: TokenInfo)
    requires
        distinct_ids(s),
        0 <= j < s.len(),
        x.token_id@ == s[j].token_id@,
    ensures
        distinct_ids(s.update(j, x)),
        cache_map(s.update(j, x)) == cache_map(s).insert(x.token_id@, entry_of(x)),
{
    let t = s.update(j, x);
    assert forall|a: int, b: int| 0 <= a < b < t.len() implies #[trigger] t[a].token_id@ != #[trigger] t[b].token_id@ by {
        assert(t[a].token_id@ == s[a].token_id@);
        assert(t[b].token_id@ == s[b].token_id@);
    }
    let m = cache_map(s).insert(x.token_id@, entry_of(x));
    assert forall|k: Seq<char>| #[trigger] cache_map(t).dom().contains(k) <==> m.dom().contains(k) by {
        if holds_id(t, k) {
            let i = choose|i: int| 0 <= i < t.len() && #[trigger] t[i].token_id@ == k;
            assert(t[i].token_id@ == s[i].token_id@);
            assert(holds_id(s, k));
        }
        if holds_id(s, k) {
            let i = choose|i: int| 0 <= i < s.len() && #[trigger] s[i].token_id@ == k;
            assert(t[i].token_id@ == s[i].token_id@);
            assert(holds_id(t, k));
        }
    }
    assert forall|k: Seq<char>| #[trigger] cache_map(t).dom().contains(k) implies cache_map(t)[k] == m[k] by {
        let i = choose|i: int| 0 <= i < t.len() && #[trigger] t[i].token_id@ == k;
        lemma_cache_lookup(t, i);
        if i != j {
            assert(t[i] == s[i]);
            lemma_cache_lookup(s, i);
            assert(s[i].token_id@ != s[j].token_id@);
        }
    }
    assert(cache_map(t) =~= m);
}

proof fn lemma_cache_remove(s: Seq<TokenInfo>, j: int)
    requires
        distinct_ids(s),
        0 <= j < s.len(),
    ensures
        distinct_ids(s.remove(j)),
        cache_map(s.remove(j)) == cache_map(s).remove(s[j].token_id@),
{
    let t = s.remove(j);
    assert forall|a: int, b: int| 0 <= a < b < t.len() implies #[trigger] t[a].token_id@ != #[trigger] t[b].token_id@ by {
        let a2 = if a < j { a } else { a + 1 };
        let b2 = if b < j { b } else { b + 1 };
        assert(t[a] == s[a2] && t[b] == s[b2]);
    }
    let m = cache_map(s).remove(s[j].token_id@);
    assert forall|k: Seq<char>| #[trigger] cache_map(t).dom().contains(k) <==> m.dom().contains(k) by {
        if holds_id(t, k) {
            let i = choose|i: int| 0 <= i < t.len() && #[trigger] t[i].token_id@ == k;
            let i2 = if i < j { i } else { i + 1 };
            assert(t[i] == s[i2]);
            assert(holds_id(s, k));
            assert(s[i2].token_id@ != s[j].token_id@);
        }
        if holds_id(s, k) && k != s[j].token_id@ {
            let i = choose|i: int| 0 <= i < s.len() && #[trigger] s[i].token_id@ == k;
            let i2 = if i < j { i } else { i - 1 };
            assert(t[i2] == s[i]);
            assert(holds_id(t, k));
        }
    }
    assert forall|k: Seq<char>| #[trigger] cache_map(t).dom().contains(k) implies cache_map(t)[k] == m[k] by {
        let i = choose|i: int| 0 <= i < t.len() && #[trigger] t[i].token_id@ == k;
        let i2 = if i < j { i } else { i + 1 };
        assert(t[i] == s[i2]);
        lemma_cache_lookup(t, i);
        lemma_cache_lookup(s, i2);
    }
    assert(cache_map(t) =~= m);
}

/// The map of distinct records has one key per record.
pub proof fn lemma_cache_len(s: Seq<TokenInfo>)
    requires
        distinct_ids(s),
    ensures
        cache_map(s).dom().finite(),
        cache_map(s).dom().len() == s.len(),
    decreases s.len(),
{
    if s.len() == 0 {
        assert(cache_map(s).dom() =~= Set::<Seq<char>>::empty());
    } else {
        let d = s.drop_last();
        assert(d.push(s.last()) =~= s);
        assert(distinct_ids(d)) by {
            assert forall|a: int, b: int| 0 <= a < b < d.len() implies #[trigger] d[a].token_id@ != #[trigger] d[b].token_id@ by {
                assert(d[a] == s[a] && d[b] == s[b]);
            }
        }
        assert(!holds_id(d, s.last().token_id@)) by {
            if holds_id(d, s.last().token_id@) {
                let i = choose|i: int| 0 <= i < d.len() && #[trigger] d[i].token_id@ == s.last().token_id@;
                assert(d[i] == s[i]);
                assert(s[i].token_id@ != s[s.len() - 1].token_id@);
            }
        }
        lemma_cache_len(d);
        lemma_cache_push(d, s.last());
        assert(cache_map(s).dom() =~= cache_map(d).dom().insert(s.last().token_id@));
    }
}

proof fn lemma_filter_distinct(s: Seq<TokenInfo>, keep: spec_fn(TokenInfo) -> bool)
    requires
        distinct_ids(s),
    ensures
        distinct_ids(s.filter(keep)),
    decreases s.len(),
{
    if s.len() > 0 {
        let d = s.drop_last();
        assert(distinct_ids(d)) by {
            assert forall|a: int, b: int| 0 <= a < b < d.len() implies #[trigger] d[a].token_id@ != #[trigger] d[b].token_id@ by {
                assert(d[a] == s[a] && d[b] == s[b]);
            }
        }
        lemma_filter_distinct(d, keep);
        let f = d.filter(keep);
        assert(d.push(s.last()) =~= s);
        d.lemma_filter_push(s.last(), keep);
        if keep(s.last()) {
            let t = f.push(s.last());
            assert(s.filter(keep) == t);
            assert forall|a: int, b: int| 0 <= a < b < t.len() implies #[trigger] t[a].token_id@ != #[trigger] t[b].token_id@ by {
                if b == f.len() {
                    assert(t[a] == f[a]);
                    assert(f.contains(f[a]));
                    d.lemma_filter_contains_rev(keep, f[a]);
                    let i = choose|i: int| 0 <= i < d.len() && d[i] == f[a];
                    assert(d[i] == s[i]);
                    assert(s[i].token_id@ != s[s.len() - 1].token_id@);
                } else {
                    assert(t[a] == f[a] && t[b] == f[b]);
                }
            }
        } else {
            assert(s.filter(keep) == f);
        }
    }
}

/// Whether a record was stored at or after the second `c`.
pub open spec fn stored_since(c: int) -> spec_fn(TokenInfo) -> bool {
    |t: TokenInfo| t.created_at >= c
}

/// The sum of the records' use counts.
pub open spec fn access_total(s: Seq<TokenInfo>) -> nat
    decreases s.len(),
{
    if s.len() == 0 {
        0
    } else {
        access_total(s.drop_last()) + s.last().access_count as nat
    }
}

/// The earliest storing time among the records (of a non-empty sequence).
pub open spec fn oldest_created(s: Seq<TokenInfo>) -> int
    decreases s.len(),
{
    if s.len() <= 1 {
        s[0].created_at as int
    } else if s.last().created_at < oldest_created(s.drop_last()) {
        s.last().created_at as int
    } else {
        oldest_created(s.drop_last())
    }
}

/// `x` brought into the range of `i64`.
pub open spec fn clamp_i64(x: int) -> i64 {
    if x < i64::MIN {
        i64::MIN
    } else if x > i64::MAX {
        i64::MAX
    } else {
        x as i64
    }
}

/// Counters of the stored tokens.
#[derive(Debug, Clone, Copy, PartialEq, Eq)]
pub struct SecurityStats {
    /// How many tokens are stored.
    pub active_tokens: usize,
    /// The uses of all stored tokens (stopping at the largest `u64`).
    pub total_access_count: u64,
    /// How long ago the oldest stored token was stored, in seconds.
    pub oldest_token_age_seconds: Option<i64>,
}

/// The token service. Token records are kept by id, at most one per id.
pub struct SecurityService {
    token_encryption: TokenEncryption,
    config: SecurityConfig,
    token_cache: Vec<TokenInfo>,
}

/// The service that the rest of the application uses for security.
pub type SecurityManager = SecurityService;

impl SecurityService {
    #[verifier::type_invariant]
    spec fn well_formed(self) -> bool {
        &&& distinct_ids(self.token_cache@)
        &&& self.token_encryption.key() == padded_key(self.config.encryption_key@)
    }

    /// The key that tokens are encrypted with.
    pub closed spec fn key(&self) -> Seq<u8> {
        self.token_encryption.key()
    }

    /// The settings the service was made with.
    pub closed spec fn config_view(&self) -> SecurityConfig {
        self.config
    }

    /// The token records, in the order they were stored.
    pub closed spec fn tokens(&self) -> Seq<TokenInfo> {
        self.token_cache@
    }

    /// The stored tokens, by id.
    pub open spec fn cache(&self) -> Map<Seq<char>, TokenEntry> {
        cache_map(self.tokens())
    }

    /// A service with no stored token, encrypting with the key made from the
    /// configured passphrase.
    pub fn with_config(config: SecurityConfig) -> (s: Self)
        ensures
            s.config_view() == config,
            s.tokens().len() == 0,
            s.key() == padded_key(config.encryption_key@),
    {
        let token_encryption = TokenEncryption::with_passphrase(config.encryption_key.clone());
        SecurityService { token_encryption, config, token_cache: Vec::new() }
    }

    /// A service with no stored token, encrypting with the key made from the
    /// configured passphrase; making the key never fails.
    pub fn new(config: SecurityConfig) -> (r: Result<Self, SecurityError>)
        ensures
            r matches Ok(s) && s.config_view() == config && s.tokens().len() == 0 && s.key() == padded_key(
                config.encryption_key@,
            ),
    {
        match TokenEncryption::new(config.encryption_key.clone()) {
            Ok(_) => Ok(Self::with_config(config)),
            Err(e) => Err(SecurityError::EncryptionError(e.to_display_string())),
        }
    }

    /// The settings the service was made with.
    pub fn get_config(&self) -> (r: &SecurityConfig)
        ensures
            *r == self.config_view(),
    {
        &self.config
    }

    fn position_of(cache: &Vec<TokenInfo>, token_id: &str) -> (r: Option<usize>)
        ensures
            match r {
                Some(j) => j < cache@.len() && cache@[j as int].token_id@ == token_id@,
                None => !holds_id(cache@, token_id@),
            },
    {
        let target = String::from_str(token_id);
        let mut i: usize = 0;
        while i < cache.len()
            invariant
                i <= cache@.len(),
                target@ == token_id@,
                forall|k: int| 0 <= k < i ==> #[trigger] cache@[k].token_id@ != token_id@,
            decreases cache@.len() - i,
        {
            if cache[i].token_id == target {
                return Some(i);
            }
            i = i + 1;
        }
        None
    }

    fn put_entry(cache: &mut Vec<TokenInfo>, info: TokenInfo)
        requires
            distinct_ids(old(cache)@),
        ensures
            distinct_ids(final(cache)@),
            cache_map(final(cache)@) == cache_map(old(cache)@).insert(info.token_id@, entry_of(info)),
    {
        match Self::position_of(cache, info.token_id.as_str()) {
            Some(j) => {
                proof { lemma_cache_update(cache@, j as int, info); }
                cache.set(j, info);
            },
            None => {
                proof { lemma_cache_push(cache@, info); }
                cache.push(info);
            },
        }
    }

    fn touch_entry(cache: &mut Vec<TokenInfo>, token_id: &str, now: i64)
        requires
            distinct_ids(old(cache)@),
        ensures
            distinct_ids(final(cache)@),
            final(cache)@.len() == old(cache)@.len(),
            cache_map(final(cache)@) == touch(cache_map(old(cache)@), token_id@, now),
    {
        match Self::position_of(cache, token_id) {
            Some(j) => {
                let count = cache[j].access_count;
                let info = TokenInfo {
                    token_id: cache[j].token_id.clone(),
                    encrypted_token: cache[j].encrypted_token.clone(),
                    created_at: cache[j].created_at,
                    last_accessed: now,
                    access_count: if count < u64::MAX { count + 1 } else { count },
                };
                proof {
                    lemma_cache_lookup(cache@, j as int);
                    lemma_cache_update(cache@, j as int, info);
                }
                cache.set(j, info);
            },
            None => {
                assert(!cache_map(cache@).dom().contains(token_id@));
            },
        }
    }

    /// Encrypts a token and stores its record under `token_id`, replacing any
    /// record of that id; the encrypted token decrypts back to the token.
    pub fn encrypt_and_store_token(&mut self, token_id: &str, token: &str) -> (r: Result<String, SecurityError>)
        ensures
            r is Ok <==> encode_utf8(token@).len() <= aes_gcm_max_plaintext(),
            r matches Err(e) ==> e is EncryptionError,
            r matches Ok(enc) ==> decrypt_token_outcome(final(self).key(), enc@) == Ok::<Seq<char>, EncryptionErrorKind>(token@),
            r matches Ok(enc) ==> enc@.len() > 0,
            r matches Ok(enc) ==> exists|now: i64| #[trigger] final(self).cache() == old(self).cache().insert(token_id@, fresh_entry(enc@, now)),
            r is Err ==> final(self).cache() == old(self).cache() && final(self).tokens() == old(self).tokens(),
            final(self).key() == old(self).key(),
            final(self).config_view() == old(self).config_view(),
    {
        proof { use_type_invariant(&*self); }
        let encrypted_token = match self.token_encryption.encrypt_token(token) {
            Ok(t) => t,
            Err(e) => return Err(SecurityError::EncryptionError(e.to_display_string())),
        };
        let now = unix_time_now();
        let info = TokenInfo {
            token_id: String::from_str(token_id),
            encrypted_token: encrypted_token.clone(),
            created_at: now,
            last_accessed: now,
            access_count: 0,
        };
        let mut cache: Vec<TokenInfo> = Vec::new();
        std::mem::swap(&mut cache, &mut self.token_cache);
        Self::put_entry(&mut cache, info);
        self.token_cache = cache;
        assert(self.cache() == old(self).cache().insert(token_id@, fresh_entry(encrypted_token@, now)));
        Ok(encrypted_token)
    }

    /// Decrypts a token; when it succeeds, the record of `token_id`, if any,
    /// counts one more use.
    pub fn decrypt_token(&mut self, token_id: &str, encrypted_token: &str) -> (r: Result<String, SecurityError>)
        ensures
            match decrypt_token_outcome(old(self).key(), encrypted_token@) {
                Ok(t) => r matches Ok(s) && s@ == t,
                Err(_) => r matches Err(e) && e is DecryptionError,
            },
            r is Err ==> final(self).cache() == old(self).cache() && final(self).tokens() == old(self).tokens(),
            r is Ok ==> exists|now: i64| #[trigger] touch(old(self).cache(), token_id@, now) == final(self).cache(),
            final(self).tokens().len() == old(self).tokens().len(),
            final(self).key() == old(self).key(),
            final(self).config_view() == old(self).config_view(),
    {
        proof { use_type_invariant(&*self); }
        let decrypted = match self.token_encryption.decrypt_token(encrypted_token) {
            Ok(t) => t,
            Err(e) => return Err(SecurityError::DecryptionError(e.to_display_string())),
        };
        let now = unix_time_now();
        let mut cache: Vec<TokenInfo> = Vec::new();
        std::mem::swap(&mut cache, &mut self.token_cache);
        Self::touch_entry(&mut cache, token_id, now);
        self.token_cache = cache;
        assert(touch(old(self).cache(), token_id@, now) == self.cache());
        Ok(decrypted)
    }

    /// Encrypts every token of the (id, token) pairs, whose ids are distinct
    /// (a map's entries), and stores their records;
    /// any failure leaves the records as they were.
    pub fn encrypt_multiple_tokens(&mut self, tokens: &Vec<(String, String)>) -> (r: Result<Vec<(String, String)>, SecurityError>)
        requires
            keys_of(tokens@).no_duplicates(),
        ensures
            r is Ok <==> (forall|i: int| 0 <= i < tokens@.len() ==> encode_utf8(#[trigger] tokens@[i].1@).len() <= aes_gcm_max_plaintext()),
            r matches Err(e) ==> e is EncryptionError,
            r is Err ==> final(self).cache() == old(self).cache() && final(self).tokens() == old(self).tokens(),
            r matches Ok(v) ==> v@.len() == tokens@.len() && keys_of(v@) == keys_of(tokens@),
            r matches Ok(v) ==> forall|i: int| 0 <= i < v@.len()
                ==> decrypt_token_outcome(final(self).key(), #[trigger] v@[i].1@) == Ok::<Seq<char>, EncryptionErrorKind>(tokens@[i].1@),
            r matches Ok(v) ==> exists|now: i64| #[trigger] store_all(old(self).cache(), pair_views(v@), now) == final(self).cache(),
            final(self).key() == old(self).key(),
            final(self).config_view() == old(self).config_view(),
    {
        proof { use_type_invariant(&*self); }
        let encrypted = match self.token_encryption.encrypt_tokens(tokens) {
            Ok(v) => v,
            Err(e) => return Err(SecurityError::EncryptionError(e.to_display_string())),
        };
        let now = unix_time_now();
        let mut cache: Vec<TokenInfo> = Vec::new();
        std::mem::swap(&mut cache, &mut self.token_cache);
        let ghost ps = pair_views(encrypted@);
        let ghost start = cache_map(cache@);
        let mut i: usize = 0;
        assert(ps.subrange(0, ps.len() as int) =~= ps);
        while i < encrypted.len()
            invariant
                i <= encrypted@.len(),
                ps == pair_views(encrypted@),
                distinct_ids(cache@),
                store_all(start, ps, now) == store_all(cache_map(cache@), ps.subrange(i as int, ps.len() as int), now),
            decreases encrypted@.len() - i,
        {
            let ghost rest = ps.subrange(i as int, ps.len() as int);
            assert(rest.drop_first() =~= ps.subrange(i as int + 1, ps.len() as int));
            let info = TokenInfo {
                token_id: encrypted[i].0.clone(),
                encrypted_token: encrypted[i].1.clone(),
                created_at: now,
                last_accessed: now,
                access_count: 0,
            };
            Self::put_entry(&mut cache, info);
            i = i + 1;
        }
        assert(ps.subrange(i as int, ps.len() as int) =~= Seq::<(Seq<char>, Seq<char>)>::empty());
        self.token_cache = cache;
        assert(store_all(old(self).cache(), pair_views(encrypted@), now) == self.cache());
        Ok(encrypted)
    }

    /// Decrypts every token of the (id, encrypted token) pairs, whose ids are
    /// distinct (a map's entries); when all
    /// succeed, the record of each id, if any, counts one more use.
    pub fn decrypt_multiple_tokens(&mut self, encrypted_tokens: &Vec<(String, String)>) -> (r: Result<
        Vec<(String, String)>,
        SecurityError,
    >)
        requires
            keys_of(encrypted_tokens@).no_duplicates(),
        ensures
            match decrypt_all_outcome(old(self).key(), pair_views(encrypted_tokens@)) {
                Ok(v) => r matches Ok(d) && pair_views(d@) == v,
                Err(_) => r matches Err(e) && e is DecryptionError,
            },
            r is Err ==> final(self).cache() == old(self).cache() && final(self).tokens() == old(self).tokens(),
            r is Ok ==> exists|now: i64| #[trigger] touch_all(old(self).cache(), keys_of(encrypted_tokens@), now) == final(self).cache(),
            final(self).key() == old(self).key(),
            final(self).config_view() == old(self).config_view(),
    {
        proof { use_type_invariant(&*self); }
        let decrypted = match self.token_encryption.decrypt_tokens(encrypted_tokens) {
            Ok(v) => v,
            Err(e) => return Err(SecurityError::DecryptionError(e.to_display_string())),
        };
        let now = unix_time_now();
        let mut cache: Vec<TokenInfo> = Vec::new();
        std::mem::swap(&mut cache, &mut self.token_cache);
        let ghost ks = keys_of(encrypted_tokens@);
        let ghost start = cache_map(cache@);
        let mut i: usize = 0;
        assert(ks.subrange(0, ks.len() as int) =~= ks);
        while i < encrypted_tokens.len()
            invariant
                i <= encrypted_tokens@.len(),
                ks == keys_of(encrypted_tokens@),
                distinct_ids(cache@),
                touch_all(start, ks, now) == touch_all(cache_map(cache@), ks.subrange(i as int, ks.len() as int), now),
            decreases encrypted_tokens@.len() - i,
        {
            let ghost rest = ks.subrange(i as int, ks.len() as int);
            assert(rest.drop_first() =~= ks.subrange(i as int + 1, ks.len() as int));
            assert(rest[0] == encrypted_tokens@[i as int].0@);
            Self::touch_entry(&mut cache, encrypted_tokens[i].0.as_str(), now);
            i = i + 1;
        }
        assert(ks.subrange(i as int, ks.len() as int) =~= Seq::<Seq<char>>::empty());
        self.token_cache = cache;
        assert(touch_all(old(self).cache(), keys_of(encrypted_tokens@), now) == self.cache());
        Ok(decrypted)
    }

    /// Whether a request's token is one this service issued: a non-empty text
    /// that decrypts under the service's key.
    pub fn verify_api_request(&self, token: &str) -> (r: Result<bool, SecurityError>)
        ensures
            r == Ok::<bool, SecurityError>(token@.len() > 0 && decrypt_token_outcome(self.key(), token@) is Ok),
    {
        if token.unicode_len() == 0 {
            return Ok(false);
        }
        match self.token_encryption.decrypt_token(token) {
            Ok(_) => Ok(true),
            Err(_) => Ok(false),
        }
    }

    /// Handles a detected unauthorized access; the token, when one is given
    /// and not empty, is checked, and the handling always succeeds.
    pub fn detect_unauthorized_access(&self, request_info: &str, token: Option<&str>) -> (r: Result<(), SecurityError>)
        ensures
            r is Ok,
    {
        match token {
            Some(t) => {
                if t.unicode_len() > 0 {
                    let _ = self.verify_api_request(t);
                }
            },
            None => {},
        }
        Ok(())
    }

    /// Removes the record of a token.
    pub fn invalidate_token(&mut self, token_id: &str) -> (r: Result<(), SecurityError>)
        ensures
            r is Ok,
            final(self).cache() == old(self).cache().remove(token_id@),
            final(self).key() == old(self).key(),
            final(self).config_view() == old(self).config_view(),
    {
        proof { use_type_invariant(&*self); }
        let mut cache: Vec<TokenInfo> = Vec::new();
        std::mem::swap(&mut cache, &mut self.token_cache);
        match Self::position_of(&cache, token_id) {
            Some(j) => {
                proof { lemma_cache_remove(cache@, j as int); }
                let _ = cache.remove(j);
            },
            None => {
                assert(cache_map(cache@) =~= cache_map(cache@).remove(token_id@));
            },
        }
        self.token_cache = cache;
        Ok(())
    }

    /// Removes every record and tells how many there were.
    pub fn invalidate_all_tokens(&mut self) -> (r: Result<usize, SecurityError>)
        ensures
            r == Ok::<usize, SecurityError>(old(self).tokens().len() as usize),
            final(self).tokens().len() == 0,
            final(self).cache() == Map::<Seq<char>, TokenEntry>::empty(),
            final(self).key() == old(self).key(),
            final(self).config_view() == old(self).config_view(),
    {
        proof { use_type_invariant(&*self); }
        let count = self.token_cache.len();
        self.token_cache = Vec::new();
        assert(self.cache() =~= Map::<Seq<char>, TokenEntry>::empty());
        Ok(count)
    }

    /// A copy of the record of a token, if it is stored.
    pub fn get_token_info(&self, token_id: &str) -> (r: Result<Option<TokenInfo>, SecurityError>)
        ensures
            r matches Ok(o) && match o {
                Some(t) => self.cache().dom().contains(token_id@) && t.token_id@ == token_id@ && entry_of(t) == self.cache()[token_id@],
                None => !self.cache().dom().contains(token_id@),
            },
    {
        proof { use_type_invariant(self); }
        match Self::position_of(&self.token_cache, token_id) {
            Some(j) => {
                let c = &self.token_cache[j];
                let t = TokenInfo {
                    token_id: c.token_id.clone(),
                    encrypted_token: c.encrypted_token.clone(),
                    created_at: c.created_at,
                    last_accessed: c.last_accessed,
                    access_count: c.access_count,
                };
                proof { lemma_cache_lookup(self.token_cache@, j as int); }
                Ok(Some(t))
            },
            None => Ok(None),
        }
    }

    /// How many tokens are stored.
    pub fn get_active_token_count(&self) -> (r: usize)
        ensures
            r == self.tokens().len(),
            r == self.cache().dom().len(),
    {
        proof {
            use_type_invariant(self);
            lemma_cache_len(self.token_cache@);
        }
        self.token_cache.len()
    }
    /// Removes the records stored before `max_age_hours` hours ahead of `now`
    /// (seconds since the Unix epoch), keeping the others in order, and tells
    /// how many it removed.
    pub fn cleanup_expired_tokens_at(&mut self, now: i64, max_age_hours: i64) -> (r: Result<usize, SecurityError>)
        ensures
            final(self).tokens() == old(self).tokens().filter(stored_since(cutoff(now, max_age_hours))),
            r == Ok::<usize, SecurityError>((old(self).tokens().len() - final(self).tokens().len()) as usize),
            final(self).key() == old(self).key(),
            final(self).config_view() == old(self).config_view(),
    {
        proof { use_type_invariant(&*self); }
        let limit: i128 = now as i128 - (max_age_hours as i128) * 3600;
        let ghost keep = stored_since(cutoff(now, max_age_hours));
        let mut rest: Vec<TokenInfo> = Vec::new();
        std::mem::swap(&mut rest, &mut self.token_cache);
        let ghost orig = rest@;
        let mut kept: Vec<TokenInfo> = Vec::new();
        let mut removed: usize = 0;
        let mut i: usize = 0;
        let n = rest.len();
        assert(n == orig.len());
        assert(orig.subrange(0, 0) =~= Seq::<TokenInfo>::empty());
        proof { reveal_with_fuel(Seq::<TokenInfo>::filter, 1); }
        while rest.len() > 0
            invariant
                i <= orig.len(),
                rest@ == orig.subrange(i as int, orig.len() as int),
                kept@ == orig.subrange(0, i as int).filter(keep),
                kept@.len() + removed == i,
                orig.len() <= usize::MAX,
                limit == cutoff(now, max_age_hours),
                keep == stored_since(cutoff(now, max_age_hours)),
                distinct_ids(orig),
            decreases rest@.len(),
        {
            let x = rest.remove(0);
            proof {
                assert(orig.subrange(0, i as int).push(x) =~= orig.subrange(0, i as int + 1));
                orig.subrange(0, i as int).lemma_filter_push(x, keep);
                assert(rest@ =~= orig.subrange(i as int + 1, orig.len() as int));
            }
            if (x.created_at as i128) >= limit {
                kept.push(x);
            } else {
                removed = removed + 1;
            }
            i = i + 1;
        }
        assert(orig.subrange(0, i as int) =~= orig);
        proof { lemma_filter_distinct(orig, keep); }
        self.token_cache = kept;
        Ok(removed)
    }

    /// Removes the records older than `max_age_hours` hours, keeping the
    /// others in order, and tells how many it removed.
    pub fn cleanup_expired_tokens(&mut self, max_age_hours: i64) -> (r: Result<usize, SecurityError>)
        requires
            -MAX_TOKEN_AGE_HOURS <= max_age_hours <= MAX_TOKEN_AGE_HOURS,
        ensures
            exists|now: i64| #[trigger] old(self).tokens().filter(stored_since(cutoff(now, max_age_hours))) == final(self).tokens(),
            r == Ok::<usize, SecurityError>((old(self).tokens().len() - final(self).tokens().len()) as usize),
            final(self).key() == old(self).key(),
            final(self).config_view() == old(self).config_view(),
    {
        let now = unix_time_now();
        self.cleanup_expired_tokens_at(now, max_age_hours)
    }

    /// The counters of the stored tokens at `now` (seconds since the Unix epoch).
    pub fn security_stats_at(&self, now: i64) -> (r: SecurityStats)
        ensures
            r.active_tokens == self.tokens().len(),
            r.total_access_count == (if access_total(self.tokens()) <= u64::MAX { access_total(self.tokens()) as u64 } else { u64::MAX }),
            r.oldest_token_age_seconds == (if self.tokens().len() == 0 {
                None::<i64>
            } else {
                Some(clamp_i64(now - oldest_created(self.tokens())))
            }),
    {
        let s = &self.token_cache;
        let mut total: u64 = 0;
        let mut oldest: i64 = 0;
        let mut i: usize = 0;
        while i < s.len()
            invariant
                i <= s@.len(),
                total == (if access_total(s@.subrange(0, i as int)) <= u64::MAX {
                    access_total(s@.subrange(0, i as int)) as u64
                } else {
                    u64::MAX
                }),
                i > 0 ==> oldest == oldest_created(s@.subrange(0, i as int)),
            decreases s@.len() - i,
        {
            let ghost before = s@.subrange(0, i as int);
            let ghost after = s@.subrange(0, i as int + 1);
            assert(after.drop_last() =~= before);
            assert(after.last() == s@[i as int]);
            assert(access_total(after) == access_total(before) + s@[i as int].access_count);
            let c = s[i].access_count;
            total = if total <= u64::MAX - c { total + c } else { u64::MAX };
            if i == 0 || s[i].created_at < oldest {
                oldest = s[i].created_at;
            }
            i = i + 1;
        }
        assert(s@.subrange(0, i as int) =~= s@);
        let age = if s.len() == 0 {
            None
        } else {
            let d: i128 = now as i128 - oldest as i128;
            Some(
                if d < i64::MIN as i128 {
                    i64::MIN
                } else if d > i64::MAX as i128 {
                    i64::MAX
                } else {
                    d as i64
                },
            )
        };
        SecurityStats { active_tokens: s.len(), total_access_count: total, oldest_token_age_seconds: age }
    }

    /// The counters of the stored tokens now.
    pub fn get_security_stats(&self) -> (r: Result<SecurityStats, SecurityError>)
        ensures
            r matches Ok(st) && exists|now: i64| #[trigger] self.security_stats_spec(now) == st,
    {
        let now = unix_time_now();
        let st = self.security_stats_at(now);
        assert(self.security_stats_spec(now) == st);
        Ok(st)
    }

    /// The counters of the stored tokens at `now`.
    pub open spec fn security_stats_spec(&self, now: i64) -> SecurityStats {
        SecurityStats {
            active_tokens: self.tokens().len() as usize,
            total_access_count: if access_total(self.tokens()) <= u64::MAX { access_total(self.tokens()) as u64 } else { u64::MAX },
            oldest_token_age_seconds: if self.tokens().len() == 0 {
                None
            } else {
                Some(clamp_i64(now - oldest_created(self.tokens())))
            },
        }
    }
}

} // verus!
