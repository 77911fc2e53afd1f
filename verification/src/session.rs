//! Durable, TTL-bound storage of refresh tokens.
//!
//! A refresh token is an opaque random string owned by one user and valid
//! until an absolute expiry. The store keeps one self-contained record per
//! token, keyed by the token string itself, so validating a bare token needs
//! no knowledge of the owning user; bulk revocation walks the records by
//! owner. The store's abstract state is the map from token strings to
//! `(owning user id, absolute expiry)`.

use vstd::prelude::*;

use crate::errors::AuthError;

verus! {

/// A stored refresh-token record: the opaque token string, its owning user,
/// and its absolute expiry (UTC seconds). Self-contained, so a record alone
/// suffices to validate the token it names.
#[derive(Debug)]
pub struct RefreshToken {
    pub user_id: i64,
    pub token: String,
    pub expires_at: i64,
}

impl Clone for RefreshToken {
    fn clone(&self) -> (res: RefreshToken)
        ensures
            res == *self,
    {
        RefreshToken {
            user_id: self.user_id,
            token: self.token.clone(),
            expires_at: self.expires_at,
        }
    }
}

/// The association a sequence of records represents: each token string maps
/// to the owning user id and absolute expiry of its last record.
pub open spec fn session_map(s: Seq<RefreshToken>) -> Map<Seq<char>, (i64, i64)>
    decreases s.len(),
{
    if s.len() == 0 {
        Map::empty()
    } else {
        session_map(s.drop_last()).insert(
            s.last().token@,
            (s.last().user_id, s.last().expires_at),
        )
    }
}

/// Whether `token` names a session of `m` that is still live at time `now`:
/// present and not yet expired.
pub open spec fn session_valid(m: Map<Seq<char>, (i64, i64)>, token: Seq<char>, now: i64) -> bool {
    m.contains_key(token) && now < m[token].1
}

/// No two records carry the same token string.
pub open spec fn tokens_unique(s: Seq<RefreshToken>) -> bool {
    forall|i: int, j: int| 0 <= i < j < s.len() ==> s[i].token@ != s[j].token@
}

proof fn lemma_session_map_push(s: Seq<RefreshToken>, r: RefreshToken)
    ensures
        session_map(s.push(r)) == session_map(s).insert(r.token@, (r.user_id, r.expires_at)),
{
    assert(s.push(r).drop_last() =~= s);
    assert(s.push(r).last() == r);
}

/// A token string is in the represented map exactly when some record
/// carries it.
proof fn lemma_session_map_covers(s: Seq<RefreshToken>, t: Seq<char>)
    ensures
        session_map(s).contains_key(t) <==> exists|i: int| 0 <= i < s.len() && s[i].token@ == t,
    decreases s.len(),
{
    if s.len() > 0 {
        lemma_session_map_covers(s.drop_last(), t);
        if session_map(s).contains_key(t) {
            if s.last().token@ == t {
                assert(s[s.len() - 1].token@ == t);
            } else {
                let i = choose|i: int|
                    0 <= i < s.drop_last().len() && s.drop_last()[i].token@ == t;
                assert(s[i].token@ == t);
            }
        }
        if exists|i: int| 0 <= i < s.len() && s[i].token@ == t {
            let i = choose|i: int| 0 <= i < s.len() && s[i].token@ == t;
            if i < s.len() - 1 {
                assert(s.drop_last()[i].token@ == t);
            }
        }
    }
}

/// Under unique tokens, the represented map sends each record's token to
/// that record's user id and expiry.
proof fn lemma_session_map_value(s: Seq<RefreshToken>, i: int)
    requires
        tokens_unique(s),
        0 <= i < s.len(),
    ensures
        session_map(s).contains_key(s[i].token@),
        session_map(s)[s[i].token@] == (s[i].user_id, s[i].expires_at),
    decreases s.len(),
{
    if i < s.len() - 1 {
        assert(tokens_unique(s.drop_last())) by {
            assert(forall|a: int, b: int|
                0 <= a < b < s.drop_last().len() ==> s.drop_last()[a] == s[a]
                    && s.drop_last()[b] == s[b]);
        }
        lemma_session_map_value(s.drop_last(), i);
        assert(s.drop_last()[i] == s[i]);
        assert(s[i].token@ != s.last().token@);
    }
}

/// TTL-bound refresh-token store with the token string as primary key, plus
/// a per-user walk for bulk revocation, so single-token lookup needs no
/// scan over foreign keys.
pub struct SessionStore {
    records: Vec<RefreshToken>,
}

impl View for SessionStore {
    type V = Map<Seq<char>, (i64, i64)>;

    closed spec fn view(&self) -> Map<Seq<char>, (i64, i64)> {
        session_map(self.records@)
    }
}

impl SessionStore {
    /// Internal invariant: token strings are unique across records, so the
    /// represented map determines each record.
    pub closed spec fn wf(&self) -> bool {
        tokens_unique(self.records@)
    }

    /// An empty store.
    pub fn new() -> (r: SessionStore)
        ensures
            r.wf(),
            r@ == Map::<Seq<char>, (i64, i64)>::empty(),
    {
        SessionStore { records: Vec::new() }
    }

    /// Store a refresh token for `user_id`, valid until `expires_at` (UTC
    /// seconds). A record already carrying the same token string is
    /// replaced. The in-memory store is always available, so the operation
    /// always succeeds; the `Result` is the port's shape.
    pub fn save_refresh_token(&mut self, user_id: i64, token: String, expires_at: i64) -> (r:
        Result<(), AuthError>)
        requires
            old(self).wf(),
        ensures
            final(self).wf(),
            final(self)@ == old(self)@.insert(token@, (user_id, expires_at)),
            r is Ok,
    {
        let _ = self.remove_refresh_token(&token);
        proof {
            lemma_session_map_covers(self.records@, token@);
            assert(old(self)@.remove(token@).insert(token@, (user_id, expires_at)) =~= old(
                self,
            )@.insert(token@, (user_id, expires_at)));
        }
        let ghost mid = self.records@;
        self.records.push(RefreshToken { user_id, token, expires_at });
        proof {
            lemma_session_map_push(mid, self.records@.last());
            assert(forall|k: int| 0 <= k < mid.len() ==> mid[k].token@ != token@);
        }
        Ok(())
    }

    /// Look up the bare token string and check its expiry at time `now`.
    /// Succeeds exactly on a live session, returning its self-contained
    /// record; an absent or expired token fails `InvalidCredentials`.
    pub fn validate_refresh_token(&self, token: &String, now: i64) -> (r: Result<
        RefreshToken,
        AuthError,
    >)
        requires
            self.wf(),
        ensures
            r is Ok <==> session_valid(self@, token@, now),
            r matches Ok(rt) ==> {
                &&& rt.token@ == token@
                &&& rt.user_id == self@[token@].0
                &&& rt.expires_at == self@[token@].1
            },
            r matches Err(e) ==> e == AuthError::InvalidCredentials,
    {
        let n = self.records.len();
        for i in 0..n
            invariant
                n == self.records@.len(),
                tokens_unique(self.records@),
                self@ == session_map(self.records@),
                forall|k: int| 0 <= k < i ==> self.records@[k].token@ != token@,
        {
            if self.records[i].token == *token {
                proof {
                    lemma_session_map_value(self.records@, i as int);
                }
                let rec = &self.records[i];
                if now < rec.expires_at {
                    return Ok(rec.clone());
                } else {
                    return Err(AuthError::InvalidCredentials);
                }
            }
        }
        proof {
            lemma_session_map_covers(self.records@, token@);
        }
        Err(AuthError::InvalidCredentials)
    }

    /// Delete the record carrying `token`, if any. Idempotent: absence is
    /// not an error, so a repeated logout succeeds.
    pub fn remove_refresh_token(&mut self, token: &String) -> (r: Result<(), AuthError>)
        requires
            old(self).wf(),
        ensures
            final(self).wf(),
            final(self)@ == old(self)@.remove(token@),
            r is Ok,
    {
        let ghost orig = self.records@;
        let mut kept: Vec<RefreshToken> = Vec::new();
        let n = self.records.len();
        for i in 0..n
            invariant
                n == orig.len(),
                self.records@ == orig,
                tokens_unique(orig),
                tokens_unique(kept@),
                forall|k: int| 0 <= k < kept@.len() ==> kept@[k].token@ != token@,
                forall|k: int|
                    0 <= k < kept@.len() ==> exists|j: int|
                        0 <= j < i && #[trigger] kept@[k].token@ == #[trigger] orig[j].token@,
                session_map(kept@) == session_map(orig.take(i as int)).remove(token@),
        {
            let ghost prefix = orig.take(i as int);
            let ghost kept_before = kept@;
            proof {
                assert(orig.take(i as int + 1) =~= prefix.push(orig[i as int]));
                lemma_session_map_push(prefix, orig[i as int]);
            }
            if self.records[i].token == *token {
                proof {
                    assert(session_map(prefix).insert(orig[i as int].token@, (orig[i as int].user_id, orig[i as int].expires_at)).remove(token@)
                        =~= session_map(prefix).remove(token@));
                }
            } else {
                let rec = self.records[i].clone();
                kept.push(rec);
                proof {
                    lemma_session_map_push(kept_before, orig[i as int]);
                    assert forall|k: int| 0 <= k < kept_before.len() implies kept_before[k].token@
                        != orig[i as int].token@ by {
                        let j = choose|j: int|
                            0 <= j < i && kept_before[k].token@ == orig[j].token@;
                        assert(orig[j].token@ != orig[i as int].token@);
                    }
                    assert(session_map(prefix).remove(token@).insert(orig[i as int].token@, (orig[i as int].user_id, orig[i as int].expires_at))
                        =~= session_map(prefix).insert(orig[i as int].token@, (orig[i as int].user_id, orig[i as int].expires_at)).remove(token@));
                }
            }
            proof {
                assert forall|k: int| 0 <= k < kept@.len() implies exists|j: int|
                    0 <= j < i + 1 && #[trigger] kept@[k].token@ == #[trigger] orig[j].token@ by {
                    if k < kept_before.len() {
                        let j = choose|j: int|
                            0 <= j < i && kept_before[k].token@ == orig[j].token@;
                        assert(kept@[k].token@ == orig[j].token@);
                    } else {
                        assert(kept@[k].token@ == orig[i as int].token@);
                    }
                }
            }
        }
        proof {
            assert(orig.take(n as int) =~= orig);
        }
        self.records = kept;
        Ok(())
    }

    /// Delete every refresh-token record owned by `user_id` ("log out
    /// everywhere"). Sessions of other users are untouched.
    pub fn terminal_user_sessions(&mut self, user_id: i64) -> (r: Result<(), AuthError>)
        requires
            old(self).wf(),
        ensures
            final(self).wf(),
            forall|t: Seq<char>|
                final(self)@.contains_key(t) <==> (old(self)@.contains_key(t) && old(self)@[t].0
                    != user_id),
            forall|t: Seq<char>| final(self)@.contains_key(t) ==> final(self)@[t] == old(self)@[t],
            r is Ok,
    {
        let ghost orig = self.records@;
        let mut kept: Vec<RefreshToken> = Vec::new();
        let n = self.records.len();
        for i in 0..n
            invariant
                n == orig.len(),
                self.records@ == orig,
                tokens_unique(orig),
                tokens_unique(kept@),
                forall|t: Seq<char>|
                    session_map(kept@).contains_key(t) <==> (session_map(
                        orig.take(i as int),
                    ).contains_key(t) && session_map(orig.take(i as int))[t].0 != user_id),
                forall|t: Seq<char>|
                    session_map(kept@).contains_key(t) ==> session_map(kept@)[t] == session_map(
                        orig.take(i as int),
                    )[t],
        {
            let ghost prefix = orig.take(i as int);
            let ghost cur = orig[i as int];
            let ghost kept_before = kept@;
            proof {
                assert(orig.take(i as int + 1) =~= prefix.push(cur));
                lemma_session_map_push(prefix, cur);
                lemma_session_map_covers(prefix, cur.token@);
                assert forall|j: int| 0 <= j < prefix.len() implies prefix[j].token@
                    != cur.token@ by {
                    assert(prefix[j] == orig[j]);
                }
                assert(!session_map(prefix).contains_key(cur.token@));
                assert(!session_map(kept_before).contains_key(cur.token@));
                lemma_session_map_covers(kept_before, cur.token@);
            }
            if self.records[i].user_id != user_id {
                let rec = self.records[i].clone();
                kept.push(rec);
                proof {
                    lemma_session_map_push(kept_before, cur);
                    assert forall|t: Seq<char>| #[trigger] session_map(kept@).contains_key(t)
                        implies (session_map(prefix.push(cur)).contains_key(t) && session_map(
                        prefix.push(cur),
                    )[t].0 != user_id && session_map(kept@)[t] == session_map(prefix.push(cur))[t]) by {
                        if t != cur.token@ {
                            assert(session_map(kept_before).contains_key(t));
                        }
                    }
                    assert forall|t: Seq<char>|
                        #[trigger] session_map(prefix.push(cur)).contains_key(t) && session_map(
                        prefix.push(cur),
                    )[t].0 != user_id implies session_map(kept@).contains_key(t) by {
                        if t != cur.token@ {
                            assert(session_map(prefix).contains_key(t));
                        }
                    }
                }
            } else {
                proof {
                    assert forall|t: Seq<char>|
                        #[trigger] session_map(prefix.push(cur)).contains_key(t) && session_map(
                        prefix.push(cur),
                    )[t].0 != user_id implies session_map(kept@).contains_key(t) by {
                        if t != cur.token@ {
                            assert(session_map(prefix).contains_key(t));
                        }
                    }
                }
            }
        }
        proof {
            assert(orig.take(n as int) =~= orig);
        }
        self.records = kept;
        Ok(())
    }
}

} // verus!
