//! The authentication guard: a table of bearer tokens with their expiry.
use crate::calendar::{Instant, InstantView};
use crate::models::{McpError, McpResult, TokenInfo};
use crate::text::{has_prefix, starts_with, str_eq};
use vstd::prelude::*;
use vstd::string::*;

verus! {

/// The scheme that an authorization header must begin with, blank included.
pub const BEARER: &'static str = "Bearer ";

/// A token with what the table knows of it.
struct TokenEntry {
    token: String,
    info: TokenInfo,
}

/// Whether no token stands twice among the entries.
spec fn distinct(entries: Seq<TokenEntry>) -> bool {
    forall|i: int, j: int|
        0 <= i < j < entries.len() ==> entries[i].token@ != entries[j].token@
}

/// Whether one of the entries is for `token`.
spec fn listed(entries: Seq<TokenEntry>, token: Seq<char>) -> bool {
    exists|i: int| 0 <= i < entries.len() && #[trigger] entries[i].token@ == token
}

/// The entries as a map from token to what is known of it.
spec fn table(entries: Seq<TokenEntry>) -> Map<Seq<char>, TokenInfo> {
    Map::new(
        |token: Seq<char>| listed(entries, token),
        |token: Seq<char>|
            entries[choose|i: int| 0 <= i < entries.len() && #[trigger] entries[i].token@ == token].info,
    )
}

/// Where no token stands twice, the table maps each entry's token to that
/// entry.
proof fn lemma_table_entry(entries: Seq<TokenEntry>, i: int)
    requires
        distinct(entries),
        0 <= i < entries.len(),
    ensures
        table(entries).contains_key(entries[i].token@),
        table(entries)[entries[i].token@] == entries[i].info,
{
    let token = entries[i].token@;
    assert(listed(entries, token));
    let j = choose|j: int| 0 <= j < entries.len() && #[trigger] entries[j].token@ == token;
    if j < i {
        assert(entries[j].token@ != entries[i].token@);
    } else if i < j {
        assert(entries[i].token@ != entries[j].token@);
    }
}

/// Adding an entry for a token that is not listed adds it to the table.
proof fn lemma_table_push(entries: Seq<TokenEntry>, entry: TokenEntry)
    requires
        distinct(entries),
        !listed(entries, entry.token@),
    ensures
        distinct(entries.push(entry)),
        table(entries.push(entry)) == table(entries).insert(entry.token@, entry.info),
{
    let longer = entries.push(entry);
    assert forall|i: int, j: int| 0 <= i < j < longer.len() implies longer[i].token@
        != longer[j].token@ by {
        if j == entries.len() {
            assert(entries[i].token@ != entry.token@);
        }
    }
    let grown = table(entries).insert(entry.token@, entry.info);
    assert forall|token: Seq<char>| table(longer).contains_key(token) implies grown.contains_key(
        token,
    ) && table(longer)[token] == grown[token] by {
        let i = choose|i: int| 0 <= i < longer.len() && #[trigger] longer[i].token@ == token;
        lemma_table_entry(longer, i);
        if i < entries.len() {
            assert(entries[i].token@ == token);
            lemma_table_entry(entries, i);
        }
    }
    assert forall|token: Seq<char>| grown.contains_key(token) implies table(longer).contains_key(
        token,
    ) by {
        if token == entry.token@ {
            assert(longer[entries.len() as int].token@ == token);
        } else {
            let i = choose|i: int| 0 <= i < entries.len() && #[trigger] entries[i].token@ == token;
            assert(longer[i].token@ == token);
        }
    }
    assert(table(longer) =~= grown);
}

/// Taking an entry out takes its token out of the table.
proof fn lemma_table_remove(entries: Seq<TokenEntry>, at: int)
    requires
        distinct(entries),
        0 <= at < entries.len(),
    ensures
        distinct(entries.remove(at)),
        !listed(entries.remove(at), entries[at].token@),
        table(entries.remove(at)) == table(entries).remove(entries[at].token@),
{
    let shorter = entries.remove(at);
    let gone = entries[at].token@;
    assert forall|i: int| 0 <= i < shorter.len() implies #[trigger] shorter[i] == entries[if i
        < at {
        i
    } else {
        i + 1
    }] by {}
    assert forall|i: int, j: int| 0 <= i < j < shorter.len() implies shorter[i].token@
        != shorter[j].token@ by {
        let a = if i < at {
            i
        } else {
            i + 1
        };
        let b = if j < at {
            j
        } else {
            j + 1
        };
        assert(entries[a].token@ != entries[b].token@);
    }
    assert forall|i: int| 0 <= i < shorter.len() implies #[trigger] shorter[i].token@ != gone by {
        let a = if i < at {
            i
        } else {
            i + 1
        };
        if a < at {
            assert(entries[a].token@ != entries[at].token@);
        } else {
            assert(entries[at].token@ != entries[a].token@);
        }
    }
    let shrunk = table(entries).remove(gone);
    assert forall|token: Seq<char>| table(shorter).contains_key(token) implies shrunk.contains_key(
        token,
    ) && table(shorter)[token] == shrunk[token] by {
        let i = choose|i: int| 0 <= i < shorter.len() && #[trigger] shorter[i].token@ == token;
        lemma_table_entry(shorter, i);
        let a = if i < at {
            i
        } else {
            i + 1
        };
        assert(entries[a].token@ == token);
        lemma_table_entry(entries, a);
    }
    assert forall|token: Seq<char>| shrunk.contains_key(token) implies table(shorter).contains_key(
        token,
    ) by {
        let a = choose|a: int| 0 <= a < entries.len() && #[trigger] entries[a].token@ == token;
        let i = if a < at {
            a
        } else {
            a - 1
        };
        assert(shorter[i].token@ == token);
    }
    assert(table(shorter) =~= shrunk);
}

/// How the guard answers a request.
pub enum Verdict {
    /// The request may pass.
    Accepted,
    /// The request is refused with status 401 and this explanation.
    Rejected(Seq<char>),
}

/// What is left of a table of tokens once those that have expired at `now`
/// are taken out.
pub open spec fn unexpired(tokens: Map<Seq<char>, TokenInfo>, now: InstantView) -> Map<
    Seq<char>,
    TokenInfo,
> {
    Map::new(
        |token: Seq<char>|
            tokens.contains_key(token) && !tokens[token].expires_at@.not_after(now),
        |token: Seq<char>| tokens[token],
    )
}

/// The guard's answer to a request with the given authorization header at the
/// instant `now`. A guard that is switched off lets everything pass. One that
/// is on asks for a header that begins with the bearer scheme and goes on
/// with a token that the table holds and that has not expired.
pub open spec fn verdict(
    enabled: bool,
    tokens: Map<Seq<char>, TokenInfo>,
    authorization: Option<Seq<char>>,
    now: InstantView,
) -> Verdict {
    if !enabled {
        Verdict::Accepted
    } else {
        match authorization {
            None => Verdict::Rejected("Authorization header required"@),
            Some(header) => if !has_prefix(header, BEARER@) {
                Verdict::Rejected("Invalid authorization format"@)
            } else {
                let token = header.skip(BEARER@.len() as int);
                if !tokens.contains_key(token) {
                    Verdict::Rejected("Invalid token"@)
                } else if tokens[token].expires_at@.not_after(now) {
                    Verdict::Rejected("Token expired"@)
                } else {
                    Verdict::Accepted
                }
            },
        }
    }
}

/// What `authenticate` returned, as a verdict. An error that is no refusal
/// with status 401 stands for no verdict of the guard.
pub open spec fn as_verdict(result: McpResult<()>) -> Option<Verdict> {
    match result {
        Ok(()) => Some(Verdict::Accepted),
        Err(error) => if error.code == 401 {
            Some(Verdict::Rejected(error.message@))
        } else {
            None
        },
    }
}

/// What the guard decides: switched off, it accepts every request; switched
/// on, it refuses a request without a header, one whose header does not begin
/// with the bearer scheme, one whose token the table does not hold and one
/// whose token has expired, and it accepts a token that the table holds and
/// that expires later than now.
pub proof fn lemma_guard_decisions(
    tokens: Map<Seq<char>, TokenInfo>,
    header: Seq<char>,
    now: InstantView,
)
    ensures
        verdict(false, tokens, Some(header), now) is Accepted,
        verdict(false, tokens, None, now) is Accepted,
        verdict(true, tokens, None, now) == Verdict::Rejected("Authorization header required"@),
        !has_prefix(header, BEARER@) ==> verdict(true, tokens, Some(header), now)
            == Verdict::Rejected("Invalid authorization format"@),
        has_prefix(header, BEARER@) && !tokens.contains_key(header.skip(BEARER@.len() as int))
            ==> verdict(true, tokens, Some(header), now) == Verdict::Rejected("Invalid token"@),
        has_prefix(header, BEARER@) && tokens.contains_key(header.skip(BEARER@.len() as int))
            ==> verdict(true, tokens, Some(header), now) == if tokens[header.skip(
            BEARER@.len() as int,
        )].expires_at@.not_after(now) {
            Verdict::Rejected("Token expired"@)
        } else {
            Verdict::Accepted
        },
{
}

/// The four refusals of the guard can be told apart by their explanations.
pub proof fn lemma_refusals_differ()
    ensures
        "Authorization header required"@ != "Invalid authorization format"@,
        "Authorization header required"@ != "Invalid token"@,
        "Authorization header required"@ != "Token expired"@,
        "Invalid authorization format"@ != "Invalid token"@,
        "Invalid authorization format"@ != "Token expired"@,
        "Invalid token"@ != "Token expired"@,
{
    reveal_strlit("Authorization header required");
    reveal_strlit("Invalid authorization format");
    reveal_strlit("Invalid token");
    reveal_strlit("Token expired");
    assert("Authorization header required"@.len() == 29);
    assert("Invalid authorization format"@.len() == 28);
    assert("Invalid token"@.len() == 13);
    assert("Token expired"@.len() == 13);
    assert("Invalid token"@[0] != "Token expired"@[0]);
}

/// The authentication guard.
pub struct AuthManager {
    enabled: bool,
    entries: Vec<TokenEntry>,
}

impl AuthManager {
    /// Whether no token stands twice in the table.
    pub closed spec fn well_formed(&self) -> bool {
        distinct(self.entries@)
    }

    /// Whether the guard is switched on.
    pub closed spec fn enabled(&self) -> bool {
        self.enabled
    }

    /// The table: what is known of each token.
    pub closed spec fn tokens(&self) -> Map<Seq<char>, TokenInfo> {
        table(self.entries@)
    }

    /// A guard with an empty table.
    pub fn new(enabled: bool) -> (guard: AuthManager)
        ensures
            guard.well_formed(),
            guard.enabled() == enabled,
            guard.tokens() == Map::<Seq<char>, TokenInfo>::empty(),
    {
        let guard = AuthManager { enabled, entries: Vec::new() };
        assert(guard.tokens() =~= Map::<Seq<char>, TokenInfo>::empty());
        guard
    }

    /// The position of the entry for `token`.
    fn find(&self, token: &str) -> (position: Option<usize>)
        ensures
            match position {
                Some(i) => i < self.entries.len() && self.entries[i as int].token@ == token@,
                None => !listed(self.entries@, token@),
            },
    {
        let mut i: usize = 0;
        while i < self.entries.len()
            invariant
                i <= self.entries.len(),
                forall|j: int| 0 <= j < i ==> self.entries[j].token@ != token@,
            decreases self.entries.len() - i,
        {
            if str_eq(self.entries[i].token.as_str(), token) {
                return Some(i);
            }
            i += 1;
        }
        None
    }

    /// The guard's answer to a request with the given authorization header, as
    /// if the clock read `now`.
    pub fn authenticate_at(&self, authorization: Option<&str>, now: &Instant) -> (result:
        McpResult<()>)
        requires
            self.well_formed(),
        ensures
            as_verdict(result) == Some(
                verdict(self.enabled(), self.tokens(), header_view(authorization), now@),
            ),
    {
        if !self.enabled {
            return Ok(());
        }
        let header = match authorization {
            Some(header) => header,
            None => {
                return Err(McpError::new(401, "Authorization header required"));
            },
        };
        if !starts_with(header, BEARER) {
            return Err(McpError::new(401, "Invalid authorization format"));
        }
        proof {
            reveal_strlit("Bearer ");
        }
        let token = header.substring_char(7, header.unicode_len());
        assert(token@ =~= header@.skip(BEARER@.len() as int));
        match self.find(token) {
            Some(i) => {
                proof {
                    lemma_table_entry(self.entries@, i as int);
                }
                if self.entries[i].info.is_expired_at(now) {
                    Err(McpError::new(401, "Token expired"))
                } else {
                    Ok(())
                }
            },
            None => Err(McpError::new(401, "Invalid token")),
        }
    }

    /// The guard's answer to a request with the given authorization header.
    /// The clock is read once.
    pub fn authenticate(&self, authorization: Option<&str>) -> (result: McpResult<()>)
        requires
            self.well_formed(),
        ensures
            exists|now: InstantView|
                now.representable() && as_verdict(result) == Some(
                    #[trigger] verdict(
                        self.enabled(),
                        self.tokens(),
                        header_view(authorization),
                        now,
                    ),
                ),
    {
        let now = Instant::now();
        proof {
            use_type_invariant(&now);
        }
        self.authenticate_at(authorization, &now)
    }

    /// Enters `token` in the table; what was known of it before is replaced.
    pub fn add_token(&mut self, token: String, info: TokenInfo)
        requires
            old(self).well_formed(),
        ensures
            final(self).well_formed(),
            final(self).enabled() == old(self).enabled(),
            final(self).tokens() == old(self).tokens().insert(token@, info),
    {
        match self.find(token.as_str()) {
            Some(i) => {
                proof {
                    lemma_table_remove(self.entries@, i as int);
                }
                self.entries.remove(i);
            },
            None => {},
        }
        proof {
            lemma_table_push(self.entries@, TokenEntry { token, info });
            assert(old(self).tokens().remove(token@).insert(token@, info) =~= old(
                self,
            ).tokens().insert(token@, info));
        }
        self.entries.push(TokenEntry { token, info });
    }

    /// Takes out of the table every token that has expired at `now`.
    pub fn remove_expired_tokens_at(&mut self, now: &Instant)
        requires
            old(self).well_formed(),
        ensures
            final(self).well_formed(),
            final(self).enabled() == old(self).enabled(),
            final(self).tokens() == unexpired(old(self).tokens(), now@),
    {
        let mut i: usize = 0;
        while i < self.entries.len()
            invariant
                i <= self.entries.len(),
                self.enabled == old(self).enabled,
                distinct(self.entries@),
                unexpired(table(self.entries@), now@) == unexpired(table(old(self).entries@), now@),
                forall|j: int|
                    0 <= j < i ==> !(#[trigger] self.entries[j]).info.expires_at@.not_after(now@),
            decreases self.entries.len() - i,
        {
            if self.entries[i].info.is_expired_at(now) {
                proof {
                    lemma_table_entry(self.entries@, i as int);
                    lemma_table_remove(self.entries@, i as int);
                    assert(unexpired(
                        table(self.entries@).remove(self.entries[i as int].token@),
                        now@,
                    ) =~= unexpired(table(self.entries@), now@));
                }
                self.entries.remove(i);
            } else {
                i += 1;
            }
        }
        proof {
            let entries = self.entries@;
            assert forall|token: Seq<char>| table(entries).contains_key(token) implies unexpired(
                table(entries),
                now@,
            ).contains_key(token) by {
                let j = choose|j: int| 0 <= j < entries.len() && #[trigger] entries[j].token@ == token;
                lemma_table_entry(entries, j);
            }
            assert(table(entries) =~= unexpired(table(entries), now@));
        }
    }

    /// Takes out of the table every token that has expired by the system
    /// clock's reading.
    pub fn remove_expired_tokens(&mut self)
        requires
            old(self).well_formed(),
        ensures
            final(self).well_formed(),
            final(self).enabled() == old(self).enabled(),
            exists|now: InstantView|
                now.representable() && final(self).tokens() == #[trigger] unexpired(
                    old(self).tokens(),
                    now,
                ),
    {
        let now = Instant::now();
        proof {
            use_type_invariant(&now);
        }
        self.remove_expired_tokens_at(&now);
    }
}

/// The characters of an optional header.
pub open spec fn header_view(authorization: Option<&str>) -> Option<Seq<char>> {
    match authorization {
        Some(header) => Some(header@),
        None => None,
    }
}

} // verus!
