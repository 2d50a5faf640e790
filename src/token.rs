use vstd::prelude::*;
use crate::error::{Failure, StorageError, token_error};

verus! {

/// A credential minted by a token generator: the bearer string and the
/// instant (seconds since the epoch) from which it is no longer valid.
/// Tokens are never changed; a refresh supersedes one with another.
#[derive(Debug, Clone, PartialEq, Eq)]
pub struct Token {
    pub access_token: String,
    pub expires_at: u64,
}

/// The mathematical value of a `Token`.
pub ghost struct TokenView {
    pub access: Seq<char>,
    pub expires_at: u64,
}

impl View for Token {
    type V = TokenView;

    open spec fn view(&self) -> TokenView {
        TokenView { access: self.access_token@, expires_at: self.expires_at }
    }
}

/// The token's validity predicate: it may be used strictly before it expires.
pub open spec fn token_valid(t: TokenView, now: u64) -> bool {
    now < t.expires_at
}

impl Token {
    pub fn new(access_token: String, expires_at: u64) -> (r: Token)
        ensures
            r@ == (TokenView { access: access_token@, expires_at }),
    {
        Token { access_token, expires_at }
    }

    /// Whether the token may still be used at `now`.
    pub fn is_valid(&self, now: u64) -> (r: bool)
        ensures
            r == token_valid(self@, now),
    {
        now < self.expires_at
    }

    /// The bearer string, for an Authorization header.
    pub fn access_token(&self) -> (r: String)
        ensures
            r@ == self@.access,
    {
        self.access_token.clone()
    }
}

/// What a caller must do to obtain a bearer token.
#[derive(Debug, Clone, PartialEq, Eq)]
pub enum RefreshStep {
    /// The cached token is valid: use this bearer string, no network call.
    Cached(String),
    /// The cached token has expired: mint a new one outside any lock, then
    /// hand the result to `TokenCache::install`.
    Mint,
}

/// The mathematical value of a `RefreshStep`.
pub ghost enum Step {
    Cached(Seq<char>),
    Mint,
}

impl View for RefreshStep {
    type V = Step;

    open spec fn view(&self) -> Step {
        match self {
            RefreshStep::Cached(s) => Step::Cached(s@),
            RefreshStep::Mint => Step::Mint,
        }
    }
}

/// The first step of a refresh with `cached` in the cache at `now`.
pub open spec fn refresh_decision(cached: TokenView, now: u64) -> Step {
    if token_valid(cached, now) {
        Step::Cached(cached.access)
    } else {
        Step::Mint
    }
}

/// The token in the cache after a mint has finished with `minted`: the new
/// token on success, the old one unchanged on failure.
pub open spec fn installed(cached: TokenView, minted: Result<TokenView, Seq<char>>) -> TokenView {
    match minted {
        Ok(t) => t,
        Err(_) => cached,
    }
}

/// What a refresh returns once a mint has finished with `minted`.
pub open spec fn install_result(minted: Result<TokenView, Seq<char>>) -> Result<Seq<char>, Failure> {
    match minted {
        Ok(t) => Ok(t.access),
        Err(details) => Err(Failure::Token(details)),
    }
}

/// The view of a mint result as handed to the cache.
pub open spec fn minted_view(minted: Result<Token, &str>) -> Result<TokenView, Seq<char>> {
    match minted {
        Ok(t) => Ok(t@),
        Err(d) => Err(d@),
    }
}

/// The view of a bearer string or an error.
pub open spec fn bearer_view(r: Result<String, StorageError>) -> Result<Seq<char>, Failure> {
    match r {
        Ok(s) => Ok(s@),
        Err(e) => Err(e@),
    }
}

/// The token in the cache after mints finished with `outcomes`, installed in
/// that order (the order in which racing callers took the write lock).
pub open spec fn after_installs(
    cached: TokenView,
    outcomes: Seq<Result<TokenView, Seq<char>>>,
) -> TokenView
    decreases outcomes.len(),
{
    if outcomes.len() == 0 {
        cached
    } else {
        installed(after_installs(cached, outcomes.drop_last()), outcomes.last())
    }
}

/// A refresh mints only when the cached token is invalid: a valid token is
/// reused as it is, while an invalid one asks for a mint, after which the
/// cache holds the minted token and the refresh returns its bearer string.
pub proof fn lemma_refresh_mints_only_when_invalid(cached: TokenView, now: u64, fresh: TokenView)
    ensures
        token_valid(cached, now) ==> refresh_decision(cached, now) == Step::Cached(cached.access),
        !token_valid(cached, now) ==> refresh_decision(cached, now) == Step::Mint,
        installed(cached, Ok(fresh)) == fresh,
        install_result(Ok(fresh)) == Ok::<Seq<char>, Failure>(fresh.access),
{
}

/// Callers racing on an expired token may each mint, and their installs
/// happen one at a time in some order: the cache then holds one whole token,
/// either the one it held before or one of the successful mints, and when
/// any mint succeeded it holds the last one installed.
pub proof fn lemma_racing_refreshes(cached: TokenView, outcomes: Seq<Result<TokenView, Seq<char>>>)
    ensures
        after_installs(cached, outcomes) == cached || exists|i: int|
            0 <= i < outcomes.len() && outcomes[i] == Ok::<TokenView, Seq<char>>(
                after_installs(cached, outcomes),
            ),
        outcomes.len() > 0 && outcomes.last() is Ok ==> after_installs(cached, outcomes)
            == outcomes.last()->Ok_0,
    decreases outcomes.len(),
{
    if outcomes.len() > 0 {
        let prefix = outcomes.drop_last();
        lemma_racing_refreshes(cached, prefix);
        let r = after_installs(cached, outcomes);
        if outcomes.last() is Ok {
            assert(outcomes[outcomes.len() - 1] == Ok::<TokenView, Seq<char>>(r));
        } else if r != cached {
            let i = choose|i: int|
                0 <= i < prefix.len() && prefix[i] == Ok::<TokenView, Seq<char>>(
                    after_installs(cached, prefix),
                );
            assert(outcomes[i] == prefix[i]);
        }
    }
}

/// The cell that holds the one current token of a client. It always holds a
/// token: a client cannot exist without one.
#[derive(Debug)]
pub struct TokenCache {
    token: Token,
}

impl View for TokenCache {
    type V = TokenView;

    closed spec fn view(&self) -> TokenView {
        self.token@
    }
}

impl TokenCache {
    /// Builds the cache from the initial mint; a failed mint fails the
    /// construction with `TokenError`.
    pub fn new(minted: Result<Token, &str>) -> (r: Result<TokenCache, StorageError>)
        ensures
            match minted {
                Ok(t) => r matches Ok(c) && c@ == t@,
                Err(d) => r matches Err(e) && e@ == Failure::Token(d@),
            },
    {
        match minted {
            Ok(token) => Ok(TokenCache { token }),
            Err(details) => Err(token_error(details)),
        }
    }

    /// The token currently held.
    pub fn token(&self) -> (r: &Token)
        ensures
            r@ == self@,
    {
        &self.token
    }

    /// Decides how to obtain a bearer token at `now`: reuse the cached one
    /// while it is valid, otherwise mint a new one.
    pub fn refresh_step(&self, now: u64) -> (r: RefreshStep)
        ensures
            r@ == refresh_decision(self@, now),
    {
        if self.token.is_valid(now) {
            RefreshStep::Cached(self.token.access_token())
        } else {
            RefreshStep::Mint
        }
    }

    /// Installs the outcome of a mint: a new token replaces the cached one
    /// as a whole and its bearer string is returned; a failed mint leaves
    /// the cache as it was and yields `TokenError`.
    pub fn install(&mut self, minted: Result<Token, &str>) -> (r: Result<String, StorageError>)
        ensures
            final(self)@ == installed(old(self)@, minted_view(minted)),
            bearer_view(r) == install_result(minted_view(minted)),
    {
        match minted {
            Ok(token) => {
                let access = token.access_token();
                self.token = token;
                Ok(access)
            },
            Err(details) => Err(token_error(details)),
        }
    }
}

} // verus!
