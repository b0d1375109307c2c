//! The session token and its holder.
//!
//! A process has one session state, made once at startup with a fresh random
//! token. The holder keeps it behind a lock and hands out copies of the token;
//! nothing replaces the token while the holder lives, so every reader sees
//! the same one.

use crate::identifier::{hyphenated, hyphenated_text, is_v4, is_v4_text, lemma_v4_text, random_v4};
use vstd::prelude::*;
use vstd::rwlock::{RwLock, RwLockPredicate};

verus! {

/// The state of one running session.
pub struct AppState {
    /// The token that identifies this session.
    pub session_token: String,
}

impl AppState {
    /// The token reads as a version 4 identifier.
    pub open spec fn wf(&self) -> bool {
        is_v4_text(self.session_token@)
    }

    /// The state whose token is the text form of `bits`.
    pub fn with_identifier(bits: u128) -> (state: AppState)
        ensures
            state.session_token@ == hyphenated_text(bits),
            is_v4(bits) ==> state.wf(),
    {
        proof {
            if is_v4(bits) {
                lemma_v4_text(bits);
            }
        }
        AppState { session_token: hyphenated(bits) }
    }
}

impl Default for AppState {
    /// A state with a fresh random token.
    fn default() -> (state: Self)
        ensures
            state.wf(),
    {
        AppState::with_identifier(random_v4())
    }
}

/// What a holder's lock admits: states that carry one given token.
pub ghost struct HoldsToken {
    pub text: Seq<char>,
}

impl RwLockPredicate<AppState> for HoldsToken {
    open spec fn inv(self, v: AppState) -> bool {
        v.session_token@ == self.text
    }
}

/// The session state behind its lock.
///
/// The lock admits only states that carry the holder's token, so whoever
/// takes the lock, now or later, to read or to write, finds that token.
pub struct SessionHolder {
    guard: RwLock<AppState, HoldsToken>,
}

impl SessionHolder {
    /// The token that this holder keeps.
    pub closed spec fn token(&self) -> Seq<char> {
        self.guard.pred().text
    }

    /// Puts `state` behind a lock.
    pub fn new(state: AppState) -> (holder: Self)
        ensures
            holder.token() == state.session_token@,
    {
        let ghost admitted = HoldsToken { text: state.session_token@ };
        SessionHolder { guard: RwLock::new(state, Ghost(admitted)) }
    }

    /// A holder for a new session: its token is a fresh random identifier.
    pub fn initialize() -> (holder: Self)
        ensures
            is_v4_text(holder.token()),
    {
        SessionHolder::new(AppState::default())
    }
}

/// A copy of the session token.
///
/// The lock is held only while the token is copied. The result is the
/// holder's token, whenever and however often this is called.
pub fn get_session_token(state: &SessionHolder) -> (token: String)
    ensures
        token@ == state.token(),
{
    let handle = state.guard.acquire_read();
    let token = handle.borrow().session_token.clone();
    handle.release_read();
    token
}

} // verus!
