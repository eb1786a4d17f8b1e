//! The request-authorization pipeline: token extraction from the request's
//! header or cookie, verification through the token codec, identity
//! resolution against the injected user store, and the role policy check.
//!
//! Each inbound request runs the pipeline once, from scratch: nothing is
//! cached across requests, so deleting a user revokes every outstanding
//! token of theirs on the very next request. A failure at any stage
//! short-circuits the stages after it.

use vstd::prelude::*;

use crate::errors::ErrorMessage;
use crate::models::{User, UserRole};
use crate::token::{decode_of, verify_spec, verify_token_at};

verus! {

/// The user-lookup capability the surrounding application supplies. The
/// exec lookup must return exactly what the store's own `spec_find` says it
/// holds; the pipeline's contracts are stated over `spec_find`.
pub trait UserStore {
    /// The record this store holds for the subject `id`, if any.
    spec fn spec_find(&self, id: Seq<char>) -> Option<User>;

    /// Looks the subject up; one lookup, no writes.
    fn find_by_id(&self, id: &str) -> (r: Option<User>)
        ensures
            r == self.spec_find(id@),
    ;
}

/// The first record in `users` whose id is `id`, if any.
pub open spec fn find_in(users: Seq<User>, id: Seq<char>) -> Option<User>
    decreases users.len(),
{
    if users.len() == 0 {
        Option::None
    } else if users[0].id@ == id {
        Option::Some(users[0])
    } else {
        find_in(users.drop_first(), id)
    }
}

/// A user store held in memory: the simplest `UserStore`, and the one the
/// tests run the pipeline against.
pub struct MemoryUserStore {
    pub users: Vec<User>,
}

impl UserStore for MemoryUserStore {
    open spec fn spec_find(&self, id: Seq<char>) -> Option<User> {
        find_in(self.users@, id)
    }

    fn find_by_id(&self, id: &str) -> (r: Option<User>) {
        let wanted = id.to_owned();
        let mut idx: usize = 0;
        proof {
            assert(self.users@.skip(0) =~= self.users@);
        }
        while idx < self.users.len()
            invariant
                idx <= self.users@.len(),
                wanted@ == id@,
                find_in(self.users@, id@) == find_in(self.users@.skip(idx as int), id@),
            decreases self.users@.len() - idx,
        {
            let u = &self.users[idx];
            proof {
                assert(self.users@.skip(idx as int)[0] == self.users@[idx as int]);
            }
            if u.id == wanted {
                return Some(u.duplicate());
            }
            proof {
                assert(self.users@.skip(idx as int).drop_first() =~= self.users@.skip(
                    idx as int + 1,
                ));
            }
            idx += 1;
        }
        proof {
            assert(self.users@.skip(idx as int) =~= Seq::<User>::empty());
        }
        None
    }
}

/// The token a bearer header carries: everything after the `Bearer ` prefix,
/// provided something follows it.
pub open spec fn spec_bearer_of(header: Seq<char>) -> Option<Seq<char>> {
    if header.len() > 7 && header.subrange(0, 7) == "Bearer "@ {
        Option::Some(header.subrange(7, header.len() as int))
    } else {
        Option::None
    }
}

/// An optional string, by its view.
pub open spec fn spec_opt_view(s: Option<&str>) -> Option<Seq<char>> {
    match s {
        Option::Some(x) => Option::Some(x@),
        Option::None => Option::None,
    }
}

/// Where a request's token comes from, in precedence order: a well-formed
/// bearer header first, a non-empty cookie as fallback, otherwise nothing.
pub open spec fn extract_spec(header: Option<Seq<char>>, cookie: Option<Seq<char>>) -> Option<
    Seq<char>,
> {
    let from_header = match header {
        Option::Some(h) => spec_bearer_of(h),
        Option::None => Option::None,
    };
    match from_header {
        Option::Some(t) => Option::Some(t),
        Option::None => match cookie {
            Option::Some(c) => if c.len() > 0 {
                Option::Some(c)
            } else {
                Option::None
            },
            Option::None => Option::None,
        },
    }
}

/// Whether `h` starts with the seven characters `Bearer ` and carries more.
fn bearer_prefixed(h: &str) -> (r: bool)
    ensures
        r == (h@.len() > 7 && h@.subrange(0, 7) == "Bearer "@),
{
    proof {
        reveal_strlit("Bearer ");
    }
    let n = h.unicode_len();
    if n <= 7 {
        return false;
    }
    let ok = h.get_char(0) == 'B' && h.get_char(1) == 'e' && h.get_char(2) == 'a' && h.get_char(3)
        == 'r' && h.get_char(4) == 'e' && h.get_char(5) == 'r' && h.get_char(6) == ' ';
    proof {
        assert(("Bearer "@).len() == 7);
        assert forall|i: int| 0 <= i < 7 implies h@.subrange(0, 7)[i] == h@[i] by {}
        if ok {
            assert(h@.subrange(0, 7) =~= "Bearer "@);
        }
        if h@.subrange(0, 7) == "Bearer "@ {
            assert(h@[0] == 'B' && h@[1] == 'e' && h@[2] == 'a' && h@[3] == 'r' && h@[4] == 'e'
                && h@[5] == 'r' && h@[6] == ' ');
        }
    }
    ok
}

/// Pulls the token out of the request's two possible carriers, or fails with
/// `TokenNotProvided` when neither yields one: exactly `extract_spec`.
pub fn extract_token(header: Option<&str>, cookie: Option<&str>) -> (r: Result<
    String,
    ErrorMessage,
>)
    ensures
        r matches Ok(t) ==> extract_spec(spec_opt_view(header), spec_opt_view(cookie)) == Some(t@),
        r matches Err(e) ==> e == ErrorMessage::TokenNotProvided && extract_spec(
            spec_opt_view(header),
            spec_opt_view(cookie),
        ) is None,
{
    match header {
        Some(h) => {
            if bearer_prefixed(h) {
                let n = h.unicode_len();
                let tok = h.substring_char(7, n);
                return Ok(tok.to_owned());
            }
        },
        None => {},
    }
    match cookie {
        Some(c) => {
            if !c.is_empty() {
                return Ok(c.to_owned());
            }
        },
        None => {},
    }
    Err(ErrorMessage::TokenNotProvided)
}

/// What the Auth Guard makes of one request: the resolved identity, attached
/// for the rest of the request, or the denial that short-circuited it.
#[derive(Debug)]
pub enum AuthOutcome {
    Authenticated(User),
    Denied(ErrorMessage),
}

/// The Auth Guard's outcome, in full: extraction, then verification, then
/// resolution, each failure passed through verbatim.
pub open spec fn authenticate_spec<S: UserStore>(
    store: &S,
    header: Option<Seq<char>>,
    cookie: Option<Seq<char>>,
    secret: Seq<u8>,
    now: u64,
) -> AuthOutcome {
    match extract_spec(header, cookie) {
        Option::None => AuthOutcome::Denied(ErrorMessage::TokenNotProvided),
        Option::Some(tok) => match verify_spec(tok, secret, now) {
            Result::Err(e) => AuthOutcome::Denied(e),
            Result::Ok(c) => match store.spec_find(c.0) {
                Option::None => AuthOutcome::Denied(ErrorMessage::UserNoLongerExists),
                Option::Some(u) => AuthOutcome::Authenticated(u),
            },
        },
    }
}

/// Runs the Auth Guard for one request at clock reading `now`: exactly
/// `authenticate_spec`. In particular a cryptographically valid, unexpired
/// token whose subject no longer resolves in the store is denied with
/// `UserNoLongerExists`, never authenticated.
pub fn authenticate<S: UserStore>(
    store: &S,
    header: Option<&str>,
    cookie: Option<&str>,
    secret: &[u8],
    now: u64,
) -> (r: AuthOutcome)
    ensures
        r == authenticate_spec(store, spec_opt_view(header), spec_opt_view(cookie), secret@, now),
{
    let token = match extract_token(header, cookie) {
        Ok(t) => t,
        Err(e) => {
            return AuthOutcome::Denied(e);
        },
    };
    let claims = match verify_token_at(token.as_str(), secret, now) {
        Ok(c) => c,
        Err(e) => {
            return AuthOutcome::Denied(e);
        },
    };
    match store.find_by_id(claims.sub.as_str()) {
        None => AuthOutcome::Denied(ErrorMessage::UserNoLongerExists),
        Some(u) => AuthOutcome::Authenticated(u),
    }
}

/// Whether `role` is a member of the policy set `allowed`.
pub open spec fn spec_role_allowed(role: UserRole, allowed: Seq<UserRole>) -> bool {
    exists|i: int| 0 <= i < allowed.len() && allowed[i] == role
}

/// The Role Guard: a pure membership check on the attached identity's role.
/// Invoked without an identity it fails with `ServerError` — that is a
/// programming-contract violation, not a user-facing denial; a role outside
/// the policy set is denied with `PermissionsDenied`.
pub fn check_role(identity: Option<&User>, allowed: &[UserRole]) -> (r: Result<(), ErrorMessage>)
    ensures
        identity is None ==> r == Err::<(), ErrorMessage>(ErrorMessage::ServerError),
        identity matches Some(u) && spec_role_allowed(u.role, allowed@) ==> r == Ok::<
            (),
            ErrorMessage,
        >(()),
        identity matches Some(u) && !spec_role_allowed(u.role, allowed@) ==> r == Err::<
            (),
            ErrorMessage,
        >(ErrorMessage::PermissionsDenied),
{
    match identity {
        None => Err(ErrorMessage::ServerError),
        Some(user) => {
            let mut idx: usize = 0;
            while idx < allowed.len()
                invariant
                    identity == Some(user),
                    idx <= allowed@.len(),
                    forall|i: int| 0 <= i < idx ==> allowed@[i] != user.role,
                decreases allowed@.len() - idx,
            {
                if allowed[idx] == user.role {
                    proof {
                        assert(0 <= idx < allowed@.len() && allowed@[idx as int] == user.role);
                    }
                    return Ok(());
                }
                idx += 1;
            }
            Err(ErrorMessage::PermissionsDenied)
        },
    }
}

/// The whole pipeline for one protected request: the Auth Guard, then — only
/// if it authenticated — the Role Guard over `allowed`.
pub open spec fn authorize_spec<S: UserStore>(
    store: &S,
    header: Option<Seq<char>>,
    cookie: Option<Seq<char>>,
    secret: Seq<u8>,
    now: u64,
    allowed: Seq<UserRole>,
) -> AuthOutcome {
    match authenticate_spec(store, header, cookie, secret, now) {
        AuthOutcome::Denied(e) => AuthOutcome::Denied(e),
        AuthOutcome::Authenticated(u) => if spec_role_allowed(u.role, allowed) {
            AuthOutcome::Authenticated(u)
        } else {
            AuthOutcome::Denied(ErrorMessage::PermissionsDenied)
        },
    }
}

/// Runs the Auth Guard and, on success, the Role Guard: exactly
/// `authorize_spec`. The Role Guard never runs when the Auth Guard denied.
pub fn authorize<S: UserStore>(
    store: &S,
    header: Option<&str>,
    cookie: Option<&str>,
    secret: &[u8],
    now: u64,
    allowed: &[UserRole],
) -> (r: AuthOutcome)
    ensures
        r == authorize_spec(
            store,
            spec_opt_view(header),
            spec_opt_view(cookie),
            secret@,
            now,
            allowed@,
        ),
{
    let outcome = authenticate(store, header, cookie, secret, now);
    let user = match outcome {
        AuthOutcome::Denied(e) => {
            return AuthOutcome::Denied(e);
        },
        AuthOutcome::Authenticated(u) => u,
    };
    match check_role(Some(&user), allowed) {
        Ok(()) => AuthOutcome::Authenticated(user),
        Err(e) => AuthOutcome::Denied(e),
    }
}

/// A bearer header made of `Bearer ` and a non-empty token yields exactly
/// that token.
pub proof fn lemma_bearer_header(token: Seq<char>)
    requires
        token.len() > 0,
    ensures
        spec_bearer_of("Bearer "@ + token) == Some(token),
{
    reveal_strlit("Bearer ");
    let h = "Bearer "@ + token;
    assert(h.subrange(0, 7) =~= "Bearer "@);
    assert(h.subrange(7, h.len() as int) =~= token);
}

/// End-to-end law: a request presenting an issued, unexpired token for a
/// stored identity as a bearer header authenticates to that identity, and
/// the admin-only policy then denies a non-admin with `PermissionsDenied`.
pub proof fn lemma_end_to_end_admin_denial<S: UserStore>(
    store: &S,
    token: Seq<char>,
    secret: Seq<u8>,
    now: u64,
    sub: Seq<char>,
    iat: u64,
    exp: u64,
    u: User,
)
    requires
        token.len() > 0,
        decode_of(token, secret) == Some((sub, iat, exp)),
        now <= exp,
        store.spec_find(sub) == Some(u),
        u.role != UserRole::Admin,
    ensures
        authenticate_spec(store, Some("Bearer "@ + token), None, secret, now)
            == AuthOutcome::Authenticated(u),
        authorize_spec(store, Some("Bearer "@ + token), None, secret, now, seq![UserRole::Admin])
            == AuthOutcome::Denied(ErrorMessage::PermissionsDenied),
{
    lemma_bearer_header(token);
    assert(!spec_role_allowed(u.role, seq![UserRole::Admin])) by {
        assert(forall|i: int|
            0 <= i < 1 ==> #[trigger] seq![UserRole::Admin][i] == UserRole::Admin);
    }
}

/// Resolution law: a request carrying a well-formed, unexpired token whose
/// subject the store no longer holds is denied with `UserNoLongerExists`,
/// never authenticated — deletion revokes on the next request.
pub proof fn lemma_vanished_subject_denied<S: UserStore>(
    store: &S,
    header: Option<Seq<char>>,
    cookie: Option<Seq<char>>,
    secret: Seq<u8>,
    now: u64,
    token: Seq<char>,
    sub: Seq<char>,
    iat: u64,
    exp: u64,
)
    requires
        extract_spec(header, cookie) == Some(token),
        decode_of(token, secret) == Some((sub, iat, exp)),
        now <= exp,
        store.spec_find(sub) is None,
    ensures
        authenticate_spec(store, header, cookie, secret, now) == AuthOutcome::Denied(
            ErrorMessage::UserNoLongerExists,
        ),
{
}

/// Policy law: once a request authenticated, the pipeline permits it exactly
/// when the identity's role is a member of the policy set, and otherwise
/// denies it with `PermissionsDenied`.
pub proof fn lemma_role_policy<S: UserStore>(
    store: &S,
    header: Option<Seq<char>>,
    cookie: Option<Seq<char>>,
    secret: Seq<u8>,
    now: u64,
    u: User,
    allowed: Seq<UserRole>,
)
    requires
        authenticate_spec(store, header, cookie, secret, now) == AuthOutcome::Authenticated(u),
    ensures
        spec_role_allowed(u.role, allowed) ==> authorize_spec(
            store,
            header,
            cookie,
            secret,
            now,
            allowed,
        ) == AuthOutcome::Authenticated(u),
        !spec_role_allowed(u.role, allowed) ==> authorize_spec(
            store,
            header,
            cookie,
            secret,
            now,
            allowed,
        ) == AuthOutcome::Denied(ErrorMessage::PermissionsDenied),
{
}

/// The per-request accessor a protected handler reads: the attached identity
/// of a successful outcome, and nothing otherwise. Handlers behind the Auth
/// Guard may assume it is present; unprotected handlers must not.
pub fn attached_identity(outcome: &AuthOutcome) -> (r: Option<&User>)
    ensures
        outcome matches AuthOutcome::Authenticated(u) ==> (r matches Some(v) && *v == u),
        outcome matches AuthOutcome::Denied(e) ==> r is None,
{
    match outcome {
        AuthOutcome::Authenticated(u) => Some(u),
        AuthOutcome::Denied(_) => None,
    }
}

} // verus!
