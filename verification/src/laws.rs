//! Properties of the library that relate its functions to each other.
use vstd::prelude::*;
use crate::clock::{after_seconds, clock_instant, Instant, unix_seconds, MAX_UTC_MICROS, MICROS_PER_SEC, MIN_UTC_MICROS};
use crate::cookies::CookieChange;
use crate::handlers::auth::RefreshStage;
use crate::models::user::User;
use crate::config::{spec_cookie_secure, EnvValue};
use crate::error::ApiError;
use crate::handlers::auth::{refresh_transition, RefreshAction, RefreshEvent, RefreshFlow};
use crate::handlers::invoice::spec_owned_invoice;
use crate::handlers::oauth::{callback_redirect, callback_transition, CallbackAction, CallbackEvent, GoogleCallbackFlow};
use crate::models::invoice::{spec_plan_update, Invoice, InvoiceUpdate};
use crate::services::auth::{
    access_claims_spec, access_token_outcome, access_token_text, issued_access_token, jwt_access_token, issued_refresh_token, sha256_digest, token_hash_text, AccessClaimsView,
    AuthService,
};
use crate::services::extractor::spec_request_claims;
use crate::middleware::auth::bearer_token;
use crate::models::token::RefreshToken;
use crate::text::{has_prefix, hex_text};
use vstd::utf8::encode_utf8;

verus! {

/// A refresh token the service issues is accepted against the hash stored
/// with it: `verify_refresh_token_hash(t, h)` holds.
pub proof fn issued_refresh_token_matches_its_hash(service: AuthService, t: Seq<char>, h: Seq<char>, expires_at: i64)
    requires
        issued_refresh_token(service, t, h, expires_at),
    ensures
        token_hash_text(t) == h,
{
}

/// An access token the service issues to a user is the signed text of claims
/// naming that user and email; `verify_access_token`, `authenticate_bearer`
/// and `claims_from_request` give those claims back for it.
pub proof fn issued_access_token_names_its_user(service: AuthService, user_id: u128, email: Seq<char>, t: Seq<char>)
    requires
        issued_access_token(service, user_id, email, t),
    ensures
        exists|c: AccessClaimsView| t == #[trigger] access_token_text(service.secret(), c) && c.0 == email && c.1 == email && c.2 == user_id,
{
    let now = choose|now: i64| clock_instant(now as int) && (#[trigger] access_claims_spec(user_id, email, now as int, service.access_expiry() as int)
        matches Some(c) && t == access_token_text(service.secret(), c));
    let c = access_claims_spec(user_id, email, now as int, service.access_expiry() as int)->Some_0;
    assert(t == access_token_text(service.secret(), c));
}

/// An access token the service issues lives exactly the service's access
/// lifetime: it is the signed text of claims whose `exp` is `iat` plus that
/// many seconds, where the lifetime is not negative and the expiry in seconds
/// fits in `usize` at every instant of the clock.
pub proof fn issued_access_token_lives_its_lifetime(service: AuthService, user_id: u128, email: Seq<char>, t: Seq<char>)
    requires
        issued_access_token(service, user_id, email, t),
        0 <= service.access_expiry(),
        MAX_UTC_MICROS / 1000000 + service.access_expiry() <= usize::MAX,
    ensures
        exists|c: AccessClaimsView| t == #[trigger] access_token_text(service.secret(), c) && c.0 == email && c.1 == email
            && c.2 == user_id && c.3 as int == c.4 as int + service.access_expiry(),
{
    let now = choose|now: i64| clock_instant(now as int) && (#[trigger] access_claims_spec(user_id, email, now as int, service.access_expiry() as int)
        matches Some(c) && t == access_token_text(service.secret(), c));
    assert(now as int / 1000000 <= MAX_UTC_MICROS / 1000000) by (nonlinear_arith)
        requires
            now <= MAX_UTC_MICROS,
            0 <= now,
    ;
    access_token_lifetime(user_id, email, now as int, service.access_expiry() as int);
    let c = access_claims_spec(user_id, email, now as int, service.access_expiry() as int)->Some_0;
    assert(t == access_token_text(service.secret(), c));
}

/// An access token issued at a non-negative instant names the email as
/// subject, and lives exactly the service's access lifetime: `exp` is `iat`
/// plus that many seconds.
pub proof fn access_token_lifetime(user_id: u128, email: Seq<char>, now_us: int, expiry_secs: int)
    requires
        0 <= now_us,
        0 <= expiry_secs,
        now_us / 1000000 + expiry_secs <= usize::MAX,
        access_claims_spec(user_id, email, now_us, expiry_secs) is Some,
    ensures
        access_claims_spec(user_id, email, now_us, expiry_secs) matches Some(c) && c.0 == email && c.1 == email
            && c.2 == user_id && c.3 as int == c.4 as int + expiry_secs,
{
    let exp_us = now_us + expiry_secs * MICROS_PER_SEC;
    assert(after_seconds(now_us, expiry_secs) == Some(exp_us));
    assert(unix_seconds(exp_us) == unix_seconds(now_us) + expiry_secs) by (nonlinear_arith)
        requires
            exp_us == now_us + expiry_secs * 1000000,
            unix_seconds(exp_us) == exp_us / 1000000,
            unix_seconds(now_us) == now_us / 1000000,
    ;
    assert(0 <= unix_seconds(now_us)) by (nonlinear_arith)
        requires
            0 <= now_us,
            unix_seconds(now_us) == now_us / 1000000,
    ;
}

/// The hashes of stored refresh tokens after the database performs `a`:
/// a deletion by hash removes that hash, a store adds one.
pub open spec fn stored_hashes_after(table: Set<Seq<char>>, a: RefreshAction) -> Set<Seq<char>> {
    match a {
        RefreshAction::DeleteTokenByHash(h) => table.remove(h@),
        RefreshAction::StoreRefreshToken { token_hash, .. } => table.insert(token_hash@),
        _ => table,
    }
}

/// `found` is what a lookup of `hash` can answer when the stored hashes are
/// `table`: a record with that hash, which is stored, or nothing.
pub open spec fn lookup_answer(table: Set<Seq<char>>, hash: Seq<char>, found: Option<RefreshToken>) -> bool {
    found matches Some(r) ==> r.token_hash@ == hash && table.contains(hash)
}

/// A successful refresh revokes the presented token: of the database's
/// actions, the one before the new token is stored deletes the presented
/// token's hash, so afterwards only the new token's hash is stored in its
/// place, and the presented hash is gone unless the new token has the same hash.
pub proof fn refresh_revokes_presented_token(
    f0: RefreshFlow, f1: RefreshFlow, f2: RefreshFlow, f3: RefreshFlow, f4: RefreshFlow,
    e1: RefreshEvent, e2: RefreshEvent, e3: RefreshEvent, e4: RefreshEvent,
    n1: Instant, n2: Instant, n3: Instant, n4: Instant,
    r1: Seq<u8>, r2: Seq<u8>, r3: Seq<u8>, r4: Seq<u8>,
    a1: RefreshAction, a2: RefreshAction, a3: RefreshAction, a4: RefreshAction,
    table: Set<Seq<char>>,
)
    requires
        f0.spec_stage() is AwaitingToken,
        refresh_transition(f0, f1, e1, n1, r1, a1),
        refresh_transition(f1, f2, e2, n2, r2, a2),
        refresh_transition(f2, f3, e3, n3, r3, a3),
        refresh_transition(f3, f4, e4, n4, r4, a4),
        a4 matches RefreshAction::Reply(Ok(_)),
    ensures
        a2 matches RefreshAction::DeleteTokenByHash(h) && h@ == f0.spec_token_hash(),
        a3 matches RefreshAction::StoreRefreshToken { token_hash, .. } && {
            let after = stored_hashes_after(stored_hashes_after(stored_hashes_after(stored_hashes_after(table, a1), a2), a3), a4);
            &&& after == table.remove(f0.spec_token_hash()).insert(token_hash@)
            &&& (token_hash@ != f0.spec_token_hash() ==> !after.contains(f0.spec_token_hash()))
        },
{
    assert(f4.spec_token_hash() == f0.spec_token_hash());
}

/// A refresh that presents a token whose hash is no longer stored is refused
/// with `InvalidToken`, whatever the lookup answers.
pub proof fn refresh_of_revoked_token_is_refused(
    g0: RefreshFlow,
    g1: RefreshFlow,
    table: Set<Seq<char>>,
    found: Option<RefreshToken>,
    now: Instant,
    random: Seq<u8>,
    b: RefreshAction,
)
    requires
        g0.spec_stage() is AwaitingToken,
        !table.contains(g0.spec_token_hash()),
        lookup_answer(table, g0.spec_token_hash(), found),
        refresh_transition(g0, g1, RefreshEvent::TokenFound(found), now, random, b),
    ensures
        b == RefreshAction::Reply(Err(ApiError::InvalidToken)),
{
}

/// Each refresh token is redeemed at most once: after a successful refresh
/// that presented `t`, a later refresh presenting `t` is refused with
/// `InvalidToken`, as long as no record with `t`'s hash was stored since and
/// the new token's hash differs from `t`'s.
pub proof fn refresh_token_redeemed_at_most_once(
    f0: RefreshFlow, f1: RefreshFlow, f2: RefreshFlow, f3: RefreshFlow, f4: RefreshFlow,
    e1: RefreshEvent, e2: RefreshEvent, e3: RefreshEvent, e4: RefreshEvent,
    n1: Instant, n2: Instant, n3: Instant, n4: Instant,
    r1: Seq<u8>, r2: Seq<u8>, r3: Seq<u8>, r4: Seq<u8>,
    a1: RefreshAction, a2: RefreshAction, a3: RefreshAction, a4: RefreshAction,
    table: Set<Seq<char>>,
    later: Set<Seq<char>>,
    g0: RefreshFlow,
    g1: RefreshFlow,
    found: Option<RefreshToken>,
    now: Instant,
    random: Seq<u8>,
    b: RefreshAction,
)
    requires
        f0.spec_stage() is AwaitingToken,
        f0.spec_token_hash() == token_hash_text(f0.spec_presented()),
        refresh_transition(f0, f1, e1, n1, r1, a1),
        refresh_transition(f1, f2, e2, n2, r2, a2),
        refresh_transition(f2, f3, e3, n3, r3, a3),
        refresh_transition(f3, f4, e4, n4, r4, a4),
        a4 matches RefreshAction::Reply(Ok(_)),
        a3 matches RefreshAction::StoreRefreshToken { token_hash, .. } ==> token_hash@ != f0.spec_token_hash(),
        later.contains(f0.spec_token_hash()) ==> stored_hashes_after(
            stored_hashes_after(stored_hashes_after(stored_hashes_after(table, a1), a2), a3),
            a4,
        ).contains(f0.spec_token_hash()),
        g0.spec_stage() is AwaitingToken,
        g0.spec_presented() == f0.spec_presented(),
        g0.spec_token_hash() == token_hash_text(g0.spec_presented()),
        lookup_answer(later, g0.spec_token_hash(), found),
        refresh_transition(g0, g1, RefreshEvent::TokenFound(found), now, random, b),
    ensures
        b == RefreshAction::Reply(Err(ApiError::InvalidToken)),
{
    refresh_revokes_presented_token(f0, f1, f2, f3, f4, e1, e2, e3, e4, n1, n2, n3, n4, r1, r2, r3, r4, a1, a2, a3, a4, table);
    refresh_of_revoked_token_is_refused(g0, g1, later, found, now, random, b);
}

/// A token checks against a stored hash exactly when its own SHA-256 digest
/// is the digest the hash was made from: since the hex form is one-to-one,
/// `verify_refresh_token_hash(t2, hash_token(t))` holds exactly when `t2` and
/// `t` have the same digest.
pub proof fn stored_hash_identifies_the_digest(t: Seq<char>, t2: Seq<char>)
    ensures
        (token_hash_text(t2) == token_hash_text(t)) == (sha256_digest(encode_utf8(t2)) == sha256_digest(encode_utf8(t))),
{
    crate::text::lemma_hex_text_injective(sha256_digest(encode_utf8(t2)), sha256_digest(encode_utf8(t)));
}

/// A presented refresh token with no stored record is refused with
/// `InvalidToken`, and nothing is written.
pub proof fn refresh_unknown_token_is_refused(old: RefreshFlow, new: RefreshFlow, now: Instant, random: Seq<u8>, a: RefreshAction)
    requires
        old.spec_stage() is AwaitingToken,
        refresh_transition(old, new, RefreshEvent::TokenFound(None), now, random, a),
    ensures
        a == RefreshAction::Reply(Err(ApiError::InvalidToken)),
        new.spec_stage() is Finished,
{
}

/// An expired stored token is deleted and never leads to new tokens: after
/// its deletion the refresh ends with an error, `TokenExpired` when the
/// database confirms the deletion.
pub proof fn refresh_expired_token_is_deleted_not_renewed(
    old: RefreshFlow,
    mid: RefreshFlow,
    new: RefreshFlow,
    t: crate::models::token::RefreshToken,
    now: Instant,
    random: Seq<u8>,
    a1: RefreshAction,
    event: RefreshEvent,
    now2: Instant,
    random2: Seq<u8>,
    a2: RefreshAction,
)
    requires
        old.spec_stage() is AwaitingToken,
        t.spec_expired_at(now),
        refresh_transition(old, mid, RefreshEvent::TokenFound(Some(t)), now, random, a1),
        refresh_transition(mid, new, event, now2, random2, a2),
    ensures
        a1 matches RefreshAction::DeleteTokenByHash(h) && h@ == old.spec_token_hash(),
        a2 matches RefreshAction::Reply(Err(_)),
        event is TokenDeleted ==> a2 == RefreshAction::Reply(Err(ApiError::TokenExpired)),
{
}

/// New tokens are stored only right after the presented token was deleted
/// (rotation), and a session is handed out only after the new refresh token
/// was stored.
pub proof fn refresh_issues_only_after_revocation(old: RefreshFlow, new: RefreshFlow, event: RefreshEvent, now: Instant, random: Seq<u8>, a: RefreshAction)
    requires
        refresh_transition(old, new, event, now, random, a),
    ensures
        a is StoreRefreshToken ==> old.spec_stage() is AwaitingRevocation && event is TokenDeleted,
        a matches RefreshAction::Reply(Ok(_)) ==> old.spec_stage() is AwaitingStore && event is TokenStored,
{
}

/// The user is looked up only for a stored, unexpired record whose hash is
/// the presented token's.
pub proof fn refresh_user_lookup_needs_valid_token(old: RefreshFlow, new: RefreshFlow, event: RefreshEvent, now: Instant, random: Seq<u8>, a: RefreshAction)
    requires
        refresh_transition(old, new, event, now, random, a),
        a is FindUserById,
    ensures
        event matches RefreshEvent::TokenFound(Some(t)) && !t.spec_expired_at(now) && t.token_hash@ == token_hash_text(
            old.spec_presented(),
        ) && a == RefreshAction::FindUserById(t.user_id),
{
}

/// Sign-in with a profile whose email Google has not verified is refused
/// with `Unauthorized`: no user is read or created and no token is issued.
pub proof fn signin_requires_verified_email(
    old: GoogleCallbackFlow,
    new: GoogleCallbackFlow,
    p: crate::models::oauth::GoogleUserProfile,
    now: Instant,
    random: Seq<u8>,
    a: CallbackAction,
)
    requires
        old.spec_stage() is AwaitingProfile,
        !p.email_verified,
        callback_transition(old, new, CallbackEvent::ProfileFetched(Ok(p)), now, random, a),
    ensures
        a == CallbackAction::Reply(Err(ApiError::Unauthorized)),
        new.spec_stage() is Finished,
{
}

/// Sign-in stores tokens only for a user that was found by email or just
/// created, and replies with a session only after the token was stored.
pub proof fn signin_issues_only_for_a_user(
    old: GoogleCallbackFlow,
    new: GoogleCallbackFlow,
    event: CallbackEvent,
    now: Instant,
    random: Seq<u8>,
    a: CallbackAction,
)
    requires
        callback_transition(old, new, event, now, random, a),
    ensures
        a is StoreRefreshToken ==> (old.spec_stage() is AwaitingUser && event matches CallbackEvent::UserFound(Some(_)))
            || (old.spec_stage() is AwaitingCreation && event is UserCreated),
        a matches CallbackAction::Reply(Ok(_)) ==> old.spec_stage() is AwaitingStore && event is TokenStored,
{
}

/// Trailing slashes of the frontend URL do not change where sign-in ends.
pub proof fn callback_redirect_ignores_trailing_slash(frontend_url: Seq<char>)
    ensures
        callback_redirect(frontend_url.push('/')) == callback_redirect(frontend_url),
{
    assert(frontend_url.push('/').drop_last() =~= frontend_url);
}

/// Another user's invoice gets the same answer as an invoice that does not
/// exist, and the owner gets the invoice.
pub proof fn foreign_invoice_looks_absent(inv: Invoice, user_id: u128)
    ensures
        inv.user_id != user_id ==> spec_owned_invoice(Some(inv), user_id) == spec_owned_invoice(None, user_id),
        spec_owned_invoice(Some(inv), inv.user_id) == Ok::<Invoice, ApiError>(inv),
{
}

/// An update writes only when it sets a field of an existing invoice; the
/// fields it does not set keep their values; and applying the same update
/// again to the written values writes the same values.
pub proof fn invoice_update_laws(id: u128, current: Invoice, customer_id: Option<u128>, cost_bits: Option<u64>)
    ensures
        customer_id is None && cost_bits is None ==> spec_plan_update(id, Some(current), customer_id, cost_bits)
            == InvoiceUpdate::ReturnCurrent(Some(current)),
        spec_plan_update(id, None, customer_id, cost_bits) is ReturnCurrent,
        spec_plan_update(id, Some(current), customer_id, cost_bits) matches InvoiceUpdate::Write {
            id: w_id,
            customer_id: c,
            cost_bits: k,
        } ==> {
            &&& w_id == id
            &&& (customer_id is None ==> c == current.customer_id)
            &&& (cost_bits is None ==> k == current.cost_bits)
            &&& spec_plan_update(id, Some(Invoice { customer_id: c, cost_bits: k, ..current }), customer_id, cost_bits)
                == InvoiceUpdate::Write { id, customer_id: c, cost_bits: k }
        },
{
}

/// The answer to an error does not depend on the text an internal, database
/// or password error carries.
pub proof fn error_answers_hide_details(d1: String, d2: String)
    ensures
        ApiError::InternalError(d1).spec_status() == ApiError::InternalError(d2).spec_status(),
        ApiError::InternalError(d1).spec_client_message() == ApiError::InternalError(d2).spec_client_message(),
        ApiError::DatabaseError(d1).spec_client_message() == ApiError::DatabaseError(d2).spec_client_message(),
        ApiError::PasswordHashError(d1).spec_client_message() == ApiError::PasswordHashError(d2).spec_client_message(),
        ApiError::InternalError(d1).spec_code() == ApiError::InternalError(d2).spec_code(),
        ApiError::DatabaseError(d1).spec_code() == ApiError::DatabaseError(d2).spec_code(),
{
}

/// Every error is answered 401, 404, 409 or 500; failures of the server are 500.
pub proof fn error_status_classes(e: ApiError)
    ensures
        e.spec_status() == 401 || e.spec_status() == 404 || e.spec_status() == 409 || e.spec_status() == 500,
        e.spec_is_server_fault() ==> e.spec_status() == 500,
        (e is Unauthorized || e is InvalidToken || e is TokenExpired || e is InvalidCredentials) ==> e.spec_status() == 401,
{
}

/// An explicit `COOKIE_SECURE` of `true` or `false` decides; without it,
/// frontends on `http://localhost` get cookies that are not marked secure.
pub proof fn cookie_security_setting(frontend_url: Seq<char>, explicit: String)
    ensures
        explicit@ == "true"@ ==> spec_cookie_secure(EnvValue::Present(explicit), frontend_url),
        explicit@ == "false"@ ==> !spec_cookie_secure(EnvValue::Present(explicit), frontend_url),
        has_prefix(frontend_url, "http://localhost"@) ==> !spec_cookie_secure(EnvValue::NotPresent, frontend_url),
{
    reveal_strlit("true");
    reveal_strlit("false");
    assert("true"@.len() == 4);
    assert("false"@.len() == 5);
}

/// Unless `COOKIE_SECURE` is exactly `true` or `false`, whether it is absent,
/// unreadable or any other text, cookies are secure exactly when the frontend
/// URL starts with neither `http://localhost` nor `http://127.0.0.1`.
pub proof fn cookie_security_default(v: EnvValue, frontend_url: Seq<char>)
    requires
        !(v matches EnvValue::Present(s) && (s@ == "true"@ || s@ == "false"@)),
    ensures
        spec_cookie_secure(v, frontend_url) == !(has_prefix(frontend_url, "http://localhost"@) || has_prefix(
            frontend_url,
            "http://127.0.0.1"@,
        )),
{
}

/// An update of an existing invoice that sets at least one field writes that
/// invoice: each field given is written as given, each field not given keeps
/// its current value.
pub proof fn invoice_update_writes_given_fields(id: u128, current: Invoice, customer_id: Option<u128>, cost_bits: Option<u64>)
    requires
        customer_id is Some || cost_bits is Some,
    ensures
        spec_plan_update(id, Some(current), customer_id, cost_bits) matches InvoiceUpdate::Write { id: w, customer_id: c, cost_bits: k }
            && w == id
            && c == (if customer_id is Some { customer_id->0 } else { current.customer_id })
            && k == (if cost_bits is Some { cost_bits->0 } else { current.cost_bits }),
{
}

/// Access tokens are issued whenever chrono can represent the expiry: at an
/// instant `now` (microseconds) with a lifetime of `secs` seconds that
/// `TimeDelta::seconds` accepts and that ends within chrono's range, the
/// claims name the email as subject and email and the user, with `iat` the
/// whole seconds of `now` and `exp` those of `now + secs`; and
/// `generate_access_token_at` gives the token signed with those claims.
/// Otherwise no claims are made and the answer is an internal error.
pub proof fn access_token_issued_whenever_expiry_representable(
    service: AuthService,
    user_id: u128,
    email: Seq<char>,
    now: i64,
    r: Result<String, ApiError>,
)
    requires
        access_token_outcome(service, user_id, email, now as int, r),
    ensures
        ({
            let secs = service.access_expiry() as int;
            let end = now + secs * 1000000;
            let representable = -9223372036854775 <= secs <= 9223372036854775 && MIN_UTC_MICROS <= now <= MAX_UTC_MICROS
                && MIN_UTC_MICROS <= end <= MAX_UTC_MICROS;
            &&& representable ==> access_claims_spec(user_id, email, now as int, secs) == Some::<AccessClaimsView>(
                (email, email, user_id, (end / 1000000) as usize, (now as int / 1000000) as usize),
            )
            &&& representable ==> (r matches Ok(t) && t@ == jwt_access_token(
                service.secret(),
                email,
                email,
                user_id,
                (end / 1000000) as usize,
                (now as int / 1000000) as usize,
            ))
            &&& !representable ==> (access_claims_spec(user_id, email, now as int, secs) is None && r matches Err(ApiError::InternalError(_)))
        }),
{
}

/// A successful refresh answers with the configured access lifetime and the
/// fixed cookie lifetimes: after the presented token was revoked for user `u`
/// and the new one stored, the reply says `Bearer` with `expires_in` equal to
/// the flow's access lifetime, sets the refresh cookie (7 days) to the hex of
/// the random bytes and the access cookie (15 minutes); the token stored is
/// for `u`, is that refresh cookie's hash and expires the service's refresh
/// lifetime in days after the instant of issue.
pub proof fn refresh_answer_carries_configured_lifetime(
    f0: RefreshFlow,
    f1: RefreshFlow,
    f2: RefreshFlow,
    u: User,
    n1: Instant,
    n2: Instant,
    r1: Seq<u8>,
    r2: Seq<u8>,
    a1: RefreshAction,
    a2: RefreshAction,
)
    requires
        f0.spec_stage() == RefreshStage::AwaitingRevocation(u),
        refresh_transition(f0, f1, RefreshEvent::TokenDeleted, n1, r1, a1),
        refresh_transition(f1, f2, RefreshEvent::TokenStored, n2, r2, a2),
        a2 is Reply && a2->Reply_0 is Ok,
    ensures
        a2 matches RefreshAction::Reply(Ok(reply))
            && reply.body.expires_in == f0.spec_access_expiry()
            && reply.body.token_type@ == "Bearer"@
            && reply.cookies@.len() == 2
            && reply.cookies@[0].name@ == "refresh_token"@
            && reply.cookies@[0].max_age_secs == 604800
            && reply.cookies@[0].value@ == hex_text(r1)
            && reply.cookies@[1].name@ == "access_token"@
            && reply.cookies@[1].max_age_secs == 900,
        a1 matches RefreshAction::StoreRefreshToken { user_id, token_hash, expires_at }
            && user_id == u.id
            && token_hash@ == token_hash_text(hex_text(r1))
            && expires_at == n1.micros + f0.spec_service().refresh_expiry() * 86400 * 1000000,
{
    reveal_strlit("refresh_token");
    reveal_strlit("access_token");
}

/// At the end of sign-in the refresh cookie lives as long as the refresh
/// token stored for it: its max-age is the configured refresh lifetime in
/// days, in seconds, which is the time from the instant of issue to the stored
/// expiry; it holds the hex of the random bytes, whose hash is what was
/// stored; and the access cookie lives the configured access lifetime.
pub proof fn signin_refresh_cookie_lives_as_long_as_stored_token(
    g0: GoogleCallbackFlow,
    g1: GoogleCallbackFlow,
    g2: GoogleCallbackFlow,
    u: User,
    event: CallbackEvent,
    n1: Instant,
    n2: Instant,
    r1: Seq<u8>,
    r2: Seq<u8>,
    a1: CallbackAction,
    a2: CallbackAction,
)
    requires
        (g0.spec_stage() is AwaitingUser && event == CallbackEvent::UserFound(Some(u))) || (g0.spec_stage() is AwaitingCreation
            && event == CallbackEvent::UserCreated(u)),
        g0.spec_service().refresh_expiry() == g0.spec_refresh_days(),
        callback_transition(g0, g1, event, n1, r1, a1),
        callback_transition(g1, g2, CallbackEvent::TokenStored, n2, r2, a2),
        a2 is Reply && a2->Reply_0 is Ok,
    ensures
        a1 matches CallbackAction::StoreRefreshToken { user_id, token_hash, expires_at }
            && user_id == u.id
            && token_hash@ == token_hash_text(hex_text(r1))
            && (a2 matches CallbackAction::Reply(Ok(reply))
            && reply.cookies@.len() == 3
            && (reply.cookies@[1] matches CookieChange::Add(c)
            && c.name@ == "refresh_token"@
            && c.value@ == hex_text(r1)
            && c.max_age_secs == g0.spec_refresh_days() * 86400
            && c.max_age_secs * 1000000 == expires_at - n1.micros)
            && (reply.cookies@[2] matches CookieChange::Add(d)
            && d.name@ == "access_token"@
            && d.max_age_secs == g0.spec_access_expiry())),
{
}

/// A bearer token in the `Authorization` header is used even when an access
/// cookie is present.
pub proof fn bearer_header_wins_over_cookie(secret: Seq<char>, header: Seq<char>, cookie: Option<Seq<char>>)
    requires
        bearer_token(header) is Some,
    ensures
        spec_request_claims(secret, Some(header), cookie) == spec_request_claims(secret, Some(header), None),
{
}

} // verus!
