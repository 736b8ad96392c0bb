//! The decision engine: one check request as a state machine. The caller performs
//! each action (a cache read or write, an introspection call, an identity lookup)
//! and hands the outcome back as an event, until the action is `Finish`.
//!
//! Recording a confirmation or a revocation is a read followed by a write of the
//! token's status, not an atomic update: two checks of one token that interleave
//! these steps can lose an update (a revocation overwritten by a confirmation read
//! before it). Such writes are best effort and never change the verdict already due.
use vstd::prelude::*;
use crate::claims::{
    extract_jwt_claims_from_request, extract_jwt_token_from_request, first_value, timestamp_of,
    Metadata,
};
use crate::errors::{cause_of, wraps, InternalError};
use crate::headers::{forwarded_headers, prepare_headers, RequestContext, Session};
use crate::identity::IdentityRecord;
use crate::introspection::HydraValidation;
use crate::response::{is_allow, is_refusal, CheckResponse, Code, MessageKey};
use crate::routes::{classify_spec, RouteClass, RouteTable};
use crate::text::{bearer_prefix, text_or_empty};
use crate::token_cache::{entry_at, lemma_get_after_set};
use crate::token_status::{
    check_token, fresh_status, fresh_view, is_stale, needs_introspection, opt_view, revoked_status,
    revoked_view, RedisCheck, TokenStatus, TokenStatusView, REVALIDATION_WINDOW,
};

verus! {

/// Where a check stands: which outcome it waits for.
#[derive(Clone, Copy, Debug, PartialEq, Eq, Structural)]
pub enum Phase {
    /// The cached status of the token.
    AwaitStatus,
    /// The authority's opinion of the token.
    AwaitIntrospection,
    /// The cached status, to record a fresh confirmation.
    AwaitFreshRead,
    /// The write of the fresh confirmation.
    AwaitFreshWrite,
    /// The cached status, to record a revocation.
    AwaitRevokeRead,
    /// The write of the revocation.
    AwaitRevokeWrite,
    /// The cached identity record of the caller.
    AwaitIdentityCache,
    /// The identity record from the backing store.
    AwaitIdentityStore,
    /// The write of that record to the cache.
    AwaitIdentityWrite,
    /// The verdict is given.
    Done,
}

/// What a check knows of its request; fixed once the check has begun.
#[derive(Debug)]
pub struct CheckRequest {
    pub ctx: RequestContext,
    /// Epoch seconds at which the check began.
    pub now: i64,
    pub token_id: String,
    /// The raw bearer token; empty when the request carried none.
    pub token: String,
    pub subject: String,
    pub issued_at: Option<i64>,
    pub expires_at: Option<i64>,
}

/// The state of one check.
pub struct CheckState {
    pub phase: Phase,
    pub request: CheckRequest,
    /// Device of the session, as the cached status recorded it.
    pub device_id: String,
    /// The identity record while it is written to the cache.
    pub identity: Option<IdentityRecord>,
    /// Introspection calls asked for so far.
    pub introspections: Ghost<nat>,
}

/// An outcome the caller hands back.
#[derive(Debug)]
pub enum Event {
    StatusRead(Result<Option<TokenStatus>, InternalError>),
    Introspected(Result<HydraValidation, InternalError>),
    StatusWritten(Result<(), InternalError>),
    IdentityCached(Result<Option<IdentityRecord>, InternalError>),
    IdentityQueried(Result<IdentityRecord, InternalError>),
    IdentityWritten(Result<(), InternalError>),
}

/// What the caller must do next.
#[derive(Debug)]
pub enum Action {
    /// Read the cached status of a token id.
    ReadStatus { token_id: String },
    /// Ask the authority whether a token is active.
    Introspect { token: String },
    /// Store a status under a token id.
    WriteStatus { token_id: String, status: TokenStatus },
    /// Read the cached identity record of a subject.
    ReadIdentity { subject: String },
    /// Query the backing store for the identity record of a subject.
    QueryIdentity { subject: String },
    /// Store an identity record in the cache.
    WriteIdentity { subject: String, record: IdentityRecord },
    /// Answer the request.
    Finish(CheckResponse),
}

/// The result of one transition. A `report` is a failure for the error reporter;
/// it never changes the verdict.
pub struct Step {
    pub state: CheckState,
    pub action: Action,
    pub report: Option<InternalError>,
}

impl CheckState {
    /// At most one introspection is asked for, and none before the cached status is read.
    pub open spec fn inv(&self) -> bool {
        &&& self.introspections@ <= 1
        &&& self.phase == Phase::AwaitStatus ==> self.introspections@ == 0
    }
}

/// The session forwarded for the caller of `s`, with identity record `identity`.
pub open spec fn session_of(s: CheckState, identity: IdentityRecord) -> Session {
    Session {
        token_id: s.request.token_id,
        token: s.request.token,
        issued_at: s.request.issued_at,
        expires_at: s.request.expires_at,
        subject: s.request.subject,
        device_id: s.device_id,
        identity,
    }
}

/// The check ended with `resp`.
pub open spec fn finished_with(r: Step, pred: spec_fn(CheckResponse) -> bool) -> bool {
    &&& r.state.phase == Phase::Done
    &&& r.action is Finish
    &&& pred(r.action->Finish_0)
}

pub open spec fn finished_internal(r: Step) -> bool {
    finished_with(r, |c: CheckResponse| is_refusal(c, Code::Internal, MessageKey::Internal))
}

pub open spec fn finished_denied(r: Step) -> bool {
    finished_with(r, |c: CheckResponse| is_refusal(c, Code::PermissionDenied, MessageKey::InvalidToken))
}

pub open spec fn finished_allowed(r: Step, s: CheckState, identity: IdentityRecord) -> bool {
    finished_with(
        r,
        |c: CheckResponse|
            is_allow(c, forwarded_headers(s.request.ctx, Some(session_of(s, identity)), s.request.now)),
    )
}

/// The check moved to `phase` and asks for `action`, reporting nothing.
pub open spec fn moved_to(r: Step, phase: Phase, action: Action) -> bool {
    &&& r.state.phase == phase
    &&& r.action == action
}

/// The operation path of the identity lookup that feeds the forwarded headers.
pub open spec fn identity_lookup_path() -> Seq<char> {
    "auth.controller.prepare_headers"@
}

/// The operation path of filling the identity cache from the backing store.
pub open spec fn identity_insert_path() -> Seq<char> {
    "auth.controller.insert_auth_cached_user_data"@
}

/// `report` is a failed identity lookup caused by `err`.
pub open spec fn lookup_failure(report: Option<InternalError>, err: InternalError) -> bool {
    report is Some && wraps(report->Some_0, identity_lookup_path(), err)
}

/// `report` is a failed identity lookup caused by a failure, `err`, to fill the
/// identity cache (the store query or the write-back).
pub open spec fn insert_failure(report: Option<InternalError>, err: InternalError) -> bool {
    &&& report is Some
    &&& cause_of(report->Some_0) is Some
    &&& wraps(report->Some_0, identity_lookup_path(), cause_of(report->Some_0)->Some_0)
    &&& wraps(cause_of(report->Some_0)->Some_0, identity_insert_path(), err)
}

/// The raw token of an `authorization` value `Bearer <token>`; empty otherwise.
pub open spec fn bearer_token_of(value: Option<Seq<char>>) -> Seq<char> {
    match value {
        Some(v) => if v.len() >= 7 && v.subrange(0, 7) == bearer_prefix() {
            v.subrange(7, v.len() as int)
        } else {
            Seq::empty()
        },
        None => Seq::empty(),
    }
}

/// What `begin` does with a request to `ctx.path` carrying `meta`, at `now`.
pub open spec fn begin_holds(
    routes: Seq<(Seq<char>, bool)>,
    ctx: RequestContext,
    meta: Metadata,
    now: i64,
    r: Step,
) -> bool {
    &&& r.report is None
    &&& r.state.introspections@ == 0
    &&& r.state.inv()
    &&& match classify_spec(routes, ctx.path@) {
        RouteClass::Unknown => finished_with(
            r,
            |c: CheckResponse| is_refusal(c, Code::NotFound, MessageKey::NotFound),
        ),
        RouteClass::Public => finished_with(
            r,
            |c: CheckResponse| is_allow(c, forwarded_headers(ctx, None, now)),
        ),
        RouteClass::Protected => {
            let jti = text_or_empty(first_value(meta.pairs(), "x-jwt-jti"@));
            if jti.len() == 0 {
                finished_denied(r)
            } else {
                &&& r.state.phase == Phase::AwaitStatus
                &&& r.action is ReadStatus
                &&& r.action->ReadStatus_token_id@ == jti
                &&& r.state.request.token_id@ == jti
                &&& r.state.request.ctx == ctx
                &&& r.state.request.now == now
                &&& r.state.request.subject@ == text_or_empty(
                    first_value(meta.pairs(), "x-jwt-sub"@),
                )
                &&& r.state.request.issued_at == timestamp_of(
                    first_value(meta.pairs(), "x-jwt-iat"@),
                )
                &&& r.state.request.expires_at == timestamp_of(
                    first_value(meta.pairs(), "x-jwt-exp"@),
                )
                &&& r.state.request.token@ == bearer_token_of(
                    first_value(meta.pairs(), "authorization"@),
                )
            }
        },
    }
}

/// What `step` does from state `s` on event `e`.
pub open spec fn step_holds(s: CheckState, e: Event, r: Step) -> bool {
    &&& r.state.request == s.request
    &&& r.state.introspections@ == s.introspections@ + if r.action is Introspect {
        1nat
    } else {
        0nat
    }
    &&& s.inv() ==> r.state.inv()
    &&& s.phase != Phase::AwaitStatus ==> r.state.device_id == s.device_id
    &&& match (s.phase, e) {
        (Phase::AwaitStatus, Event::StatusRead(Err(err))) => finished_internal(r) && r.report
            == Some(err),
        (Phase::AwaitStatus, Event::StatusRead(Ok(found))) => {
            &&& r.report is None
            &&& if found is Some && found->Some_0.revoked {
                finished_denied(r)
            } else if is_stale(opt_view(found), s.request.now) {
                moved_to(r, Phase::AwaitIntrospection, Action::Introspect { token: s.request.token })
            } else {
                moved_to(
                    r,
                    Phase::AwaitIdentityCache,
                    Action::ReadIdentity { subject: s.request.subject },
                )
            }
            &&& !(found is Some && found->Some_0.revoked) ==> r.state.device_id@ == match found {
                Some(st) => st.device_id@,
                None => Seq::empty(),
            }
        },
        (Phase::AwaitIntrospection, Event::Introspected(Err(err))) => finished_internal(r)
            && r.report == Some(err),
        (Phase::AwaitIntrospection, Event::Introspected(Ok(v))) => r.report is None && if v is Valid {
            moved_to(r, Phase::AwaitFreshRead, Action::ReadStatus { token_id: s.request.token_id })
        } else {
            moved_to(r, Phase::AwaitRevokeRead, Action::ReadStatus { token_id: s.request.token_id })
        },
        (Phase::AwaitFreshRead, Event::StatusRead(Ok(prev))) => {
            &&& r.report is None
            &&& r.state.phase == Phase::AwaitFreshWrite
            &&& r.action is WriteStatus
            &&& r.action->WriteStatus_token_id == s.request.token_id
            &&& r.action->WriteStatus_status@ == fresh_view(opt_view(prev), s.request.now)
        },
        (Phase::AwaitFreshRead, Event::StatusRead(Err(err))) => r.report == Some(err) && moved_to(
            r,
            Phase::AwaitIdentityCache,
            Action::ReadIdentity { subject: s.request.subject },
        ),
        (Phase::AwaitFreshWrite, Event::StatusWritten(w)) => {
            &&& r.report == match w {
                Ok(_) => None,
                Err(err) => Some(err),
            }
            &&& moved_to(
                r,
                Phase::AwaitIdentityCache,
                Action::ReadIdentity { subject: s.request.subject },
            )
        },
        (Phase::AwaitRevokeRead, Event::StatusRead(Ok(prev))) => {
            &&& r.report is None
            &&& r.state.phase == Phase::AwaitRevokeWrite
            &&& r.action is WriteStatus
            &&& r.action->WriteStatus_token_id == s.request.token_id
            &&& r.action->WriteStatus_status@ == revoked_view(opt_view(prev))
        },
        (Phase::AwaitRevokeRead, Event::StatusRead(Err(err))) => r.report == Some(err)
            && finished_denied(r),
        (Phase::AwaitRevokeWrite, Event::StatusWritten(w)) => {
            &&& r.report == match w {
                Ok(_) => None,
                Err(err) => Some(err),
            }
            &&& finished_denied(r)
        },
        (Phase::AwaitIdentityCache, Event::IdentityCached(Ok(Some(rec)))) => r.report is None
            && finished_allowed(r, s, rec),
        (Phase::AwaitIdentityCache, Event::IdentityCached(Ok(None))) => r.report is None && moved_to(
            r,
            Phase::AwaitIdentityStore,
            Action::QueryIdentity { subject: s.request.subject },
        ),
        (Phase::AwaitIdentityCache, Event::IdentityCached(Err(err))) => finished_internal(r)
            && lookup_failure(r.report, err),
        (Phase::AwaitIdentityStore, Event::IdentityQueried(Ok(rec))) => {
            &&& r.report is None
            &&& r.state.phase == Phase::AwaitIdentityWrite
            &&& r.state.identity == Some(rec)
            &&& r.state.device_id == s.device_id
            &&& r.action is WriteIdentity
            &&& r.action->WriteIdentity_subject == s.request.subject
            &&& r.action->record@ == rec@
        },
        (Phase::AwaitIdentityStore, Event::IdentityQueried(Err(err))) => finished_internal(r)
            && insert_failure(r.report, err),
        (Phase::AwaitIdentityWrite, Event::IdentityWritten(Ok(_))) => r.report is None && match s.identity {
            Some(rec) => finished_allowed(r, s, rec),
            None => finished_internal(r),
        },
        (Phase::AwaitIdentityWrite, Event::IdentityWritten(Err(err))) => finished_internal(r)
            && insert_failure(r.report, err),
        _ => finished_internal(r) && r.report is None,
    }
}

fn session(request: &CheckRequest, device_id: &String, identity: IdentityRecord) -> (r: Session)
    ensures
        r == (Session {
            token_id: request.token_id,
            token: request.token,
            issued_at: request.issued_at,
            expires_at: request.expires_at,
            subject: request.subject,
            device_id: *device_id,
            identity,
        }),
{
    Session {
        token_id: request.token_id.clone(),
        token: request.token.clone(),
        issued_at: request.issued_at,
        expires_at: request.expires_at,
        subject: request.subject.clone(),
        device_id: device_id.clone(),
        identity,
    }
}

/// `err` as a failed identity lookup for the forwarded headers.
fn lookup_error(err: InternalError) -> (r: InternalError)
    ensures
        lookup_failure(Some(r), err),
{
    InternalError::wrap(
        String::from_str("auth.controller.prepare_headers"),
        String::from_str("failed to get or insert the user data forwarded to downstream services"),
        err,
    )
}

/// `err`, a failure to fill the identity cache, as a failed identity lookup.
fn insert_error(err: InternalError, msg: String) -> (r: InternalError)
    ensures
        insert_failure(Some(r), err),
{
    let inner = InternalError::wrap(
        String::from_str("auth.controller.insert_auth_cached_user_data"),
        msg,
        err,
    );
    lookup_error(inner)
}

fn empty_request(ctx: RequestContext, now: i64) -> (r: CheckRequest)
    ensures
        r.ctx == ctx,
        r.now == now,
{
    CheckRequest {
        ctx,
        now,
        token_id: String::new(),
        token: String::new(),
        subject: String::new(),
        issued_at: None,
        expires_at: None,
    }
}

impl CheckState {
    /// Starts a check of a request to `ctx.path` carrying `meta`, at `now` (epoch seconds).
    /// An unknown path is answered "not found" and a public one allowed, with no token
    /// work; a protected one without a token id is denied; otherwise the token's cached
    /// status is read first.
    pub fn begin(routes: &RouteTable, ctx: RequestContext, meta: &Metadata, now: i64) -> (r: Step)
        ensures
            begin_holds(routes@, ctx, *meta, now, r),
    {
        let class = routes.classify(ctx.path.as_str());
        match class {
            RouteClass::Unknown => {
                let state = CheckState {
                    phase: Phase::Done,
                    request: empty_request(ctx, now),
                    device_id: String::new(),
                    identity: None,
                    introspections: Ghost(0),
                };
                Step { state, action: Action::Finish(CheckResponse::not_found()), report: None }
            },
            RouteClass::Public => {
                let headers = prepare_headers(&ctx, None, now);
                let state = CheckState {
                    phase: Phase::Done,
                    request: empty_request(ctx, now),
                    device_id: String::new(),
                    identity: None,
                    introspections: Ghost(0),
                };
                Step { state, action: Action::Finish(CheckResponse::ok(headers)), report: None }
            },
            RouteClass::Protected => {
                let claims = extract_jwt_claims_from_request(meta);
                if claims.jti.as_str().unicode_len() == 0 {
                    let state = CheckState {
                        phase: Phase::Done,
                        request: empty_request(ctx, now),
                        device_id: String::new(),
                        identity: None,
                        introspections: Ghost(0),
                    };
                    return Step {
                        state,
                        action: Action::Finish(CheckResponse::denied()),
                        report: None,
                    };
                }
                let token = match extract_jwt_token_from_request(meta) {
                    Some(t) => t,
                    None => String::new(),
                };
                let request = CheckRequest {
                    ctx,
                    now,
                    token_id: claims.jti.clone(),
                    token,
                    subject: claims.sub,
                    issued_at: claims.iat,
                    expires_at: claims.exp,
                };
                let state = CheckState {
                    phase: Phase::AwaitStatus,
                    request,
                    device_id: String::new(),
                    identity: None,
                    introspections: Ghost(0),
                };
                Step { state, action: Action::ReadStatus { token_id: claims.jti }, report: None }
            },
        }
    }

    /// Advances the check with the outcome of the action it asked for. An event that
    /// does not answer that action ends the check with an internal error.
    pub fn step(self, event: Event) -> (r: Step)
        ensures
            step_holds(self, event, r),
    {
        let ghost old_self = self;
        let CheckState { phase, request, device_id, identity, introspections } = self;
        match phase {
            Phase::AwaitStatus => match event {
                Event::StatusRead(Err(err)) => Self::fail(request, device_id, introspections, Some(err)),
                Event::StatusRead(Ok(found)) => match check_token(found) {
                    RedisCheck::Revoked(_) => Self::deny(request, device_id, introspections, None),
                    RedisCheck::Allowed { status } => {
                        let stale = needs_introspection(&status, request.now);
                        let device_id = match status {
                            Some(st) => st.device_id,
                            None => String::new(),
                        };
                        if stale {
                            let token = request.token.clone();
                            let state = CheckState {
                                phase: Phase::AwaitIntrospection,
                                request,
                                device_id,
                                identity: None,
                                introspections: Ghost((introspections@ + 1) as nat),
                            };
                            Step { state, action: Action::Introspect { token }, report: None }
                        } else {
                            Self::to_identity(request, device_id, introspections, None)
                        }
                    },
                },
                _ => Self::fail(request, device_id, introspections, None),
            },
            Phase::AwaitIntrospection => match event {
                Event::Introspected(Err(err)) => Self::fail(request, device_id, introspections, Some(err)),
                Event::Introspected(Ok(v)) => {
                    let next = match v {
                        HydraValidation::Valid { .. } => Phase::AwaitFreshRead,
                        HydraValidation::Invalid(_) => Phase::AwaitRevokeRead,
                    };
                    let token_id = request.token_id.clone();
                    let state = CheckState { phase: next, request, device_id, identity: None, introspections };
                    Step { state, action: Action::ReadStatus { token_id }, report: None }
                },
                _ => Self::fail(request, device_id, introspections, None),
            },
            Phase::AwaitFreshRead => match event {
                Event::StatusRead(Ok(prev)) => {
                    let status = fresh_status(prev, request.now);
                    let token_id = request.token_id.clone();
                    let state = CheckState {
                        phase: Phase::AwaitFreshWrite,
                        request,
                        device_id,
                        identity: None,
                        introspections,
                    };
                    Step { state, action: Action::WriteStatus { token_id, status }, report: None }
                },
                Event::StatusRead(Err(err)) => Self::to_identity(request, device_id, introspections, Some(err)),
                _ => Self::fail(request, device_id, introspections, None),
            },
            Phase::AwaitFreshWrite => match event {
                Event::StatusWritten(w) => {
                    let report = match w {
                        Ok(_) => None,
                        Err(err) => Some(err),
                    };
                    Self::to_identity(request, device_id, introspections, report)
                },
                _ => Self::fail(request, device_id, introspections, None),
            },
            Phase::AwaitRevokeRead => match event {
                Event::StatusRead(Ok(prev)) => {
                    let status = revoked_status(prev);
                    let token_id = request.token_id.clone();
                    let state = CheckState {
                        phase: Phase::AwaitRevokeWrite,
                        request,
                        device_id,
                        identity: None,
                        introspections,
                    };
                    Step { state, action: Action::WriteStatus { token_id, status }, report: None }
                },
                Event::StatusRead(Err(err)) => Self::deny(request, device_id, introspections, Some(err)),
                _ => Self::fail(request, device_id, introspections, None),
            },
            Phase::AwaitRevokeWrite => match event {
                Event::StatusWritten(w) => {
                    let report = match w {
                        Ok(_) => None,
                        Err(err) => Some(err),
                    };
                    Self::deny(request, device_id, introspections, report)
                },
                _ => Self::fail(request, device_id, introspections, None),
            },
            Phase::AwaitIdentityCache => match event {
                Event::IdentityCached(Ok(Some(rec))) => Self::allow(request, device_id, introspections, rec),
                Event::IdentityCached(Ok(None)) => {
                    let subject = request.subject.clone();
                    let state = CheckState {
                        phase: Phase::AwaitIdentityStore,
                        request,
                        device_id,
                        identity: None,
                        introspections,
                    };
                    Step { state, action: Action::QueryIdentity { subject }, report: None }
                },
                Event::IdentityCached(Err(err)) => Self::fail(
                    request,
                    device_id,
                    introspections,
                    Some(lookup_error(err)),
                ),
                _ => Self::fail(request, device_id, introspections, None),
            },
            Phase::AwaitIdentityStore => match event {
                Event::IdentityQueried(Ok(rec)) => {
                    let subject = request.subject.clone();
                    let record = rec.copy();
                    let state = CheckState {
                        phase: Phase::AwaitIdentityWrite,
                        request,
                        device_id,
                        identity: Some(rec),
                        introspections,
                    };
                    Step { state, action: Action::WriteIdentity { subject, record }, report: None }
                },
                Event::IdentityQueried(Err(err)) => Self::fail(
                    request,
                    device_id,
                    introspections,
                    Some(insert_error(err, String::from_str("failed to get user auth data"))),
                ),
                _ => Self::fail(request, device_id, introspections, None),
            },
            Phase::AwaitIdentityWrite => match event {
                Event::IdentityWritten(Ok(_)) => match identity {
                    Some(rec) => Self::allow(request, device_id, introspections, rec),
                    None => Self::fail(request, device_id, introspections, None),
                },
                Event::IdentityWritten(Err(err)) => Self::fail(
                    request,
                    device_id,
                    introspections,
                    Some(insert_error(err, String::from_str("failed to cache the user auth data"))),
                ),
                _ => Self::fail(request, device_id, introspections, None),
            },
            Phase::Done => Self::fail(request, device_id, introspections, None),
        }
    }

    fn fail(
        request: CheckRequest,
        device_id: String,
        introspections: Ghost<nat>,
        report: Option<InternalError>,
    ) -> (r: Step)
        ensures
            finished_internal(r),
            r.report == report,
            r.state.request == request,
            r.state.device_id == device_id,
            r.state.introspections == introspections,
    {
        let state = CheckState { phase: Phase::Done, request, device_id, identity: None, introspections };
        Step { state, action: Action::Finish(CheckResponse::internal()), report }
    }

    fn deny(
        request: CheckRequest,
        device_id: String,
        introspections: Ghost<nat>,
        report: Option<InternalError>,
    ) -> (r: Step)
        ensures
            finished_denied(r),
            r.report == report,
            r.state.request == request,
            r.state.device_id == device_id,
            r.state.introspections == introspections,
    {
        let state = CheckState { phase: Phase::Done, request, device_id, identity: None, introspections };
        Step { state, action: Action::Finish(CheckResponse::denied()), report }
    }

    fn to_identity(
        request: CheckRequest,
        device_id: String,
        introspections: Ghost<nat>,
        report: Option<InternalError>,
    ) -> (r: Step)
        ensures
            moved_to(r, Phase::AwaitIdentityCache, Action::ReadIdentity { subject: request.subject }),
            r.report == report,
            r.state.request == request,
            r.state.device_id == device_id,
            r.state.introspections == introspections,
    {
        let subject = request.subject.clone();
        let state = CheckState {
            phase: Phase::AwaitIdentityCache,
            request,
            device_id,
            identity: None,
            introspections,
        };
        Step { state, action: Action::ReadIdentity { subject }, report }
    }

    fn allow(
        request: CheckRequest,
        device_id: String,
        introspections: Ghost<nat>,
        identity: IdentityRecord,
    ) -> (r: Step)
        ensures
            finished_with(
                r,
                |c: CheckResponse|
                    is_allow(
                        c,
                        forwarded_headers(
                            request.ctx,
                            Some(
                                Session {
                                    token_id: request.token_id,
                                    token: request.token,
                                    issued_at: request.issued_at,
                                    expires_at: request.expires_at,
                                    subject: request.subject,
                                    device_id,
                                    identity,
                                },
                            ),
                            request.now,
                        ),
                    ),
            ),
            r.report is None,
            r.state.request == request,
            r.state.device_id == device_id,
            r.state.introspections == introspections,
    {
        let sess = session(&request, &device_id, identity);
        let headers = prepare_headers(&request.ctx, Some(&sess), request.now);
        let state = CheckState { phase: Phase::Done, request, device_id, identity: None, introspections };
        Step { state, action: Action::Finish(CheckResponse::ok(headers)), report: None }
    }
}

/// A request to an unknown path is answered "not found" by its first action: no cache
/// read and no introspection take place.
pub proof fn lemma_unknown_path_not_found(
    routes: Seq<(Seq<char>, bool)>,
    ctx: RequestContext,
    meta: Metadata,
    now: i64,
    r: Step,
)
    requires
        classify_spec(routes, ctx.path@) == RouteClass::Unknown,
        begin_holds(routes, ctx, meta, now, r),
    ensures
        r.state.phase == Phase::Done,
        r.action is Finish,
        r.action->Finish_0.code == Code::NotFound,
{
}

/// A request to a public path is allowed by its first action, with the context headers
/// only, whatever metadata (token or none) it carries: no cache read, no introspection.
pub proof fn lemma_public_path_allowed(
    routes: Seq<(Seq<char>, bool)>,
    ctx: RequestContext,
    meta: Metadata,
    now: i64,
    r: Step,
)
    requires
        classify_spec(routes, ctx.path@) == RouteClass::Public,
        begin_holds(routes, ctx, meta, now, r),
    ensures
        r.state.phase == Phase::Done,
        r.action is Finish,
        r.action->Finish_0.code == Code::Allowed,
        is_allow(r.action->Finish_0, forwarded_headers(ctx, None, now)),
{
}

/// A request to a protected path without a token id is denied by its first action:
/// no cache read, no introspection.
pub proof fn lemma_missing_token_denied(
    routes: Seq<(Seq<char>, bool)>,
    ctx: RequestContext,
    meta: Metadata,
    now: i64,
    r: Step,
)
    requires
        classify_spec(routes, ctx.path@) == RouteClass::Protected,
        text_or_empty(first_value(meta.pairs(), "x-jwt-jti"@)).len() == 0,
        begin_holds(routes, ctx, meta, now, r),
    ensures
        r.state.phase == Phase::Done,
        r.action is Finish,
        r.action->Finish_0.code == Code::PermissionDenied,
{
}

/// A token whose cached status is revoked is denied, and the authority is not asked.
pub proof fn lemma_revoked_token_denied(s: CheckState, status: TokenStatus, r: Step)
    requires
        s.phase == Phase::AwaitStatus,
        status.revoked,
        step_holds(s, Event::StatusRead(Ok(Some(status))), r),
    ensures
        r.state.phase == Phase::Done,
        r.action is Finish,
        r.action->Finish_0.code == Code::PermissionDenied,
        r.state.introspections@ == s.introspections@,
{
}

/// A token with no cached status is sent to the authority: this is the check's first
/// and only introspection.
pub proof fn lemma_uncached_token_introspected(s: CheckState, r: Step)
    requires
        s.phase == Phase::AwaitStatus,
        s.inv(),
        step_holds(s, Event::StatusRead(Ok(None)), r),
    ensures
        r.action == (Action::Introspect { token: s.request.token }),
        r.state.introspections@ == 1,
{
}

/// When the authority confirms a token, the check goes on to record the confirmation.
pub proof fn lemma_confirmed_token_recorded(s: CheckState, sub: String, exp: i64, r: Step)
    requires
        s.phase == Phase::AwaitIntrospection,
        step_holds(s, Event::Introspected(Ok(HydraValidation::Valid { sub, exp })), r),
    ensures
        r.state.phase == Phase::AwaitFreshRead,
        r.action == (Action::ReadStatus { token_id: s.request.token_id }),
{
}

/// The confirmation the check writes makes a later read of the token's status show it
/// not revoked and checked at the time of the check; the check then goes on to allow.
pub proof fn lemma_confirmation_read_back(
    s: CheckState,
    prev: Option<TokenStatus>,
    r: Step,
    cache: Map<Seq<char>, TokenStatusView>,
)
    requires
        s.phase == Phase::AwaitFreshRead,
        step_holds(s, Event::StatusRead(Ok(prev)), r),
    ensures
        r.action is WriteStatus,
        ({
            let stored = cache.insert(
                r.action->WriteStatus_token_id@,
                r.action->WriteStatus_status@,
            );
            &&& entry_at(stored, s.request.token_id@) is Some
            &&& !entry_at(stored, s.request.token_id@)->Some_0.revoked
            &&& entry_at(stored, s.request.token_id@)->Some_0.last_checked == s.request.now
        }),
{
    lemma_get_after_set(cache, r.action->WriteStatus_token_id@, r.action->WriteStatus_status@);
}

/// A token confirmed less than the revalidation window ago is trusted from the cache:
/// the check moves on to the identity lookup and the authority is not asked.
pub proof fn lemma_fresh_token_trusted(s: CheckState, status: TokenStatus, r: Step)
    requires
        s.phase == Phase::AwaitStatus,
        !status.revoked,
        s.request.now - status.last_checked <= REVALIDATION_WINDOW,
        step_holds(s, Event::StatusRead(Ok(Some(status))), r),
    ensures
        r.action == (Action::ReadIdentity { subject: s.request.subject }),
        r.state.introspections@ == s.introspections@,
{
}

/// A token confirmed more than the revalidation window ago is sent to the authority,
/// once.
pub proof fn lemma_stale_token_introspected(s: CheckState, status: TokenStatus, r: Step)
    requires
        s.phase == Phase::AwaitStatus,
        s.inv(),
        !status.revoked,
        s.request.now - status.last_checked > REVALIDATION_WINDOW,
        step_holds(s, Event::StatusRead(Ok(Some(status))), r),
    ensures
        r.action == (Action::Introspect { token: s.request.token }),
        r.state.introspections@ == 1,
{
}

/// Over a whole check the authority is asked at most once: only the step that reads the
/// cached status may ask, and the count of introspections never passes one.
pub proof fn lemma_introspection_at_most_once(s: CheckState, e: Event, r: Step)
    requires
        s.inv(),
        step_holds(s, e, r),
    ensures
        r.state.inv(),
        r.action is Introspect ==> s.phase == Phase::AwaitStatus && r.state.introspections@ == 1,
{
}

} // verus!
