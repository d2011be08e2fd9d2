use vstd::prelude::*;

use std::collections::HashMap;

use crate::auth::{auth_type_of, AuthType};
use crate::error::UserError;
use crate::params::{
    sign_in_params_of, sign_up_params_of, update_params_of, validate_sign_in, validate_sign_up,
    validate_update_profile, SignInPayload, SignUpPayload, UpdateUserProfilePayload,
};
use crate::session::{Reply, SessionCall, UserProfile, UserSetting};
use crate::settings::{provider_config_of, validate_provider_config, ProviderConfigPayload};

verus! {

/// How an operation ended.
#[derive(Clone, Debug, PartialEq, Eq)]
pub enum Outcome {
    Done,
    Profile(UserProfile),
    Setting(UserSetting),
    Failed(UserError),
}

/// What the host does next for a request: make a call and report the reply,
/// or hand the outcome to the caller.
#[derive(Clone, Debug, PartialEq, Eq)]
pub enum Step {
    Call(SessionCall),
    Finish(Outcome),
}

/// What a request waits for, and so how it reads the next reply.
#[derive(Clone, Debug, PartialEq, Eq)]
pub enum Stage {
    /// The active auth type was handed over; the call that establishes the
    /// session comes next.
    AuthTypeApplied(SessionCall),
    AwaitProfile,
    AwaitUnit,
    AwaitSession,
    AwaitSetting,
    /// The call cannot fail; any reply completes the request.
    AwaitSaved,
    Closed,
}

/// The state of one request. Each request has its own, so concurrent
/// requests share nothing through it.
#[derive(Clone, Debug, PartialEq, Eq)]
pub struct Flow {
    pub step: Step,
    pub stage: Stage,
}

pub open spec fn finished(o: Outcome) -> Flow {
    Flow { step: Step::Finish(o), stage: Stage::Closed }
}

pub open spec fn calling(c: SessionCall, s: Stage) -> Flow {
    Flow { step: Step::Call(c), stage: s }
}

pub open spec fn unexpected() -> Flow {
    finished(Outcome::Failed(UserError::UnexpectedReply))
}

/// How a request moves on when the reply to its current call comes in.
pub open spec fn next_flow(f: Flow, reply: Reply) -> Flow {
    match f.stage {
        Stage::AuthTypeApplied(call) => calling(call, Stage::AwaitProfile),
        Stage::AwaitProfile => match reply {
            Reply::Profile(p) => finished(Outcome::Profile(p)),
            Reply::Failed(e) => finished(Outcome::Failed(e)),
            _ => unexpected(),
        },
        Stage::AwaitUnit => match reply {
            Reply::Done => finished(Outcome::Done),
            Reply::Failed(e) => finished(Outcome::Failed(e)),
            _ => unexpected(),
        },
        Stage::AwaitSession => match reply {
            Reply::Session(h) => calling(
                SessionCall::GetUserProfile { user_id: h.user_id, refresh: true },
                Stage::AwaitProfile,
            ),
            Reply::NoSession => finished(Outcome::Failed(UserError::NoActiveSession)),
            Reply::Failed(e) => finished(Outcome::Failed(e)),
            _ => unexpected(),
        },
        Stage::AwaitSetting => match reply {
            Reply::Setting(s) => finished(Outcome::Setting(s)),
            Reply::Failed(e) => finished(Outcome::Failed(e)),
            _ => unexpected(),
        },
        Stage::AwaitSaved => finished(Outcome::Done),
        Stage::Closed => f,
    }
}

/// The calls a request makes when its calls are answered by `replies` in
/// turn, up to the first call left unanswered.
pub open spec fn calls_made(f: Flow, replies: Seq<Reply>) -> Seq<SessionCall>
    decreases replies.len(),
{
    match f.step {
        Step::Finish(_) => Seq::empty(),
        Step::Call(c) => if replies.len() == 0 {
            seq![c]
        } else {
            seq![c] + calls_made(next_flow(f, replies[0]), replies.drop_first())
        },
    }
}

/// The state a request is in once `replies` have been fed to it.
pub open spec fn flow_after(f: Flow, replies: Seq<Reply>) -> Flow
    decreases replies.len(),
{
    if replies.len() == 0 || f.step is Finish {
        f
    } else {
        flow_after(next_flow(f, replies[0]), replies.drop_first())
    }
}

/// A request that validates first, then hands the auth type over, then
/// makes the call that establishes the session.
pub open spec fn auth_flow(a: AuthType, call: SessionCall) -> Flow {
    calling(SessionCall::UpdateActiveAuthType(a), Stage::AuthTypeApplied(call))
}

pub open spec fn sign_in_flow(p: SignInPayload) -> Flow {
    match sign_in_params_of(p) {
        Err(e) => finished(Outcome::Failed(e)),
        Ok(params) => auth_flow(
            params.auth_type,
            SessionCall::SignIn { params, auth_type: params.auth_type },
        ),
    }
}

pub open spec fn sign_up_flow(p: SignUpPayload) -> Flow {
    match sign_up_params_of(p) {
        Err(e) => finished(Outcome::Failed(e)),
        Ok(params) => auth_flow(
            params.auth_type,
            SessionCall::SignUp { auth_type: params.auth_type, params },
        ),
    }
}

pub open spec fn third_party_flow(p: ThirdPartyAuthPayload) -> Flow {
    auth_flow(p.auth_type, SessionCall::ThirdPartySignUp { auth_type: p.auth_type, map: p.map })
}

pub open spec fn profile_lookup_flow() -> Flow {
    calling(SessionCall::CurrentSession, Stage::AwaitSession)
}

pub open spec fn update_profile_flow(p: UpdateUserProfilePayload) -> Flow {
    match update_params_of(p) {
        Err(e) => finished(Outcome::Failed(e)),
        Ok(params) => calling(SessionCall::UpdateUserProfile(params), Stage::AwaitUnit),
    }
}

pub open spec fn provider_config_flow(p: ProviderConfigPayload) -> Flow {
    match provider_config_of(p) {
        Err(e) => finished(Outcome::Failed(e)),
        Ok(config) => calling(SessionCall::SaveProviderConfig(config), Stage::AwaitSaved),
    }
}

/// A federated sign-in as it arrives: the provider's tag and its map, whose
/// shape only the provider knows.
pub struct ThirdPartyAuthPayload {
    pub auth_type: AuthType,
    pub map: HashMap<String, String>,
}

impl Flow {
    pub fn finish(o: Outcome) -> (r: Flow)
        ensures
            r == finished(o),
    {
        Flow { step: Step::Finish(o), stage: Stage::Closed }
    }

    pub fn call(c: SessionCall, s: Stage) -> (r: Flow)
        ensures
            r == calling(c, s),
    {
        Flow { step: Step::Call(c), stage: s }
    }

    /// Feeds the reply to the current call to the request.
    pub fn on_reply(self, reply: Reply) -> (r: Flow)
        ensures
            r == next_flow(self, reply),
    {
        match self.stage {
            Stage::AuthTypeApplied(call) => Flow::call(call, Stage::AwaitProfile),
            Stage::AwaitProfile => match reply {
                Reply::Profile(p) => Flow::finish(Outcome::Profile(p)),
                Reply::Failed(e) => Flow::finish(Outcome::Failed(e)),
                _ => Flow::finish(Outcome::Failed(UserError::UnexpectedReply)),
            },
            Stage::AwaitUnit => match reply {
                Reply::Done => Flow::finish(Outcome::Done),
                Reply::Failed(e) => Flow::finish(Outcome::Failed(e)),
                _ => Flow::finish(Outcome::Failed(UserError::UnexpectedReply)),
            },
            Stage::AwaitSession => match reply {
                Reply::Session(h) => Flow::call(
                    SessionCall::GetUserProfile { user_id: h.user_id, refresh: true },
                    Stage::AwaitProfile,
                ),
                Reply::NoSession => Flow::finish(Outcome::Failed(UserError::NoActiveSession)),
                Reply::Failed(e) => Flow::finish(Outcome::Failed(e)),
                _ => Flow::finish(Outcome::Failed(UserError::UnexpectedReply)),
            },
            Stage::AwaitSetting => match reply {
                Reply::Setting(s) => Flow::finish(Outcome::Setting(s)),
                Reply::Failed(e) => Flow::finish(Outcome::Failed(e)),
                _ => Flow::finish(Outcome::Failed(UserError::UnexpectedReply)),
            },
            Stage::AwaitSaved => Flow::finish(Outcome::Done),
            Stage::Closed => Flow { step: self.step, stage: Stage::Closed },
        }
    }
}

/// Sign-in: validate, hand the auth type over, then sign in with it.
pub fn sign_in(payload: SignInPayload) -> (r: Flow)
    ensures
        r == sign_in_flow(payload),
{
    match validate_sign_in(payload) {
        Err(e) => Flow::finish(Outcome::Failed(e)),
        Ok(params) => {
            let a = params.auth_type;
            Flow::call(
                SessionCall::UpdateActiveAuthType(a),
                Stage::AuthTypeApplied(SessionCall::SignIn { params, auth_type: a }),
            )
        },
    }
}

/// Sign-up: validate, hand the auth type over, then sign up with it.
pub fn sign_up(payload: SignUpPayload) -> (r: Flow)
    ensures
        r == sign_up_flow(payload),
{
    match validate_sign_up(payload) {
        Err(e) => Flow::finish(Outcome::Failed(e)),
        Ok(params) => {
            let a = params.auth_type;
            Flow::call(
                SessionCall::UpdateActiveAuthType(a),
                Stage::AuthTypeApplied(SessionCall::SignUp { auth_type: a, params }),
            )
        },
    }
}

/// Federated sign-in: hand the provider's auth type over, then sign up with
/// the provider's map, which is passed on untouched.
pub fn third_party_auth_handler(payload: ThirdPartyAuthPayload) -> (r: Flow)
    ensures
        r == third_party_flow(payload),
{
    let a = payload.auth_type;
    Flow::call(
        SessionCall::UpdateActiveAuthType(a),
        Stage::AuthTypeApplied(SessionCall::ThirdPartySignUp { auth_type: a, map: payload.map }),
    )
}

pub fn init_user_handler() -> (r: Flow)
    ensures
        r == calling(SessionCall::InitUser, Stage::AwaitUnit),
{
    Flow::call(SessionCall::InitUser, Stage::AwaitUnit)
}

pub fn check_user_handler() -> (r: Flow)
    ensures
        r == calling(SessionCall::CheckUser, Stage::AwaitUnit),
{
    Flow::call(SessionCall::CheckUser, Stage::AwaitUnit)
}

/// Profile lookup: find who is signed in, then fetch that user's profile
/// afresh.
pub fn get_user_profile_handler() -> (r: Flow)
    ensures
        r == profile_lookup_flow(),
{
    Flow::call(SessionCall::CurrentSession, Stage::AwaitSession)
}

pub fn sign_out() -> (r: Flow)
    ensures
        r == calling(SessionCall::SignOut, Stage::AwaitUnit),
{
    Flow::call(SessionCall::SignOut, Stage::AwaitUnit)
}

/// Profile update: validate, then hand the record to the session manager.
pub fn update_user_profile_handler(payload: UpdateUserProfilePayload) -> (r: Flow)
    ensures
        r == update_profile_flow(payload),
{
    match validate_update_profile(payload) {
        Err(e) => Flow::finish(Outcome::Failed(e)),
        Ok(params) => Flow::call(SessionCall::UpdateUserProfile(params), Stage::AwaitUnit),
    }
}

pub fn get_user_setting() -> (r: Flow)
    ensures
        r == calling(SessionCall::CurrentUserSetting, Stage::AwaitSetting),
{
    Flow::call(SessionCall::CurrentUserSetting, Stage::AwaitSetting)
}

/// Provider configuration: convert, then have the session manager keep it.
pub fn set_supabase_config_handler(payload: ProviderConfigPayload) -> (r: Flow)
    ensures
        r == provider_config_flow(payload),
{
    match validate_provider_config(payload) {
        Err(e) => Flow::finish(Outcome::Failed(e)),
        Ok(config) => Flow::call(SessionCall::SaveProviderConfig(config), Stage::AwaitSaved),
    }
}

/// Whatever a request that has settled is told, it calls nothing more.
proof fn settled_flow_is_silent(o: Outcome, replies: Seq<Reply>)
    ensures
        calls_made(finished(o), replies) == Seq::<SessionCall>::empty(),
        flow_after(finished(o), replies) == finished(o),
{
}

/// A request that hands over an auth type makes exactly two calls once the
/// first is answered: the hand-over, then the call that depends on it.
proof fn auth_flow_makes_two_calls(a: AuthType, call: SessionCall, replies: Seq<Reply>)
    requires
        replies.len() >= 1,
    ensures
        calls_made(auth_flow(a, call), replies) == seq![SessionCall::UpdateActiveAuthType(a), call],
{
    let f1 = next_flow(auth_flow(a, call), replies[0]);
    let rest = replies.drop_first();
    assert(f1 == calling(call, Stage::AwaitProfile));
    if rest.len() == 0 {
        assert(calls_made(f1, rest) == seq![call]);
    } else {
        let f2 = next_flow(f1, rest[0]);
        assert(f2.step is Finish);
        assert(calls_made(f2, rest.drop_first()) == Seq::<SessionCall>::empty());
        assert(calls_made(f1, rest) =~= seq![call]);
    }
    assert(calls_made(auth_flow(a, call), replies) =~= seq![
        SessionCall::UpdateActiveAuthType(a),
        call,
    ]);
}

/// A malformed sign-in, sign-up or profile-update payload ends the request
/// at once with a validation error: whatever happens after, it calls
/// nothing, neither an auth-type change nor a sign-in, sign-up or update.
pub proof fn malformed_payloads_make_no_calls(
    si: SignInPayload,
    su: SignUpPayload,
    up: UpdateUserProfilePayload,
    replies: Seq<Reply>,
)
    ensures
        sign_in_params_of(si) is Err ==> {
            &&& sign_in_params_of(si)->Err_0 is Validation
            &&& sign_in_flow(si).step == Step::Finish(Outcome::Failed(sign_in_params_of(si)->Err_0))
            &&& calls_made(sign_in_flow(si), replies).len() == 0
        },
        sign_up_params_of(su) is Err ==> {
            &&& sign_up_params_of(su)->Err_0 is Validation
            &&& sign_up_flow(su).step == Step::Finish(Outcome::Failed(sign_up_params_of(su)->Err_0))
            &&& calls_made(sign_up_flow(su), replies).len() == 0
        },
        update_params_of(up) is Err ==> {
            &&& update_params_of(up)->Err_0 is Validation
            &&& update_profile_flow(up).step == Step::Finish(
                Outcome::Failed(update_params_of(up)->Err_0),
            )
            &&& calls_made(update_profile_flow(up), replies).len() == 0
        },
{
    if sign_in_params_of(si) is Err {
        settled_flow_is_silent(Outcome::Failed(sign_in_params_of(si)->Err_0), replies);
    }
    if sign_up_params_of(su) is Err {
        settled_flow_is_silent(Outcome::Failed(sign_up_params_of(su)->Err_0), replies);
    }
    if update_params_of(up) is Err {
        settled_flow_is_silent(Outcome::Failed(update_params_of(up)->Err_0), replies);
    }
}

/// A valid sign-in or sign-up first hands its auth type to the session
/// manager, and only once that is answered makes the call that verifies the
/// credentials, with the same auth type; it calls nothing else.
pub proof fn auth_type_is_applied_before_sign_in(
    si: SignInPayload,
    su: SignUpPayload,
    replies: Seq<Reply>,
)
    requires
        replies.len() >= 1,
    ensures
        sign_in_params_of(si) is Ok ==> calls_made(sign_in_flow(si), replies) == seq![
            SessionCall::UpdateActiveAuthType(sign_in_params_of(si)->Ok_0.auth_type),
            SessionCall::SignIn {
                params: sign_in_params_of(si)->Ok_0,
                auth_type: sign_in_params_of(si)->Ok_0.auth_type,
            },
        ],
        sign_up_params_of(su) is Ok ==> calls_made(sign_up_flow(su), replies) == seq![
            SessionCall::UpdateActiveAuthType(sign_up_params_of(su)->Ok_0.auth_type),
            SessionCall::SignUp {
                auth_type: sign_up_params_of(su)->Ok_0.auth_type,
                params: sign_up_params_of(su)->Ok_0,
            },
        ],
{
    if sign_in_params_of(si) is Ok {
        let params = sign_in_params_of(si)->Ok_0;
        auth_flow_makes_two_calls(
            params.auth_type,
            SessionCall::SignIn { params, auth_type: params.auth_type },
            replies,
        );
    }
    if sign_up_params_of(su) is Ok {
        let params = sign_up_params_of(su)->Ok_0;
        auth_flow_makes_two_calls(
            params.auth_type,
            SessionCall::SignUp { auth_type: params.auth_type, params },
            replies,
        );
    }
}

/// A federated sign-in hands the payload's auth type over first, then signs
/// up with that auth type and with the provider's map exactly as it came.
pub proof fn third_party_map_is_passed_through(p: ThirdPartyAuthPayload, replies: Seq<Reply>)
    requires
        replies.len() >= 1,
    ensures
        calls_made(third_party_flow(p), replies) == seq![
            SessionCall::UpdateActiveAuthType(p.auth_type),
            SessionCall::ThirdPartySignUp { auth_type: p.auth_type, map: p.map },
        ],
{
    auth_flow_makes_two_calls(
        p.auth_type,
        SessionCall::ThirdPartySignUp { auth_type: p.auth_type, map: p.map },
        replies,
    );
}

/// A profile lookup that finds nobody signed in ends with
/// `NoActiveSession`, and never asks for a profile.
pub proof fn no_session_means_no_profile_lookup(replies: Seq<Reply>)
    requires
        replies.len() >= 1,
        replies[0] == Reply::NoSession,
    ensures
        calls_made(profile_lookup_flow(), replies) == seq![SessionCall::CurrentSession],
        flow_after(profile_lookup_flow(), replies) == finished(
            Outcome::Failed(UserError::NoActiveSession),
        ),
{
    let o = Outcome::Failed(UserError::NoActiveSession);
    settled_flow_is_silent(o, replies.drop_first());
    assert(calls_made(profile_lookup_flow(), replies) =~= seq![SessionCall::CurrentSession]);
}

/// Two sign-ins in flight at once each verify with their own auth type. A
/// request's state holds the auth type it derived, and its next state depends
/// on that state and its own reply alone; so however the replies of the two
/// interleave, each sign-in call carries the auth type of its own payload,
/// the one that request handed over first.
pub proof fn concurrent_sign_ins_keep_their_auth_types(
    first: SignInPayload,
    second: SignInPayload,
    first_replies: Seq<Reply>,
    second_replies: Seq<Reply>,
)
    requires
        sign_in_params_of(first) is Ok,
        sign_in_params_of(second) is Ok,
        first_replies.len() >= 1,
        second_replies.len() >= 1,
    ensures
        calls_made(sign_in_flow(first), first_replies)[0] == SessionCall::UpdateActiveAuthType(
            auth_type_of(first.auth_type)->0,
        ),
        calls_made(sign_in_flow(first), first_replies)[1] matches SessionCall::SignIn { params, auth_type }
            && auth_type == auth_type_of(first.auth_type)->0 && params.auth_type == auth_type,
        calls_made(sign_in_flow(second), second_replies)[0] == SessionCall::UpdateActiveAuthType(
            auth_type_of(second.auth_type)->0,
        ),
        calls_made(sign_in_flow(second), second_replies)[1] matches SessionCall::SignIn { params, auth_type }
            && auth_type == auth_type_of(second.auth_type)->0 && params.auth_type == auth_type,
{
    let first_params = sign_in_params_of(first)->Ok_0;
    let second_params = sign_in_params_of(second)->Ok_0;
    auth_flow_makes_two_calls(
        first_params.auth_type,
        SessionCall::SignIn { params: first_params, auth_type: first_params.auth_type },
        first_replies,
    );
    auth_flow_makes_two_calls(
        second_params.auth_type,
        SessionCall::SignIn { params: second_params, auth_type: second_params.auth_type },
        second_replies,
    );
}

} // verus!
