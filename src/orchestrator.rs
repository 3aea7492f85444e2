//! The per-request state machine. The host delivers events (a complete
//! request body, the reply to an outbound call); each event moves the
//! orchestration to its next stage and yields one action for the host.

use vstd::prelude::*;
use crate::config::{GatewayConfig, ParamSpec};
use crate::message::{str_equal, Role, Message, MessageView, last_user_index, is_last_user, has_no_user, message_views};
use crate::registry::{CallKind, PendingCall, CallRegistry, RegistryError};
use crate::replies::{REFUSAL_TEXT, GATHER_TEMPLATE, HALLUCINATION_TEMPLATE, UPSTREAM_FAILURE_TEXT, BAD_REQUEST_TEXT, fields_reply, fields_text, string_views};
use crate::routing::{select_target, selected, combine_routes, combined};
use crate::state::{decode_state, state_messages};

verus! {

/// Where a request stands in the pipeline.
#[derive(Clone, Copy, Debug, PartialEq, Eq, Structural)]
pub enum Stage {
    Idle,
    AwaitingGuard,
    AwaitingEmbeddings,
    AwaitingIntent,
    AwaitingFunctionCall,
    AwaitingHallucinationCheck,
    AwaitingBackend,
    /// The augmented request went on to the model; its reply is being rewritten.
    ResponseInFlight,
    Done,
}

/// One function call that the function-calling model asked for.
pub struct ToolCall {
    pub name: String,
    pub arguments: Vec<(String, String)>,
}

/// What the host is to do next.
pub enum Action {
    /// Let the original request go on unmodified.
    PassThrough,
    /// Make the outbound call of this kind and report its token.
    Dispatch(CallKind),
    /// Answer the client with this status and message, calling no backend.
    Respond { status: u16, message: String },
    /// Send the conversation, now holding the tool exchange, on to the model.
    Forward,
}

/// An action as plain values.
pub enum ActionView {
    PassThrough,
    Dispatch(CallKind),
    Respond(u16, Seq<char>),
    Forward,
}

impl View for Action {
    type V = ActionView;

    open spec fn view(&self) -> ActionView {
        match self {
            Action::PassThrough => ActionView::PassThrough,
            Action::Dispatch(k) => ActionView::Dispatch(*k),
            Action::Respond { status, message } => ActionView::Respond(*status, message@),
            Action::Forward => ActionView::Forward,
        }
    }
}

/// The reply of an outbound call, as the host parsed it.
pub enum Completion {
    /// The call failed, timed out, or its reply could not be read.
    Failed,
    Guard { is_unsafe: bool },
    /// One score per prompt target, in declaration order.
    Scores(Vec<i64>),
    /// The calls the function-calling model asked for, with its raw reply.
    ToolCalls { raw: String, calls: Vec<ToolCall> },
    /// The argument names that the hallucination check could not support.
    Flagged(Vec<String>),
    /// The developer API's reply body.
    Backend(String),
}

/// The outcome of one step: the action, the next stage, the target.
pub struct Transition {
    pub action: ActionView,
    pub stage: Stage,
    pub target: Option<usize>,
}

pub open spec fn failure(target: Option<usize>) -> Transition {
    Transition { action: ActionView::Respond(500, UPSTREAM_FAILURE_TEXT@), stage: Stage::Done, target }
}

/// Where a resolved target leads: to the function-calling model when it has
/// a parameter schema, else straight to its API; with no target the request
/// passes through.
pub open spec fn route_to(cfg: GatewayConfig, t: Option<usize>) -> Transition {
    match t {
        None => Transition { action: ActionView::PassThrough, stage: Stage::Done, target: None },
        Some(i) => if i < cfg.targets@.len() && cfg.targets@[i as int].parameters@.len() > 0 {
            Transition { action: ActionView::Dispatch(CallKind::FunctionCalling), stage: Stage::AwaitingFunctionCall, target: t }
        } else {
            Transition { action: ActionView::Dispatch(CallKind::DeveloperApi), stage: Stage::AwaitingBackend, target: t }
        },
    }
}

pub open spec fn to_usize(o: Option<int>) -> Option<usize> {
    match o {
        Some(i) => Some(i as usize),
        None => None,
    }
}

/// Whether some argument carries this name.
pub open spec fn has_arg(args: Seq<(String, String)>, name: Seq<char>) -> bool {
    exists|i: int| 0 <= i < args.len() && args[i].0@ == name
}

/// The names of the required parameters that no argument supplies, in
/// schema order.
pub open spec fn missing_params(params: Seq<ParamSpec>, args: Seq<(String, String)>) -> Seq<Seq<char>>
    decreases params.len(),
{
    if params.len() == 0 {
        Seq::empty()
    } else {
        let rest = missing_params(params.drop_last(), args);
        if params.last().required && !has_arg(args, params.last().name@) {
            rest.push(params.last().name@)
        } else {
            rest
        }
    }
}

/// The step taken on the reply of a call of kind `kind` made for `target`.
pub open spec fn step(cfg: GatewayConfig, kind: CallKind, target: Option<usize>, c: Completion) -> Transition {
    match kind {
        CallKind::Guard => match c {
            Completion::Guard { is_unsafe } => if is_unsafe {
                Transition { action: ActionView::Respond(200, REFUSAL_TEXT@), stage: Stage::Done, target }
            } else {
                Transition { action: ActionView::Dispatch(CallKind::Embeddings), stage: Stage::AwaitingEmbeddings, target }
            },
            _ => if cfg.guard_fail_open {
                Transition { action: ActionView::Dispatch(CallKind::Embeddings), stage: Stage::AwaitingEmbeddings, target }
            } else {
                failure(target)
            },
        },
        CallKind::Embeddings => match c {
            Completion::Scores(v) => if v@.len() != cfg.targets@.len() {
                failure(target)
            } else {
                match selected(v@, cfg.similarity_threshold) {
                    Some(i) => route_to(cfg, Some(i as usize)),
                    None => if cfg.intent_enabled {
                        Transition { action: ActionView::Dispatch(CallKind::ZeroShotIntent), stage: Stage::AwaitingIntent, target }
                    } else {
                        route_to(cfg, cfg.default_target)
                    },
                }
            },
            _ => failure(target),
        },
        CallKind::ZeroShotIntent => match c {
            Completion::Scores(v) => if v@.len() != cfg.targets@.len() {
                failure(target)
            } else {
                route_to(cfg, combined(None, to_usize(selected(v@, cfg.intent_threshold)), cfg.default_target))
            },
            _ => failure(target),
        },
        CallKind::FunctionCalling => match c {
            Completion::ToolCalls { raw, calls } => if calls@.len() == 0 {
                Transition { action: ActionView::PassThrough, stage: Stage::Done, target }
            } else if !(target matches Some(t) && t < cfg.targets@.len()) {
                failure(target)
            } else {
                let missing = missing_params(cfg.targets@[target->0 as int].parameters@, calls@[0].arguments@);
                if missing.len() > 0 {
                    Transition { action: ActionView::Respond(200, fields_text(GATHER_TEMPLATE@, missing)), stage: Stage::Done, target }
                } else {
                    Transition { action: ActionView::Dispatch(CallKind::HallucinationCheck), stage: Stage::AwaitingHallucinationCheck, target }
                }
            },
            _ => failure(target),
        },
        CallKind::HallucinationCheck => match c {
            Completion::Flagged(f) => if f@.len() > 0 {
                Transition { action: ActionView::Respond(200, fields_text(HALLUCINATION_TEMPLATE@, string_views(f@))), stage: Stage::Done, target }
            } else {
                Transition { action: ActionView::Dispatch(CallKind::DeveloperApi), stage: Stage::AwaitingBackend, target }
            },
            _ => failure(target),
        },
        CallKind::DeveloperApi => match c {
            Completion::Backend(_) => Transition { action: ActionView::Forward, stage: Stage::ResponseInFlight, target },
            _ => failure(target),
        },
    }
}

/// The state that one in-flight request owns.
pub struct Orchestration {
    pub stage: Stage,
    /// Whether the request's path is the chat-completions route.
    pub is_chat_completions: bool,
    /// Whether the client asked for a streamed reply.
    pub streaming: bool,
    /// The conversation: restored prior turns, then the request's messages.
    pub messages: Vec<Message>,
    /// The last user message, once found.
    pub user_message: Option<String>,
    pub target: Option<usize>,
    /// The last routing scores received, one per target.
    pub scores: Vec<i64>,
    /// The tool calls of this turn, while their exchange is not yet reported.
    pub tool_calls: Vec<ToolCall>,
    /// The function-calling model's raw reply that announced the tool calls.
    pub tool_call_text: String,
    /// The developer API's reply to the tool call.
    pub tool_response: Option<String>,
    pub callouts: CallRegistry,
}

impl Orchestration {
    pub open spec fn wf(&self) -> bool {
        self.callouts.wf()
    }

    /// A fresh orchestration, before the request body is known.
    pub fn new() -> (r: Orchestration)
        ensures
            r.wf(),
            r.stage == Stage::Idle,
            r.callouts@ == Map::<u32, PendingCall>::empty(),
            r.tool_calls@.len() == 0,
            r.target is None,
            !r.is_chat_completions,
    {
        Orchestration {
            stage: Stage::Idle,
            is_chat_completions: false,
            streaming: false,
            messages: Vec::new(),
            user_message: None,
            target: None,
            scores: Vec::new(),
            tool_calls: Vec::new(),
            tool_call_text: String::new(),
            tool_response: None,
            callouts: CallRegistry::new(),
        }
    }

    /// Handles the complete request body: its messages, its streaming flag
    /// and the continuation state found in its metadata, if any.
    ///
    /// A state blob that cannot be read is a client error. A request with no
    /// user message passes through unchanged. Otherwise the guard is asked
    /// first when configured, else the embeddings.
    pub fn on_request_body(&mut self, cfg: &GatewayConfig, messages: Vec<Message>, stream: bool, state: Option<String>) -> (r: Action)
        requires
            old(self).wf(),
        ensures
            final(self).wf(),
            final(self).callouts@ == old(self).callouts@,
            final(self).streaming == stream,
            state is None ==> final(self).messages@ == messages@,
            restored(state) is None ==> {
                &&& r@ == ActionView::Respond(400, BAD_REQUEST_TEXT@)
                &&& final(self).stage == Stage::Done
                &&& final(self).messages == old(self).messages
                &&& final(self).user_message == old(self).user_message
            },
            restored(state) matches Some(history) ==> {
                &&& message_views(final(self).messages@) == history + message_views(messages@)
                &&& match last_user_of(messages@) {
                    None => r is PassThrough && final(self).stage == Stage::Done && final(self).user_message is None,
                    Some(i) => final(self).user_message == Some(messages@[i].content) && if cfg.jailbreak_guard {
                        r@ == ActionView::Dispatch(CallKind::Guard) && final(self).stage == Stage::AwaitingGuard
                    } else {
                        r@ == ActionView::Dispatch(CallKind::Embeddings) && final(self).stage == Stage::AwaitingEmbeddings
                    },
                }
            },
    {
        self.streaming = stream;
        let mut conversation: Vec<Message> = match state {
            Some(s) => match decode_state(s.as_str()) {
                Ok(history) => history,
                Err(_) => {
                    self.stage = Stage::Done;
                    return Action::Respond { status: 400, message: String::from_str(BAD_REQUEST_TEXT) };
                },
            },
            None => Vec::new(),
        };
        let ghost restored = conversation@;
        let found = last_user_index(&messages);
        let user = match found {
            Some(i) => Some(messages[i].content.clone()),
            None => None,
        };
        let ghost m = messages@;
        let mut incoming = messages;
        conversation.append(&mut incoming);
        assert(conversation@ == restored + m);
        assert(message_views(conversation@) =~= message_views(restored) + message_views(m));
        self.messages = conversation;
        self.user_message = user;
        match found {
            None => {
                self.stage = Stage::Done;
                Action::PassThrough
            },
            Some(_) => if cfg.jailbreak_guard {
                self.stage = Stage::AwaitingGuard;
                Action::Dispatch(CallKind::Guard)
            } else {
                self.stage = Stage::AwaitingEmbeddings;
                Action::Dispatch(CallKind::Embeddings)
            },
        }
    }
}

impl Orchestration {
    /// Records the token of a call made for the action `Dispatch(kind)`.
    pub fn record_dispatch(&mut self, token: u32, kind: CallKind) -> (r: Result<(), RegistryError>)
        requires
            old(self).wf(),
        ensures
            final(self).wf(),
            final(self).stage == old(self).stage,
            final(self).target == old(self).target,
            old(self).callouts@.contains_key(token) ==> r == Err::<(), RegistryError>(RegistryError::DuplicateToken)
                && final(self).callouts@ == old(self).callouts@,
            !old(self).callouts@.contains_key(token) ==> r is Ok && final(self).callouts@ == old(self).callouts@.insert(
                token,
                PendingCall { kind, target: old(self).target },
            ),
    {
        let target = self.target;
        self.callouts.dispatch(token, PendingCall { kind, target })
    }

    /// Handles the reply of the call with this token. A token with no
    /// outstanding call is an internal consistency error: it is reported and
    /// nothing changes. Otherwise the call leaves the registry and the step
    /// for its kind is taken.
    pub fn on_call_response(&mut self, cfg: &GatewayConfig, token: u32, c: Completion) -> (r: Result<Action, RegistryError>)
        requires
            old(self).wf(),
        ensures
            final(self).wf(),
            !old(self).callouts@.contains_key(token) ==> r == Err::<Action, RegistryError>(RegistryError::UnknownToken)
                && *final(self) == *old(self),
            old(self).callouts@.contains_key(token) ==> {
                let call = old(self).callouts@[token];
                let t = step(*cfg, call.kind, call.target, c);
                &&& r matches Ok(a) && a@ == t.action
                &&& final(self).callouts@ == old(self).callouts@.remove(token)
                &&& final(self).stage == t.stage
                &&& final(self).target == t.target
                &&& final(self).streaming == old(self).streaming
                &&& final(self).is_chat_completions == old(self).is_chat_completions
                &&& if (call.kind == CallKind::Embeddings || call.kind == CallKind::ZeroShotIntent) && c is Scores
                    && c->Scores_0@.len() == cfg.targets@.len() {
                    final(self).scores == c->Scores_0
                } else {
                    final(self).scores == old(self).scores
                }
                &&& if call.kind == CallKind::DeveloperApi && c is Backend {
                    &&& final(self).tool_response == Some(c->Backend_0)
                    &&& final(self).tool_calls == old(self).tool_calls
                    &&& final(self).tool_call_text == old(self).tool_call_text
                    &&& message_views(final(self).messages@) == message_views(old(self).messages@) + seq![
                        (Role::Assistant, old(self).tool_call_text@),
                        (Role::Tool, c->Backend_0@),
                    ]
                } else if t.stage == Stage::AwaitingHallucinationCheck {
                    &&& c is ToolCalls
                    &&& final(self).tool_calls == c->calls
                    &&& final(self).tool_call_text == c->raw
                    &&& final(self).tool_response == old(self).tool_response
                    &&& final(self).messages == old(self).messages
                } else {
                    &&& final(self).tool_calls == old(self).tool_calls
                    &&& final(self).tool_call_text == old(self).tool_call_text
                    &&& final(self).tool_response == old(self).tool_response
                    &&& final(self).messages == old(self).messages
                }
            },
    {
        let call = match self.callouts.complete(token) {
            Ok(call) => call,
            Err(e) => return Err(e),
        };
        let target = call.target;
        let fail = Action::Respond { status: 500, message: String::from_str(UPSTREAM_FAILURE_TEXT) };
        let (action, stage, target) = match call.kind {
            CallKind::Guard => match c {
                Completion::Guard { is_unsafe } => if is_unsafe {
                    (Action::Respond { status: 200, message: String::from_str(REFUSAL_TEXT) }, Stage::Done, target)
                } else {
                    (Action::Dispatch(CallKind::Embeddings), Stage::AwaitingEmbeddings, target)
                },
                _ => if cfg.guard_fail_open {
                    (Action::Dispatch(CallKind::Embeddings), Stage::AwaitingEmbeddings, target)
                } else {
                    (fail, Stage::Done, target)
                },
            },
            CallKind::Embeddings => match c {
                Completion::Scores(v) => if v.len() != cfg.targets.len() {
                    (fail, Stage::Done, target)
                } else {
                    let pick = select_target(&v, cfg.similarity_threshold);
                    self.scores = v;
                    match pick {
                        Some(i) => route(cfg, Some(i)),
                        None => if cfg.intent_enabled {
                            (Action::Dispatch(CallKind::ZeroShotIntent), Stage::AwaitingIntent, target)
                        } else {
                            route(cfg, cfg.default_target)
                        },
                    }
                },
                _ => (fail, Stage::Done, target),
            },
            CallKind::ZeroShotIntent => match c {
                Completion::Scores(v) => if v.len() != cfg.targets.len() {
                    (fail, Stage::Done, target)
                } else {
                    let pick = select_target(&v, cfg.intent_threshold);
                    self.scores = v;
                    route(cfg, combine_routes(None, pick, cfg.default_target))
                },
                _ => (fail, Stage::Done, target),
            },
            CallKind::FunctionCalling => match c {
                Completion::ToolCalls { raw, calls } => if calls.len() == 0 {
                    (Action::PassThrough, Stage::Done, target)
                } else {
                    match target {
                        Some(t) if t < cfg.targets.len() => {
                            let missing = missing_names(&cfg.targets[t].parameters, &calls[0].arguments);
                            if missing.len() > 0 {
                                (Action::Respond { status: 200, message: fields_reply(GATHER_TEMPLATE, &missing) }, Stage::Done, target)
                            } else {
                                self.tool_calls = calls;
                                self.tool_call_text = raw;
                                (Action::Dispatch(CallKind::HallucinationCheck), Stage::AwaitingHallucinationCheck, target)
                            }
                        },
                        _ => (fail, Stage::Done, target),
                    }
                },
                _ => (fail, Stage::Done, target),
            },
            CallKind::HallucinationCheck => match c {
                Completion::Flagged(f) => if f.len() > 0 {
                    (Action::Respond { status: 200, message: fields_reply(HALLUCINATION_TEMPLATE, &f) }, Stage::Done, target)
                } else {
                    (Action::Dispatch(CallKind::DeveloperApi), Stage::AwaitingBackend, target)
                },
                _ => (fail, Stage::Done, target),
            },
            CallKind::DeveloperApi => match c {
                Completion::Backend(body) => {
                    let ghost before = self.messages@;
                    self.messages.push(Message::new(Role::Assistant, self.tool_call_text.clone()));
                    self.messages.push(Message::new(Role::Tool, body.clone()));
                    assert(message_views(self.messages@) =~= message_views(before) + seq![
                        (Role::Assistant, self.tool_call_text@),
                        (Role::Tool, body@),
                    ]);
                    self.tool_response = Some(body);
                    (Action::Forward, Stage::ResponseInFlight, target)
                },
                _ => (fail, Stage::Done, target),
            },
        };
        self.stage = stage;
        self.target = target;
        Ok(action)
    }
}

impl Orchestration {
    /// The client went away: every outstanding call is abandoned and the
    /// request is finished, with nothing else changed.
    pub fn on_client_gone(&mut self)
        requires
            old(self).wf(),
        ensures
            final(self).wf(),
            final(self).callouts@ == Map::<u32, PendingCall>::empty(),
            final(self).stage == Stage::Done,
            final(self).is_chat_completions == old(self).is_chat_completions,
            final(self).streaming == old(self).streaming,
            final(self).messages == old(self).messages,
            final(self).user_message == old(self).user_message,
            final(self).target == old(self).target,
            final(self).scores == old(self).scores,
            final(self).tool_calls == old(self).tool_calls,
            final(self).tool_call_text == old(self).tool_call_text,
            final(self).tool_response == old(self).tool_response,
    {
        self.callouts.abandon_all();
        self.stage = Stage::Done;
    }
}

/// The timeout of an outbound call, in seconds: short for the classifiers,
/// longer for the function-calling model and the hallucination check, and
/// longest for the developer API.
pub open spec fn timeout_of(kind: CallKind) -> u64 {
    match kind {
        CallKind::Guard | CallKind::Embeddings | CallKind::ZeroShotIntent => 5,
        CallKind::FunctionCalling | CallKind::HallucinationCheck => 60,
        CallKind::DeveloperApi => 120,
    }
}

/// The timeout to attach to an outbound call of this kind.
pub fn call_timeout_secs(kind: CallKind) -> (r: u64)
    ensures
        r == timeout_of(kind),
{
    match kind {
        CallKind::Guard | CallKind::Embeddings | CallKind::ZeroShotIntent => 5,
        CallKind::FunctionCalling | CallKind::HallucinationCheck => 60,
        CallKind::DeveloperApi => 120,
    }
}

/// Where a resolved target leads, as `route_to` states.
fn route(cfg: &GatewayConfig, t: Option<usize>) -> (r: (Action, Stage, Option<usize>))
    ensures
        r.0@ == route_to(*cfg, t).action,
        r.1 == route_to(*cfg, t).stage,
        r.2 == route_to(*cfg, t).target,
{
    match t {
        None => (Action::PassThrough, Stage::Done, None),
        Some(i) => if i < cfg.targets.len() && cfg.targets[i].parameters.len() > 0 {
            (Action::Dispatch(CallKind::FunctionCalling), Stage::AwaitingFunctionCall, t)
        } else {
            (Action::Dispatch(CallKind::DeveloperApi), Stage::AwaitingBackend, t)
        },
    }
}

/// Whether some argument carries this name.
fn find_arg(args: &Vec<(String, String)>, name: &String) -> (r: bool)
    ensures
        r == has_arg(args@, name@),
{
    let mut i: usize = 0;
    while i < args.len()
        invariant
            i <= args@.len(),
            forall|j: int| 0 <= j < i ==> args@[j].0@ != name@,
        decreases args@.len() - i,
    {
        if args[i].0 == *name {
            return true;
        }
        i = i + 1;
    }
    false
}

/// The names of the required parameters that no argument supplies.
pub fn missing_names(params: &Vec<ParamSpec>, args: &Vec<(String, String)>) -> (r: Vec<String>)
    ensures
        string_views(r@) == missing_params(params@, args@),
{
    let mut out: Vec<String> = Vec::new();
    let mut i: usize = 0;
    while i < params.len()
        invariant
            i <= params@.len(),
            string_views(out@) == missing_params(params@.take(i as int), args@),
        decreases params@.len() - i,
    {
        let ghost before = out@;
        assert(params@.take(i as int + 1).drop_last() =~= params@.take(i as int));
        if params[i].required && !find_arg(args, &params[i].name) {
            out.push(params[i].name.clone());
            assert(string_views(out@) =~= string_views(before).push(params@[i as int].name@));
        }
        i = i + 1;
    }
    assert(params@.take(params@.len() as int) =~= params@);
    out
}

/// The route for chat completions; other paths bypass the pipeline.
pub const CHAT_COMPLETIONS_PATH: &'static str = "/v1/chat/completions";

/// The liveness route, answered without entering the pipeline.
pub const HEALTHZ_PATH: &'static str = "/healthz";

/// What to do once the request headers are seen.
#[derive(Clone, Copy, Debug, PartialEq, Eq, Structural)]
pub enum HeaderDecision {
    /// Answer the liveness probe at once with this status.
    Health(u16),
    /// Go on and wait for the body.
    Continue,
}

impl Orchestration {
    /// Handles the request path. The liveness path is answered with 200 when
    /// the backing stores are ready and 503 otherwise; any other path goes
    /// on, and only the chat-completions route is marked for the pipeline.
    pub fn on_request_headers(&mut self, path: &str, stores_ready: bool) -> (r: HeaderDecision)
        ensures
            path@ == HEALTHZ_PATH@ ==> r == HeaderDecision::Health(if stores_ready { 200u16 } else { 503u16 })
                && *final(self) == *old(self),
            path@ != HEALTHZ_PATH@ ==> r == HeaderDecision::Continue
                && final(self).is_chat_completions == (path@ == CHAT_COMPLETIONS_PATH@)
                && final(self).stage == old(self).stage
                && final(self).callouts == old(self).callouts,
    {
        if str_equal(path, HEALTHZ_PATH) {
            return HeaderDecision::Health(if stores_ready { 200 } else { 503 });
        }
        self.is_chat_completions = str_equal(path, CHAT_COMPLETIONS_PATH);
        HeaderDecision::Continue
    }
}

/// The prior turns a request restores: none without a state blob, those
/// the blob stands for, or `None` where the blob cannot be read.
pub open spec fn restored(state: Option<String>) -> Option<Seq<MessageView>> {
    match state {
        None => Some(Seq::empty()),
        Some(s) => state_messages(s@),
    }
}

/// The position of the last user message, as `last_user_index` finds it.
pub open spec fn last_user_of(s: Seq<Message>) -> Option<int> {
    if has_no_user(s) {
        None
    } else {
        Some(choose|i: int| is_last_user(s, i))
    }
}

} // verus!
