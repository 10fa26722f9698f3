//! The call client: the host-visible object around one native client handle.
//!
//! A client owns the state the native trampolines reach back into: the
//! completion registry, the renderer maps, the optional event-handler object
//! and the cached snapshots.  Every asynchronous call issues a fresh request
//! id from the process-wide allocator, optionally parks a completion under
//! it, and returns immediately; the native engine later reports the request
//! as completed through an event, which `handle_event` routes.
//!
//! Dispatch is described once, by the specification function [`route`]: from
//! a client state and an event it yields the next state and at most one
//! callback invocation.  `handle_event` implements exactly that function,
//! and the safety laws of teardown and at-most-once resolution are proved
//! about it.
//!
//! Host callbacks are opaque values of the type parameter `T`; the host glue
//! holds the real callables and performs the invocation an [`Outcome`]
//! describes.

use vstd::prelude::*;

use crate::color::is_color_format;
use crate::color::valid_color_format;
use crate::context::ContextView;
use crate::context::DailyContext;
use crate::error::ClientError;
use crate::event::action_of;
use crate::event::handler_method_of;
use crate::event::handler_method_name;
use crate::event::parse_action;
use crate::event::snapshot_kind;
use crate::event::snapshot_kind_of;
use crate::event::EventAction;
use crate::event::SnapshotKind;
use crate::json::completion_parts_of;
use crate::json::decode_envelope;
use crate::json::envelope_of;
use crate::json::parse_completion_payload;
use crate::registry::Completion;
use crate::registry::CompletionRegistry;
use crate::renderers::RendererMap;
use crate::snapshots::Snapshots;
use crate::snapshots::SnapshotsView;
use crate::text::contains_nul;
use crate::text::has_nul;
use crate::text::push_escaped;
use crate::text::push_str_exact;
use crate::text::spec_escaped;
use vstd::string::StringExecFns;

verus! {

/// The plain-value description of a call client.
pub struct CallClientView<T> {
    /// Whether the client is live.  Teardown clears it; from then on no
    /// event-handler method and no completion callback is ever invoked.
    pub live: bool,
    /// The user's event-handler object, if one was supplied at construction
    /// and teardown has not cleared it.
    pub event_handler: Option<T>,
    /// The pending completions, by request id.
    pub completions: Map<u64, Completion<T>>,
    /// The registered video renderers, by stream renderer id.
    pub video_renderers: Map<u64, T>,
    /// The registered audio renderers, by stream renderer id.
    pub audio_renderers: Map<u64, T>,
    /// The cached state snapshots.
    pub snapshots: SnapshotsView,
    /// A strict upper bound on every id registered in this client.  The
    /// allocator's next id never falls below it, which makes every freshly
    /// issued id new to this client.
    pub id_hi: u64,
}

impl<T> CallClientView<T> {
    /// Every registered id lies below the client's id bound.
    pub open spec fn wf(self) -> bool {
        &&& forall|k: u64| #[trigger] self.completions.contains_key(k) ==> k < self.id_hi
        &&& forall|k: u64| #[trigger] self.video_renderers.contains_key(k) ==> k < self.id_hi
        &&& forall|k: u64| #[trigger] self.audio_renderers.contains_key(k) ==> k < self.id_hi
    }
}

/// What the host glue must do after a dispatch: nothing, invoke a resolved
/// completion callback, or invoke a named event-handler method.
pub enum Outcome<T> {
    /// Nothing to invoke: the client is torn down, the action is unknown,
    /// the completion was never registered or already resolved, or no
    /// handler is registered.
    NoOp,
    /// Invoke the resolved completion exactly once, with `(value)` or
    /// `(value, error)` depending on its arity.
    InvokeCompletion { completion: Completion<T>, value: Option<String>, error: Option<String> },
    /// Invoke the named method of the registered event-handler object with
    /// arguments decoded from the payload; a handler without that method is
    /// a silent no-op on the host side.
    InvokeHandler { method: String, payload: String },
}

/// The plain-value description of an [`Outcome`].
pub enum OutcomeView<T> {
    NoOp,
    InvokeCompletion { completion: Completion<T>, value: Option<Seq<char>>, error: Option<Seq<char>> },
    InvokeHandler { method: Seq<char>, payload: Seq<char> },
}

impl<T> View for Outcome<T> {
    type V = OutcomeView<T>;

    open spec fn view(&self) -> OutcomeView<T> {
        match self {
            Outcome::NoOp => OutcomeView::NoOp,
            Outcome::InvokeCompletion { completion, value, error } => OutcomeView::InvokeCompletion {
                completion: *completion,
                value: match value {
                    Some(v) => Some(v@),
                    None => None,
                },
                error: match error {
                    Some(e) => Some(e@),
                    None => None,
                },
            },
            Outcome::InvokeHandler { method, payload } => OutcomeView::InvokeHandler {
                method: method@,
                payload: payload@,
            },
        }
    }
}

/// The event router: how one native event envelope transforms a client.
///
/// A torn-down client ignores everything.  A `request-completed` event
/// resolves at most one pending completion, removing it so it can never fire
/// again; an unknown or duplicate request id is dropped silently.  Any other
/// recognised action first refreshes the matching cached snapshot, then
/// invokes the event-handler method if a handler is registered; an unknown
/// action is a silent no-op.
pub open spec fn route<T>(v: CallClientView<T>, action: Seq<char>, payload: Seq<char>) -> (
    CallClientView<T>,
    OutcomeView<T>,
) {
    if !v.live {
        (v, OutcomeView::NoOp)
    } else {
        let a = action_of(action);
        if a is RequestCompleted {
            match completion_parts_of(payload).0 {
                Some(id) => {
                    if v.completions.contains_key(id) {
                        (
                            (CallClientView { completions: v.completions.remove(id), ..v }),
                            OutcomeView::InvokeCompletion {
                                completion: v.completions[id],
                                value: completion_parts_of(payload).1,
                                error: completion_parts_of(payload).2,
                            },
                        )
                    } else {
                        (v, OutcomeView::NoOp)
                    }
                },
                None => (v, OutcomeView::NoOp),
            }
        } else {
            let v1 = match snapshot_kind_of(a) {
                Some(k) => (CallClientView { snapshots: v.snapshots.with(k, payload), ..v }),
                None => v,
            };
            let out = match handler_method_of(a) {
                Some(m) => if v.event_handler is Some {
                    OutcomeView::InvokeHandler { method: m, payload }
                } else {
                    OutcomeView::NoOp
                },
                None => OutcomeView::NoOp,
            };
            (v1, out)
        }
    }
}

/// Which callback a decoded frame tagged with `renderer_id` reaches: the
/// renderer registered under exactly that id, and only while the client is
/// live.
pub open spec fn frame_callback_of<T>(
    renderers: Map<u64, T>,
    live: bool,
    renderer_id: u64,
) -> Option<T> {
    if live && renderers.contains_key(renderer_id) {
        Some(renderers[renderer_id])
    } else {
        None
    }
}

/// One issued request: the context handed out `id` and advanced, and the
/// client parked the completion under it, if one was supplied.
pub open spec fn issued<T>(
    v0: CallClientView<T>,
    v1: CallClientView<T>,
    c0: ContextView,
    c1: ContextView,
    id: u64,
    completion: Option<Completion<T>>,
) -> bool {
    &&& id == c0.next_id
    &&& c1 == (ContextView { next_id: (c0.next_id + 1) as u64, ..c0 })
    &&& v1 == (CallClientView {
        completions: match completion {
            Some(c) => v0.completions.insert(id, c),
            None => v0.completions,
        },
        id_hi: (id + 1) as u64,
        ..v0
    })
}

/// One registered renderer: the context handed out the stream id `id` and
/// advanced, and the client parked the renderer callback under it.
pub open spec fn renderer_registered<T>(
    v0: CallClientView<T>,
    v1: CallClientView<T>,
    c0: ContextView,
    c1: ContextView,
    id: u64,
    callback: T,
    audio: bool,
) -> bool {
    &&& id == c0.next_id
    &&& c1 == (ContextView { next_id: (c0.next_id + 1) as u64, ..c0 })
    &&& if audio {
        v1 == (CallClientView {
            audio_renderers: v0.audio_renderers.insert(id, callback),
            id_hi: (id + 1) as u64,
            ..v0
        })
    } else {
        v1 == (CallClientView {
            video_renderers: v0.video_renderers.insert(id, callback),
            id_hi: (id + 1) as u64,
            ..v0
        })
    }
}

/// Whether an optional string holds an embedded NUL character.
pub open spec fn opt_has_nul(s: Option<&str>) -> bool {
    match s {
        Some(t) => has_nul(t@),
        None => false,
    }
}

/// The view of an optional string.
pub open spec fn opt_view(s: Option<&str>) -> Option<Seq<char>> {
    match s {
        Some(t) => Some(t@),
        None => None,
    }
}

/// Scans an optional string for an embedded NUL character.
fn opt_contains_nul(s: Option<&str>) -> (r: bool)
    ensures
        r == opt_has_nul(s),
{
    match s {
        Some(t) => contains_nul(t),
        None => false,
    }
}

/// The body of the composed recording-settings object: the escaped stream
/// id under `"instanceId"`, the pre-encoded streaming settings under
/// `"streamingSettings"`, and the force-new flag under `"forceNew"`, in that
/// order, with commas between the fields that are present.
pub open spec fn recording_body_of(
    streaming_settings: Option<Seq<char>>,
    stream_id: Option<Seq<char>>,
    force_new: Option<bool>,
) -> Seq<char> {
    let p1 = match stream_id {
        Some(s) => "\"instanceId\":\""@ + spec_escaped(s) + "\""@,
        None => Seq::<char>::empty(),
    };
    let p2 = match streaming_settings {
        Some(s) => (if stream_id is Some {
            ","@
        } else {
            Seq::<char>::empty()
        }) + "\"streamingSettings\":"@ + s,
        None => Seq::<char>::empty(),
    };
    let p3 = match force_new {
        Some(b) => (if stream_id is Some || streaming_settings is Some {
            ","@
        } else {
            Seq::<char>::empty()
        }) + "\"forceNew\":"@ + (if b {
            "true"@
        } else {
            "false"@
        }),
        None => Seq::<char>::empty(),
    };
    p1 + p2 + p3
}

/// The composed recording-settings object, or nothing when no setting was
/// given at all, in which case the native call receives no settings text.
pub open spec fn recording_settings_of(
    streaming_settings: Option<Seq<char>>,
    stream_id: Option<Seq<char>>,
    force_new: Option<bool>,
) -> Option<Seq<char>> {
    if streaming_settings is None && stream_id is None && force_new is None {
        None
    } else {
        Some("{"@ + recording_body_of(streaming_settings, stream_id, force_new) + "}"@)
    }
}

/// Composes the recording-settings object, exactly as
/// `recording_settings_of` describes.
pub fn compose_recording_settings(
    streaming_settings: Option<&str>,
    stream_id: Option<&str>,
    force_new: Option<bool>,
) -> (r: Option<String>)
    ensures
        match r {
            Some(s) => recording_settings_of(
                opt_view(streaming_settings),
                opt_view(stream_id),
                force_new,
            ) == Some(s@),
            None => recording_settings_of(
                opt_view(streaming_settings),
                opt_view(stream_id),
                force_new,
            ) is None,
        },
{
    if streaming_settings.is_none() && stream_id.is_none() && force_new.is_none() {
        return None;
    }
    let mut out = String::from_str("{");
    match stream_id {
        Some(sid) => {
            push_str_exact(&mut out, "\"instanceId\":\"");
            push_escaped(&mut out, sid);
            push_str_exact(&mut out, "\"");
        },
        None => {},
    }
    match streaming_settings {
        Some(ss) => {
            if stream_id.is_some() {
                push_str_exact(&mut out, ",");
            }
            push_str_exact(&mut out, "\"streamingSettings\":");
            push_str_exact(&mut out, ss);
        },
        None => {},
    }
    match force_new {
        Some(b) => {
            if stream_id.is_some() || streaming_settings.is_some() {
                push_str_exact(&mut out, ",");
            }
            push_str_exact(&mut out, "\"forceNew\":");
            if b {
                push_str_exact(&mut out, "true");
            } else {
                push_str_exact(&mut out, "false");
            }
        },
        None => {},
    }
    push_str_exact(&mut out, "}");
    proof {
        assert(out@ =~= "{"@ + recording_body_of(
            opt_view(streaming_settings),
            opt_view(stream_id),
            force_new,
        ) + "}"@);
    }
    Some(out)
}

/// A call client around one native client handle.
pub struct CallClient<T> {
    live: bool,
    event_handler: Option<T>,
    completions: CompletionRegistry<T>,
    video_renderers: RendererMap<T>,
    audio_renderers: RendererMap<T>,
    snapshots: Snapshots,
    id_hi: Ghost<u64>,
}

impl<T> View for CallClient<T> {
    type V = CallClientView<T>;

    closed spec fn view(&self) -> CallClientView<T> {
        CallClientView {
            live: self.live,
            event_handler: self.event_handler,
            completions: self.completions@,
            video_renderers: self.video_renderers@,
            audio_renderers: self.audio_renderers@,
            snapshots: self.snapshots@,
            id_hi: self.id_hi@,
        }
    }
}

impl<T> CallClient<T> {
    /// A new, live call client.  The host glue creates the native handle
    /// first, reads the initial snapshot values from it, and hands them in
    /// here together with the user's event-handler object.
    pub fn new(event_handler: Option<T>, initial_snapshots: Snapshots) -> (r: Self)
        ensures
            r@ == (CallClientView {
                live: true,
                event_handler,
                completions: Map::<u64, Completion<T>>::empty(),
                video_renderers: Map::<u64, T>::empty(),
                audio_renderers: Map::<u64, T>::empty(),
                snapshots: initial_snapshots@,
                id_hi: 0,
            }),
            r@.wf(),
    {
        CallClient {
            live: true,
            event_handler,
            completions: CompletionRegistry::new(),
            video_renderers: RendererMap::new(),
            audio_renderers: RendererMap::new(),
            snapshots: initial_snapshots,
            id_hi: Ghost(0),
        }
    }

    /// Issues a fresh request id and parks the completion under it, if one
    /// was supplied.  The id is new to this client because ids are issued
    /// in strictly increasing order and the client's bound never runs ahead
    /// of the allocator.
    pub fn maybe_register_completion(
        &mut self,
        ctx: &mut DailyContext,
        completion: Option<Completion<T>>,
    ) -> (id: u64)
        requires
            old(self)@.wf(),
            old(self)@.id_hi <= old(ctx)@.next_id,
            old(ctx)@.next_id < u64::MAX,
        ensures
            issued(old(self)@, final(self)@, old(ctx)@, final(ctx)@, id, completion),
            final(self)@.wf(),
            final(self)@.id_hi <= final(ctx)@.next_id,
    {
        let id = ctx.next_request_id();
        proof {
            assert(!old(self)@.completions.contains_key(id));
        }
        match completion {
            Some(c) => {
                self.completions.register(id, c);
            },
            None => {},
        }
        self.id_hi = Ghost((id + 1) as u64);
        id
    }

    /// Routes one native event envelope, exactly as [`route`] describes.
    ///
    /// After teardown has begun this is a no-op: the cleared live flag is
    /// observed before anything else, so no completion callback and no
    /// event-handler method is ever invoked late.
    pub fn handle_event(&mut self, action: &str, payload: &str) -> (r: Outcome<T>)
        ensures
            (final(self)@, r@) == route(old(self)@, action@, payload@),
            old(self)@.wf() ==> final(self)@.wf(),
    {
        if !self.live {
            return Outcome::NoOp;
        }
        let a = parse_action(action);
        if matches!(a, EventAction::RequestCompleted) {
            let parts = parse_completion_payload(payload);
            match parts.0 {
                Some(id) => {
                    match self.completions.resolve(id) {
                        Some(c) => Outcome::InvokeCompletion {
                            completion: c,
                            value: parts.1,
                            error: parts.2,
                        },
                        None => Outcome::NoOp,
                    }
                },
                None => Outcome::NoOp,
            }
        } else {
            match snapshot_kind(a) {
                Some(k) => {
                    self.snapshots.set(k, String::from_str(payload));
                },
                None => {},
            }
            match handler_method_name(a) {
                Some(m) => {
                    if self.event_handler.is_some() {
                        Outcome::InvokeHandler {
                            method: String::from_str(m),
                            payload: String::from_str(payload),
                        }
                    } else {
                        Outcome::NoOp
                    }
                },
                None => Outcome::NoOp,
            }
        }
    }

    /// Routes a raw event envelope as it arrives from the native engine: the
    /// JSON text is split at the opaque boundary, then routed.  Text that is
    /// not an envelope is a decode error local to this one event: the state
    /// is untouched, nothing is invoked, and later events dispatch normally.
    pub fn handle_event_json(&mut self, event_json: &str) -> (r: Outcome<T>)
        ensures
            match envelope_of(event_json@) {
                Some(env) => (final(self)@, r@) == route(old(self)@, env.0, env.1),
                None => r@ == OutcomeView::<T>::NoOp && final(self)@ == old(self)@,
            },
            old(self)@.wf() ==> final(self)@.wf(),
    {
        match decode_envelope(event_json) {
            Some(e) => self.handle_event(e.action.as_str(), e.payload.as_str()),
            None => Outcome::NoOp,
        }
    }

    /// Begins teardown: clears the live flag and drops the event-handler
    /// object.  Every dispatch from here on observes the cleared state and
    /// becomes a no-op, however many native callbacks are still in flight;
    /// pending completions are left to be dropped with the client.
    pub fn begin_teardown(&mut self)
        ensures
            final(self)@ == (CallClientView { live: false, event_handler: None, ..old(self)@ }),
    {
        self.live = false;
        self.event_handler = None;
    }

    /// The registered event-handler object, if any.
    pub fn event_handler(&self) -> (r: Option<&T>)
        ensures
            match r {
                Some(h) => self@.event_handler == Some(*h),
                None => self@.event_handler is None,
            },
    {
        self.event_handler.as_ref()
    }

    /// Whether the client is live.
    pub fn is_live(&self) -> (r: bool)
        ensures
            r == self@.live,
    {
        self.live
    }

    /// The callback for a decoded video frame tagged with `renderer_id`, or
    /// nothing if no renderer is registered under that exact id or teardown
    /// has begun.
    pub fn video_frame_callback(&self, renderer_id: u64) -> (r: Option<&T>)
        ensures
            match r {
                Some(c) => frame_callback_of(self@.video_renderers, self@.live, renderer_id)
                    == Some(*c),
                None => frame_callback_of(self@.video_renderers, self@.live, renderer_id) is None,
            },
    {
        if self.live {
            self.video_renderers.get(renderer_id)
        } else {
            None
        }
    }

    /// The callback for incoming audio data tagged with `renderer_id`, under
    /// the same rule as `video_frame_callback`.
    pub fn audio_data_callback(&self, renderer_id: u64) -> (r: Option<&T>)
        ensures
            match r {
                Some(c) => frame_callback_of(self@.audio_renderers, self@.live, renderer_id)
                    == Some(*c),
                None => frame_callback_of(self@.audio_renderers, self@.live, renderer_id) is None,
            },
    {
        if self.live {
            self.audio_renderers.get(renderer_id)
        } else {
            None
        }
    }

    /// Joins a meeting.  The strings are validated before the request id is
    /// issued: an embedded NUL is an encoding failure surfaced here, and
    /// nothing is registered for it.  On success the returned request id is
    /// the one the host glue hands to the native join call, and the
    /// completion, if any, is parked under it.
    pub fn join(
        &mut self,
        ctx: &mut DailyContext,
        meeting_url: &str,
        meeting_token: Option<&str>,
        client_settings: Option<&str>,
        completion: Option<Completion<T>>,
    ) -> (r: Result<u64, ClientError>)
        requires
            old(self)@.wf(),
            old(self)@.id_hi <= old(ctx)@.next_id,
            old(ctx)@.next_id < u64::MAX,
        ensures
            ({
                let bad = has_nul(meeting_url@) || opt_has_nul(meeting_token) || opt_has_nul(
                    client_settings,
                );
                match r {
                    Ok(id) => !bad && issued(
                        old(self)@,
                        final(self)@,
                        old(ctx)@,
                        final(ctx)@,
                        id,
                        completion,
                    ),
                    Err(e) => bad && e == ClientError::InvalidString && final(self)@ == old(self)@
                        && final(ctx)@ == old(ctx)@,
                }
            }),
            final(self)@.wf(),
            final(self)@.id_hi <= final(ctx)@.next_id,
    {
        if contains_nul(meeting_url) || opt_contains_nul(meeting_token) || opt_contains_nul(
            client_settings,
        ) {
            return Err(ClientError::InvalidString);
        }
        Ok(self.maybe_register_completion(ctx, completion))
    }

    /// Leaves a previously joined meeting.  Takes no strings, so it cannot
    /// fail synchronously.
    pub fn leave(&mut self, ctx: &mut DailyContext, completion: Option<Completion<T>>) -> (id: u64)
        requires
            old(self)@.wf(),
            old(self)@.id_hi <= old(ctx)@.next_id,
            old(ctx)@.next_id < u64::MAX,
        ensures
            issued(old(self)@, final(self)@, old(ctx)@, final(ctx)@, id, completion),
            final(self)@.wf(),
            final(self)@.id_hi <= final(ctx)@.next_id,
    {
        self.maybe_register_completion(ctx, completion)
    }

    /// Sets this client's user name.  No completion can be requested, so the
    /// request id is issued with nothing parked under it.
    pub fn set_user_name(&mut self, ctx: &mut DailyContext, user_name: &str) -> (r: Result<
        u64,
        ClientError,
    >)
        requires
            old(self)@.wf(),
            old(self)@.id_hi <= old(ctx)@.next_id,
            old(ctx)@.next_id < u64::MAX,
        ensures
            match r {
                Ok(id) => !has_nul(user_name@) && issued(
                    old(self)@,
                    final(self)@,
                    old(ctx)@,
                    final(ctx)@,
                    id,
                    None,
                ),
                Err(e) => has_nul(user_name@) && e == ClientError::InvalidString && final(self)@
                    == old(self)@ && final(ctx)@ == old(ctx)@,
            },
            final(self)@.wf(),
            final(self)@.id_hi <= final(ctx)@.next_id,
    {
        if contains_nul(user_name) {
            return Err(ClientError::InvalidString);
        }
        Ok(self.maybe_register_completion(ctx, None))
    }

    /// Updates input settings.  `input_settings` is the settings value
    /// already encoded as JSON text.
    pub fn update_inputs(
        &mut self,
        ctx: &mut DailyContext,
        input_settings: &str,
        completion: Option<Completion<T>>,
    ) -> (r: Result<u64, ClientError>)
        requires
            old(self)@.wf(),
            old(self)@.id_hi <= old(ctx)@.next_id,
            old(ctx)@.next_id < u64::MAX,
        ensures
            match r {
                Ok(id) => !has_nul(input_settings@) && issued(
                    old(self)@,
                    final(self)@,
                    old(ctx)@,
                    final(ctx)@,
                    id,
                    completion,
                ),
                Err(e) => has_nul(input_settings@) && e == ClientError::InvalidString
                    && final(self)@ == old(self)@ && final(ctx)@ == old(ctx)@,
            },
            final(self)@.wf(),
            final(self)@.id_hi <= final(ctx)@.next_id,
    {
        if contains_nul(input_settings) {
            return Err(ClientError::InvalidString);
        }
        Ok(self.maybe_register_completion(ctx, completion))
    }

    /// Registers a video renderer for one video source of one participant.
    /// The strings are validated first, then the color format against the
    /// closed set of supported formats; either failure is synchronous and
    /// registers nothing.  On success the fresh request id doubles as the
    /// stream renderer id, and the callback is parked under it.
    pub fn set_video_renderer(
        &mut self,
        ctx: &mut DailyContext,
        participant_id: &str,
        callback: T,
        video_source: &str,
        color_format: &str,
    ) -> (r: Result<u64, ClientError>)
        requires
            old(self)@.wf(),
            old(self)@.id_hi <= old(ctx)@.next_id,
            old(ctx)@.next_id < u64::MAX,
        ensures
            ({
                let bad = has_nul(participant_id@) || has_nul(video_source@) || has_nul(
                    color_format@,
                );
                match r {
                    Ok(id) => !bad && is_color_format(color_format@) && renderer_registered(
                        old(self)@,
                        final(self)@,
                        old(ctx)@,
                        final(ctx)@,
                        id,
                        callback,
                        false,
                    ),
                    Err(e) => final(self)@ == old(self)@ && final(ctx)@ == old(ctx)@ && if bad {
                        e == ClientError::InvalidString
                    } else {
                        !is_color_format(color_format@) && e == ClientError::InvalidColorFormat
                    },
                }
            }),
            final(self)@.wf(),
            final(self)@.id_hi <= final(ctx)@.next_id,
    {
        if contains_nul(participant_id) || contains_nul(video_source) || contains_nul(
            color_format,
        ) {
            return Err(ClientError::InvalidString);
        }
        if !valid_color_format(color_format) {
            return Err(ClientError::InvalidColorFormat);
        }
        let id = ctx.next_request_id();
        proof {
            assert(!old(self)@.video_renderers.contains_key(id));
        }
        self.video_renderers.register(id, callback);
        self.id_hi = Ghost((id + 1) as u64);
        proof {
            assert forall|k: u64| #[trigger] self@.video_renderers.contains_key(k) implies k
                < self@.id_hi by {
                if k != id {
                    assert(old(self)@.video_renderers.contains_key(k));
                }
            }
            assert forall|k: u64| #[trigger] self@.completions.contains_key(k) implies k
                < self@.id_hi by {
                assert(old(self)@.completions.contains_key(k));
            }
            assert forall|k: u64| #[trigger] self@.audio_renderers.contains_key(k) implies k
                < self@.id_hi by {
                assert(old(self)@.audio_renderers.contains_key(k));
            }
            assert(self@.wf());
        }
        Ok(id)
    }

    /// Registers an audio renderer for one audio source of one participant,
    /// under the same id scheme as `set_video_renderer`; audio has no color
    /// format to validate.
    pub fn set_audio_renderer(
        &mut self,
        ctx: &mut DailyContext,
        participant_id: &str,
        callback: T,
        audio_source: &str,
    ) -> (r: Result<u64, ClientError>)
        requires
            old(self)@.wf(),
            old(self)@.id_hi <= old(ctx)@.next_id,
            old(ctx)@.next_id < u64::MAX,
        ensures
            ({
                let bad = has_nul(participant_id@) || has_nul(audio_source@);
                match r {
                    Ok(id) => !bad && renderer_registered(
                        old(self)@,
                        final(self)@,
                        old(ctx)@,
                        final(ctx)@,
                        id,
                        callback,
                        true,
                    ),
                    Err(e) => bad && e == ClientError::InvalidString && final(self)@ == old(self)@
                        && final(ctx)@ == old(ctx)@,
                }
            }),
            final(self)@.wf(),
            final(self)@.id_hi <= final(ctx)@.next_id,
    {
        if contains_nul(participant_id) || contains_nul(audio_source) {
            return Err(ClientError::InvalidString);
        }
        let id = ctx.next_request_id();
        proof {
            assert(!old(self)@.audio_renderers.contains_key(id));
        }
        self.audio_renderers.register(id, callback);
        self.id_hi = Ghost((id + 1) as u64);
        proof {
            assert forall|k: u64| #[trigger] self@.audio_renderers.contains_key(k) implies k
                < self@.id_hi by {
                if k != id {
                    assert(old(self)@.audio_renderers.contains_key(k));
                }
            }
            assert forall|k: u64| #[trigger] self@.completions.contains_key(k) implies k
                < self@.id_hi by {
                assert(old(self)@.completions.contains_key(k));
            }
            assert forall|k: u64| #[trigger] self@.video_renderers.contains_key(k) implies k
                < self@.id_hi by {
                assert(old(self)@.video_renderers.contains_key(k));
            }
            assert(self@.wf());
        }
        Ok(id)
    }

    /// Updates publishing settings.  `publishing_settings` is the settings
    /// value already encoded as JSON text.
    pub fn update_publishing(
        &mut self,
        ctx: &mut DailyContext,
        publishing_settings: &str,
        completion: Option<Completion<T>>,
    ) -> (r: Result<u64, ClientError>)
        requires
            old(self)@.wf(),
            old(self)@.id_hi <= old(ctx)@.next_id,
            old(ctx)@.next_id < u64::MAX,
        ensures
            match r {
                Ok(id) => !has_nul(publishing_settings@) && issued(
                    old(self)@,
                    final(self)@,
                    old(ctx)@,
                    final(ctx)@,
                    id,
                    completion,
                ),
                Err(e) => has_nul(publishing_settings@) && e == ClientError::InvalidString
                    && final(self)@ == old(self)@ && final(ctx)@ == old(ctx)@,
            },
            final(self)@.wf(),
            final(self)@.id_hi <= final(ctx)@.next_id,
    {
        if contains_nul(publishing_settings) {
            return Err(ClientError::InvalidString);
        }
        Ok(self.maybe_register_completion(ctx, completion))
    }

    /// Updates subscription profiles.  `profile_settings` is the settings
    /// value already encoded as JSON text.
    pub fn update_subscription_profiles(
        &mut self,
        ctx: &mut DailyContext,
        profile_settings: &str,
        completion: Option<Completion<T>>,
    ) -> (r: Result<u64, ClientError>)
        requires
            old(self)@.wf(),
            old(self)@.id_hi <= old(ctx)@.next_id,
            old(ctx)@.next_id < u64::MAX,
        ensures
            match r {
                Ok(id) => !has_nul(profile_settings@) && issued(
                    old(self)@,
                    final(self)@,
                    old(ctx)@,
                    final(ctx)@,
                    id,
                    completion,
                ),
                Err(e) => has_nul(profile_settings@) && e == ClientError::InvalidString
                    && final(self)@ == old(self)@ && final(ctx)@ == old(ctx)@,
            },
            final(self)@.wf(),
            final(self)@.id_hi <= final(ctx)@.next_id,
    {
        if contains_nul(profile_settings) {
            return Err(ClientError::InvalidString);
        }
        Ok(self.maybe_register_completion(ctx, completion))
    }

    /// Updates this client's permissions.  `permissions` is the settings
    /// value already encoded as JSON text.
    pub fn update_permissions(
        &mut self,
        ctx: &mut DailyContext,
        permissions: &str,
        completion: Option<Completion<T>>,
    ) -> (r: Result<u64, ClientError>)
        requires
            old(self)@.wf(),
            old(self)@.id_hi <= old(ctx)@.next_id,
            old(ctx)@.next_id < u64::MAX,
        ensures
            match r {
                Ok(id) => !has_nul(permissions@) && issued(
                    old(self)@,
                    final(self)@,
                    old(ctx)@,
                    final(ctx)@,
                    id,
                    completion,
                ),
                Err(e) => has_nul(permissions@) && e == ClientError::InvalidString
                    && final(self)@ == old(self)@ && final(ctx)@ == old(ctx)@,
            },
            final(self)@.wf(),
            final(self)@.id_hi <= final(ctx)@.next_id,
    {
        if contains_nul(permissions) {
            return Err(ClientError::InvalidString);
        }
        Ok(self.maybe_register_completion(ctx, completion))
    }

    /// Updates remote participants.  `remote_participants` is the update
    /// value already encoded as JSON text.
    pub fn update_remote_participants(
        &mut self,
        ctx: &mut DailyContext,
        remote_participants: &str,
        completion: Option<Completion<T>>,
    ) -> (r: Result<u64, ClientError>)
        requires
            old(self)@.wf(),
            old(self)@.id_hi <= old(ctx)@.next_id,
            old(ctx)@.next_id < u64::MAX,
        ensures
            match r {
                Ok(id) => !has_nul(remote_participants@) && issued(
                    old(self)@,
                    final(self)@,
                    old(ctx)@,
                    final(ctx)@,
                    id,
                    completion,
                ),
                Err(e) => has_nul(remote_participants@) && e == ClientError::InvalidString
                    && final(self)@ == old(self)@ && final(ctx)@ == old(ctx)@,
            },
            final(self)@.wf(),
            final(self)@.id_hi <= final(ctx)@.next_id,
    {
        if contains_nul(remote_participants) {
            return Err(ClientError::InvalidString);
        }
        Ok(self.maybe_register_completion(ctx, completion))
    }

    /// Updates subscriptions and subscription profiles; either settings
    /// value may be absent.
    pub fn update_subscriptions(
        &mut self,
        ctx: &mut DailyContext,
        participant_settings: Option<&str>,
        profile_settings: Option<&str>,
        completion: Option<Completion<T>>,
    ) -> (r: Result<u64, ClientError>)
        requires
            old(self)@.wf(),
            old(self)@.id_hi <= old(ctx)@.next_id,
            old(ctx)@.next_id < u64::MAX,
        ensures
            ({
                let bad = opt_has_nul(participant_settings) || opt_has_nul(profile_settings);
                match r {
                    Ok(id) => !bad && issued(
                        old(self)@,
                        final(self)@,
                        old(ctx)@,
                        final(ctx)@,
                        id,
                        completion,
                    ),
                    Err(e) => bad && e == ClientError::InvalidString && final(self)@ == old(self)@
                        && final(ctx)@ == old(ctx)@,
                }
            }),
            final(self)@.wf(),
            final(self)@.id_hi <= final(ctx)@.next_id,
    {
        if opt_contains_nul(participant_settings) || opt_contains_nul(profile_settings) {
            return Err(ClientError::InvalidString);
        }
        Ok(self.maybe_register_completion(ctx, completion))
    }

    /// Stops an ongoing recording, of one recording instance when a stream
    /// id is given.
    pub fn stop_recording(
        &mut self,
        ctx: &mut DailyContext,
        stream_id: Option<&str>,
        completion: Option<Completion<T>>,
    ) -> (r: Result<u64, ClientError>)
        requires
            old(self)@.wf(),
            old(self)@.id_hi <= old(ctx)@.next_id,
            old(ctx)@.next_id < u64::MAX,
        ensures
            match r {
                Ok(id) => !opt_has_nul(stream_id) && issued(
                    old(self)@,
                    final(self)@,
                    old(ctx)@,
                    final(ctx)@,
                    id,
                    completion,
                ),
                Err(e) => opt_has_nul(stream_id) && e == ClientError::InvalidString
                    && final(self)@ == old(self)@ && final(ctx)@ == old(ctx)@,
            },
            final(self)@.wf(),
            final(self)@.id_hi <= final(ctx)@.next_id,
    {
        if opt_contains_nul(stream_id) {
            return Err(ClientError::InvalidString);
        }
        Ok(self.maybe_register_completion(ctx, completion))
    }

    /// Updates an ongoing recording, of one recording instance when a
    /// stream id is given.  `update_settings` is the settings value already
    /// encoded as JSON text.
    pub fn update_recording(
        &mut self,
        ctx: &mut DailyContext,
        update_settings: &str,
        stream_id: Option<&str>,
        completion: Option<Completion<T>>,
    ) -> (r: Result<u64, ClientError>)
        requires
            old(self)@.wf(),
            old(self)@.id_hi <= old(ctx)@.next_id,
            old(ctx)@.next_id < u64::MAX,
        ensures
            ({
                let bad = has_nul(update_settings@) || opt_has_nul(stream_id);
                match r {
                    Ok(id) => !bad && issued(
                        old(self)@,
                        final(self)@,
                        old(ctx)@,
                        final(ctx)@,
                        id,
                        completion,
                    ),
                    Err(e) => bad && e == ClientError::InvalidString && final(self)@ == old(self)@
                        && final(ctx)@ == old(ctx)@,
                }
            }),
            final(self)@.wf(),
            final(self)@.id_hi <= final(ctx)@.next_id,
    {
        if contains_nul(update_settings) || opt_contains_nul(stream_id) {
            return Err(ClientError::InvalidString);
        }
        Ok(self.maybe_register_completion(ctx, completion))
    }

    /// Starts a transcription service.
    pub fn start_transcription(
        &mut self,
        ctx: &mut DailyContext,
        settings: Option<&str>,
        completion: Option<Completion<T>>,
    ) -> (r: Result<u64, ClientError>)
        requires
            old(self)@.wf(),
            old(self)@.id_hi <= old(ctx)@.next_id,
            old(ctx)@.next_id < u64::MAX,
        ensures
            match r {
                Ok(id) => !opt_has_nul(settings) && issued(
                    old(self)@,
                    final(self)@,
                    old(ctx)@,
                    final(ctx)@,
                    id,
                    completion,
                ),
                Err(e) => opt_has_nul(settings) && e == ClientError::InvalidString
                    && final(self)@ == old(self)@ && final(ctx)@ == old(ctx)@,
            },
            final(self)@.wf(),
            final(self)@.id_hi <= final(ctx)@.next_id,
    {
        if opt_contains_nul(settings) {
            return Err(ClientError::InvalidString);
        }
        Ok(self.maybe_register_completion(ctx, completion))
    }

    /// Stops a running transcription service.  Takes no strings, so it
    /// cannot fail synchronously.
    pub fn stop_transcription(&mut self, ctx: &mut DailyContext, completion: Option<Completion<T>>) -> (id:
        u64)
        requires
            old(self)@.wf(),
            old(self)@.id_hi <= old(ctx)@.next_id,
            old(ctx)@.next_id < u64::MAX,
        ensures
            issued(old(self)@, final(self)@, old(ctx)@, final(ctx)@, id, completion),
            final(self)@.wf(),
            final(self)@.id_hi <= final(ctx)@.next_id,
    {
        self.maybe_register_completion(ctx, completion)
    }

    /// Sends a message to the other participants, or to one of them.
    /// `message` is the message already encoded as JSON text.
    pub fn send_app_message(
        &mut self,
        ctx: &mut DailyContext,
        message: &str,
        participant: Option<&str>,
        completion: Option<Completion<T>>,
    ) -> (r: Result<u64, ClientError>)
        requires
            old(self)@.wf(),
            old(self)@.id_hi <= old(ctx)@.next_id,
            old(ctx)@.next_id < u64::MAX,
        ensures
            ({
                let bad = has_nul(message@) || opt_has_nul(participant);
                match r {
                    Ok(id) => !bad && issued(
                        old(self)@,
                        final(self)@,
                        old(ctx)@,
                        final(ctx)@,
                        id,
                        completion,
                    ),
                    Err(e) => bad && e == ClientError::InvalidString && final(self)@ == old(self)@
                        && final(ctx)@ == old(ctx)@,
                }
            }),
            final(self)@.wf(),
            final(self)@.id_hi <= final(ctx)@.next_id,
    {
        if contains_nul(message) || opt_contains_nul(participant) {
            return Err(ClientError::InvalidString);
        }
        Ok(self.maybe_register_completion(ctx, completion))
    }

    /// Starts a recording.  The recording settings object is composed here,
    /// exactly as `recording_settings_of` describes, from the optional
    /// pre-encoded streaming settings, the stream id and the force-new
    /// flag; the composed text, if any, is returned beside the request id
    /// for the host glue to hand to the native call.  Only the verbatim
    /// streaming settings can smuggle an embedded NUL into the composed
    /// text, so only they are validated; a stream id is escaped.
    pub fn start_recording(
        &mut self,
        ctx: &mut DailyContext,
        streaming_settings: Option<&str>,
        stream_id: Option<&str>,
        force_new: Option<bool>,
        completion: Option<Completion<T>>,
    ) -> (r: Result<(u64, Option<String>), ClientError>)
        requires
            old(self)@.wf(),
            old(self)@.id_hi <= old(ctx)@.next_id,
            old(ctx)@.next_id < u64::MAX,
        ensures
            match r {
                Ok(p) => {
                    &&& !opt_has_nul(streaming_settings)
                    &&& issued(old(self)@, final(self)@, old(ctx)@, final(ctx)@, p.0, completion)
                    &&& match p.1 {
                        Some(s) => recording_settings_of(
                            opt_view(streaming_settings),
                            opt_view(stream_id),
                            force_new,
                        ) == Some(s@),
                        None => recording_settings_of(
                            opt_view(streaming_settings),
                            opt_view(stream_id),
                            force_new,
                        ) is None,
                    }
                },
                Err(e) => opt_has_nul(streaming_settings) && e == ClientError::InvalidString
                    && final(self)@ == old(self)@ && final(ctx)@ == old(ctx)@,
            },
            final(self)@.wf(),
            final(self)@.id_hi <= final(ctx)@.next_id,
    {
        if opt_contains_nul(streaming_settings) {
            return Err(ClientError::InvalidString);
        }
        let settings = compose_recording_settings(streaming_settings, stream_id, force_new);
        let id = self.maybe_register_completion(ctx, completion);
        Ok((id, settings))
    }

    /// The cached active-speaker snapshot.
    pub fn active_speaker(&self) -> (r: &String)
        ensures
            r@ == self@.snapshots.active_speaker,
    {
        self.snapshots.get(SnapshotKind::ActiveSpeaker)
    }

    /// The cached input-settings snapshot.
    pub fn inputs(&self) -> (r: &String)
        ensures
            r@ == self@.snapshots.inputs,
    {
        self.snapshots.get(SnapshotKind::Inputs)
    }

    /// The cached participant-counts snapshot.
    pub fn participant_counts(&self) -> (r: &String)
        ensures
            r@ == self@.snapshots.participant_counts,
    {
        self.snapshots.get(SnapshotKind::ParticipantCounts)
    }

    /// The cached publishing-settings snapshot.
    pub fn publishing(&self) -> (r: &String)
        ensures
            r@ == self@.snapshots.publishing,
    {
        self.snapshots.get(SnapshotKind::Publishing)
    }

    /// The cached subscriptions snapshot.
    pub fn subscriptions(&self) -> (r: &String)
        ensures
            r@ == self@.snapshots.subscriptions,
    {
        self.snapshots.get(SnapshotKind::Subscriptions)
    }

    /// The cached subscription-profiles snapshot.
    pub fn subscription_profiles(&self) -> (r: &String)
        ensures
            r@ == self@.snapshots.subscription_profiles,
    {
        self.snapshots.get(SnapshotKind::SubscriptionProfiles)
    }

    /// The cached network-stats snapshot.
    pub fn get_network_stats(&self) -> (r: &String)
        ensures
            r@ == self@.snapshots.network_stats,
    {
        self.snapshots.get(SnapshotKind::NetworkStats)
    }
}

// ---------------------------------------------------------------------------
// The dispatch laws, proved about `route`.
// ---------------------------------------------------------------------------
/// After teardown has begun, dispatch is dead: whatever event arrives, the
/// state is untouched and nothing is invoked - no event-handler method and
/// no completion callback.
pub proof fn lemma_no_dispatch_after_teardown<T>(
    v: CallClientView<T>,
    action: Seq<char>,
    payload: Seq<char>,
)
    requires
        !v.live,
    ensures
        route(v, action, payload) == (v, OutcomeView::<T>::NoOp),
{
}

/// A cached snapshot reflects the payload of the most recent matching
/// event, and the update happens before the handler invocation of the same
/// event: the state in which the handler outcome is delivered already shows
/// the new payload to every getter.
pub proof fn lemma_snapshot_reflects_latest_event<T>(
    v: CallClientView<T>,
    action: Seq<char>,
    payload: Seq<char>,
    k: SnapshotKind,
)
    requires
        v.live,
        snapshot_kind_of(action_of(action)) == Some(k),
    ensures
        route(v, action, payload).0.snapshots == v.snapshots.with(k, payload),
        route(v, action, payload).0.snapshots.get(k) == payload,
{
}

/// A frame tagged with a stream id reaches only the renderer registered
/// under exactly that id: with two registrations under distinct ids, a
/// frame tagged with the first id invokes the first callback, and never the
/// second unless the two callbacks are one and the same value.
pub proof fn lemma_frame_routed_to_its_renderer<T>(renderers: Map<u64, T>, a: u64, b: u64)
    requires
        renderers.contains_key(a),
        renderers.contains_key(b),
        a != b,
    ensures
        frame_callback_of(renderers, true, a) == Some(renderers[a]),
        frame_callback_of(renderers, true, b) == Some(renderers[b]),
        renderers[a] != renderers[b] ==> frame_callback_of(renderers, true, a) != Some(
            renderers[b],
        ),
{
}

/// A completion is resolved at most once: after a `request-completed` event
/// is routed, routing the very same event again invokes nothing and leaves
/// the client unchanged, because the first dispatch removed the entry - or
/// there never was one.
pub proof fn lemma_duplicate_completion_dropped<T>(
    v: CallClientView<T>,
    action: Seq<char>,
    payload: Seq<char>,
)
    requires
        action_of(action) is RequestCompleted,
    ensures
        ({
            let v1 = route(v, action, payload).0;
            route(v1, action, payload) == (v1, OutcomeView::<T>::NoOp)
        }),
{
    let v1 = route(v, action, payload).0;
    if v.live {
        match completion_parts_of(payload).0 {
            Some(id) => {
                assert(!v1.completions.contains_key(id));
            },
            None => {},
        }
    }
}

} // verus!
