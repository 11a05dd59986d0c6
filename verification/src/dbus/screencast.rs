use vstd::prelude::*;

use crate::dbus::request::{spec_lookup, ResponseCode, ResponseMap, ResponseValue};
use crate::dbus::session::session_handle_path;
use crate::dbus::{generate_session_handle, generate_token_handle, spec_is_token};
use crate::error::{CapabilityError, ProtocolError, RecorderError};

verus! {

/// The cursor treatments a portal can advertise, as a set over the closed
/// enumeration Hidden/Embedded/Metadata. On the wire the set is a bit
/// field: Hidden is bit 0, Embedded bit 1, Metadata bit 2.
#[derive(Debug, PartialEq, Eq, Clone, Copy, Structural)]
pub struct CursorModes {
    pub hidden: bool,
    pub embedded: bool,
    pub metadata: bool,
}

/// The cursor mode `best_mode` picks: Embedded, then Metadata, when the
/// caller asked for a visible cursor and the portal advertises them; else
/// Hidden when advertised; else Metadata.
pub open spec fn spec_best_mode(m: CursorModes, show: bool) -> CursorModes {
    if show && m.embedded {
        CursorModes { hidden: false, embedded: true, metadata: false }
    } else if show && m.metadata {
        CursorModes { hidden: false, embedded: false, metadata: true }
    } else if m.hidden {
        CursorModes { hidden: true, embedded: false, metadata: false }
    } else {
        CursorModes { hidden: false, embedded: false, metadata: true }
    }
}

impl CursorModes {
    /// The empty set.
    pub fn empty() -> (r: CursorModes)
        ensures
            r == (CursorModes { hidden: false, embedded: false, metadata: false }),
    {
        CursorModes { hidden: false, embedded: false, metadata: false }
    }

    /// The set a wire value stands for; unknown bits are dropped.
    pub fn from_bits(v: u32) -> (r: CursorModes)
        ensures
            r.hidden == (v & 1 != 0),
            r.embedded == (v & 2 != 0),
            r.metadata == (v & 4 != 0),
    {
        CursorModes { hidden: v & 1 != 0, embedded: v & 2 != 0, metadata: v & 4 != 0 }
    }

    /// The wire encoding: one bit per advertised mode.
    pub open spec fn spec_bits(&self) -> u32 {
        ((if self.hidden {
            1u32
        } else {
            0u32
        }) + (if self.embedded {
            2u32
        } else {
            0u32
        }) + (if self.metadata {
            4u32
        } else {
            0u32
        })) as u32
    }

    /// The wire value of the set.
    pub fn bits(&self) -> (r: u32)
        ensures
            r == self.spec_bits(),
    {
        let h: u32 = if self.hidden {
            1
        } else {
            0
        };
        let e: u32 = if self.embedded {
            2
        } else {
            0
        };
        let m: u32 = if self.metadata {
            4
        } else {
            0
        };
        h + e + m
    }

    /// Whether the advertised set supports hiding the cursor. The check
    /// intersects the set with {Hidden, Metadata} and asks whether that
    /// exceeds {Hidden} in the wire order, which holds exactly when
    /// Metadata is advertised.
    pub fn is_hidden_available(&self) -> (r: bool)
        ensures
            r == self.metadata,
    {
        let masked: u32 = self.bits() & 5;
        proof {
            let b = self.spec_bits();
            let h = self.hidden;
            let e = self.embedded;
            let m = self.metadata;
            assert(((b & 5) > 1) == m) by (bit_vector)
                requires
                    b == ((if h {
                        1u32
                    } else {
                        0u32
                    }) + (if e {
                        2u32
                    } else {
                        0u32
                    }) + (if m {
                        4u32
                    } else {
                        0u32
                    })) as u32,
            ;
        }
        masked > 1
    }

    /// The cursor mode to request, by the preference order stated over
    /// `spec_best_mode`.
    pub fn best_mode(&self, show: bool) -> (r: CursorModes)
        ensures
            r == spec_best_mode(*self, show),
    {
        if show {
            if self.embedded {
                return CursorModes { hidden: false, embedded: true, metadata: false };
            }
            if self.metadata {
                return CursorModes { hidden: false, embedded: false, metadata: true };
            }
        }
        if self.hidden {
            CursorModes { hidden: true, embedded: false, metadata: false }
        } else {
            CursorModes { hidden: false, embedded: false, metadata: true }
        }
    }
}

/// Law: with a visible cursor preferred, `best_mode` picks Embedded when
/// advertised, else Metadata when advertised, else Hidden when advertised;
/// without that preference it picks Hidden when advertised, else Metadata.
pub proof fn lemma_best_mode_preference(m: CursorModes)
    ensures
        m.embedded ==> spec_best_mode(m, true) == (CursorModes {
            hidden: false,
            embedded: true,
            metadata: false,
        }),
        !m.embedded && m.metadata ==> spec_best_mode(m, true) == (CursorModes {
            hidden: false,
            embedded: false,
            metadata: true,
        }),
        !m.embedded && !m.metadata && m.hidden ==> spec_best_mode(m, true) == (CursorModes {
            hidden: true,
            embedded: false,
            metadata: false,
        }),
        m.hidden ==> spec_best_mode(m, false) == (CursorModes {
            hidden: true,
            embedded: false,
            metadata: false,
        }),
        !m.hidden ==> spec_best_mode(m, false) == (CursorModes {
            hidden: false,
            embedded: false,
            metadata: true,
        }),
{
}

/// The capture source kinds, as a set over the closed enumeration
/// Monitor/Window/Virtual. On the wire: Monitor is bit 0, Window bit 1,
/// Virtual bit 2.
#[derive(Debug, PartialEq, Eq, Clone, Copy, Structural)]
pub struct SourceType {
    pub monitor: bool,
    pub window: bool,
    pub virtual_source: bool,
}

impl SourceType {
    /// The empty set.
    pub fn empty() -> (r: SourceType)
        ensures
            r == (SourceType { monitor: false, window: false, virtual_source: false }),
    {
        SourceType { monitor: false, window: false, virtual_source: false }
    }

    /// The set holding only Monitor.
    pub fn monitor() -> (r: SourceType)
        ensures
            r == (SourceType { monitor: true, window: false, virtual_source: false }),
    {
        SourceType { monitor: true, window: false, virtual_source: false }
    }

    /// The union of two sets.
    pub fn union(self, other: SourceType) -> (r: SourceType)
        ensures
            r.monitor == (self.monitor || other.monitor),
            r.window == (self.window || other.window),
            r.virtual_source == (self.virtual_source || other.virtual_source),
    {
        SourceType {
            monitor: self.monitor || other.monitor,
            window: self.window || other.window,
            virtual_source: self.virtual_source || other.virtual_source,
        }
    }

    /// The set a wire value stands for; unknown bits are dropped.
    pub fn from_bits(v: u32) -> (r: SourceType)
        ensures
            r.monitor == (v & 1 != 0),
            r.window == (v & 2 != 0),
            r.virtual_source == (v & 4 != 0),
    {
        SourceType { monitor: v & 1 != 0, window: v & 2 != 0, virtual_source: v & 4 != 0 }
    }

    /// The wire encoding: one bit per source kind.
    pub open spec fn spec_bits(&self) -> u32 {
        ((if self.monitor {
            1u32
        } else {
            0u32
        }) + (if self.window {
            2u32
        } else {
            0u32
        }) + (if self.virtual_source {
            4u32
        } else {
            0u32
        })) as u32
    }

    /// The wire value of the set.
    pub fn bits(&self) -> (r: u32)
        ensures
            r == self.spec_bits(),
    {
        let m: u32 = if self.monitor {
            1
        } else {
            0
        };
        let w: u32 = if self.window {
            2
        } else {
            0
        };
        let v: u32 = if self.virtual_source {
            4
        } else {
            0
        };
        m + w + v
    }
}

/// How long a granted permission outlives the session. Wire values 0, 1, 2
/// in this order.
#[derive(Debug, PartialEq, Eq, Clone, Copy, Structural)]
pub enum PersistMode {
    Never,
    Session,
    System,
}

impl PersistMode {
    /// The wire value of the mode.
    pub fn code(&self) -> (r: u32)
        ensures
            r == (match *self {
                PersistMode::Never => 0u32,
                PersistMode::Session => 1u32,
                PersistMode::System => 2u32,
            }),
    {
        match self {
            PersistMode::Never => 0,
            PersistMode::Session => 1,
            PersistMode::System => 2,
        }
    }
}

/// The options of a CreateSession call.
#[derive(Debug, PartialEq, Eq)]
pub struct CreateSessionOption {
    pub handle_token: String,
    pub session_handle_token: String,
}

/// What a successful CreateSession response carries: the portal's session
/// handle path.
#[derive(Debug, PartialEq, Eq)]
pub struct CreateSessionResponse {
    pub session_handle: String,
}

impl CreateSessionResponse {
    /// Reads the session handle out of the response dictionary.
    pub fn try_from_response(map: &ResponseMap) -> (r: Result<
        CreateSessionResponse,
        RecorderError,
    >)
        ensures
            match spec_lookup(map.entries@, "session_handle"@) {
                Some(ResponseValue::ObjectPath(p)) => r matches Ok(c) && c.session_handle@ == p@,
                Some(_) => r matches Err(RecorderError::Protocol(ProtocolError::WrongType(k)))
                    && k@ == "session_handle"@,
                None => r matches Err(RecorderError::Protocol(ProtocolError::MissingKey(k))) && k@
                    == "session_handle"@,
            },
    {
        let key = String::from_str("session_handle");
        match map.get(&key) {
            Some(v) => match v {
                ResponseValue::ObjectPath(p) => Ok(
                    CreateSessionResponse { session_handle: p.clone() },
                ),
                _ => Err(RecorderError::Protocol(ProtocolError::WrongType(key))),
            },
            None => Err(RecorderError::Protocol(ProtocolError::MissingKey(key))),
        }
    }
}

/// The per-stream property dictionary of a started stream.
#[derive(Debug, PartialEq, Eq)]
pub struct StartStreamProperty {
    pub id: Option<String>,
    pub position: Option<(i32, i32)>,
    pub size: Option<(i32, i32)>,
    pub source_type: u32,
    pub mapping_id: Option<String>,
}

/// Whether a stream property dictionary can be read at all: its one
/// required key, source_type, holds an unsigned integer.
pub open spec fn spec_prop_ok(entries: Seq<(String, ResponseValue)>) -> bool {
    spec_lookup(entries, "source_type"@) matches Some(ResponseValue::U32(_))
}

/// How a read property relates to its dictionary: each optional field is
/// present exactly when its key holds a value of the right shape, and
/// source_type is the required integer.
pub open spec fn spec_prop_matches(
    p: StartStreamProperty,
    entries: Seq<(String, ResponseValue)>,
) -> bool {
    &&& (match spec_lookup(entries, "id"@) {
        Some(ResponseValue::Str(s)) => p.id matches Some(v) && v@ == s@,
        _ => p.id is None,
    })
    &&& (match spec_lookup(entries, "position"@) {
        Some(ResponseValue::IntPair(a, b)) => p.position == Some((a, b)),
        _ => p.position is None,
    })
    &&& (match spec_lookup(entries, "size"@) {
        Some(ResponseValue::IntPair(a, b)) => p.size == Some((a, b)),
        _ => p.size is None,
    })
    &&& (match spec_lookup(entries, "source_type"@) {
        Some(ResponseValue::U32(v)) => p.source_type == v,
        _ => false,
    })
    &&& (match spec_lookup(entries, "mapping_id"@) {
        Some(ResponseValue::Str(s)) => p.mapping_id matches Some(v) && v@ == s@,
        _ => p.mapping_id is None,
    })
}

impl StartStreamProperty {
    /// Reads one stream's properties out of its dictionary. Optional keys
    /// of the wrong shape are treated as absent; the required source_type
    /// is an error when missing or malformed.
    pub fn try_from_response(map: &ResponseMap) -> (r: Result<StartStreamProperty, RecorderError>)
        ensures
            match spec_lookup(map.entries@, "source_type"@) {
                Some(ResponseValue::U32(_)) => r matches Ok(p) && spec_prop_matches(
                    p,
                    map.entries@,
                ),
                Some(_) => r matches Err(RecorderError::Protocol(ProtocolError::WrongType(k)))
                    && k@ == "source_type"@,
                None => r matches Err(RecorderError::Protocol(ProtocolError::MissingKey(k))) && k@
                    == "source_type"@,
            },
    {
        let source_type_key = String::from_str("source_type");
        let source_type: u32 = match map.get(&source_type_key) {
            Some(v) => match v {
                ResponseValue::U32(n) => *n,
                _ => {
                    return Err(RecorderError::Protocol(ProtocolError::WrongType(source_type_key)));
                },
            },
            None => {
                return Err(RecorderError::Protocol(ProtocolError::MissingKey(source_type_key)));
            },
        };
        let id: Option<String> = match map.get(&String::from_str("id")) {
            Some(v) => match v {
                ResponseValue::Str(s) => Some(s.clone()),
                _ => None,
            },
            None => None,
        };
        let position: Option<(i32, i32)> = match map.get(&String::from_str("position")) {
            Some(v) => match v {
                ResponseValue::IntPair(a, b) => Some((*a, *b)),
                _ => None,
            },
            None => None,
        };
        let size: Option<(i32, i32)> = match map.get(&String::from_str("size")) {
            Some(v) => match v {
                ResponseValue::IntPair(a, b) => Some((*a, *b)),
                _ => None,
            },
            None => None,
        };
        let mapping_id: Option<String> = match map.get(&String::from_str("mapping_id")) {
            Some(v) => match v {
                ResponseValue::Str(s) => Some(s.clone()),
                _ => None,
            },
            None => None,
        };
        Ok(StartStreamProperty { id, position, size, source_type, mapping_id })
    }
}

/// One started stream: the transport node id to attach the capture
/// pipeline to, plus its properties.
#[derive(Debug, PartialEq, Eq)]
pub struct StartStreamResponse {
    pub pipewire_node_id: u32,
    pub property: StartStreamProperty,
}

/// What a successful Start response carries: the started streams and,
/// under persistence, a new restore token.
#[derive(Debug, PartialEq, Eq)]
pub struct StartResponse {
    pub streams: Vec<StartStreamResponse>,
    pub restore_token: Option<String>,
}

impl StartResponse {
    /// Reads the started streams and the optional restore token out of the
    /// response dictionary. The streams key is required; the restore token
    /// is kept only when present as a string.
    #[verifier::loop_isolation(false)]
    pub fn try_from_response(map: &ResponseMap) -> (r: Result<StartResponse, RecorderError>)
        ensures
            match spec_lookup(map.entries@, "streams"@) {
                Some(ResponseValue::Streams(raw)) => {
                    if exists|j: int|
                        0 <= j < raw@.len() && !spec_prop_ok(
                            #[trigger] raw@[j].properties.entries@,
                        ) {
                        r matches Err(RecorderError::Protocol(e)) && ((e matches
                        ProtocolError::MissingKey(k) && k@ == "source_type"@) || (e matches
                        ProtocolError::WrongType(k) && k@ == "source_type"@))
                    } else {
                        r matches Ok(resp) && resp.streams@.len() == raw@.len() && (forall|j: int|
                            0 <= j < raw@.len() ==> (#[trigger] resp.streams@[j]).pipewire_node_id
                                == raw@[j].node_id && spec_prop_matches(
                                resp.streams@[j].property,
                                raw@[j].properties.entries@,
                            )) && (match spec_lookup(map.entries@, "restore_token"@) {
                            Some(ResponseValue::Str(s)) => resp.restore_token matches Some(t) && t@
                                == s@,
                            _ => resp.restore_token is None,
                        })
                    }
                },
                Some(_) => r matches Err(RecorderError::Protocol(ProtocolError::WrongType(k))) && k@
                    == "streams"@,
                None => r matches Err(RecorderError::Protocol(ProtocolError::MissingKey(k))) && k@
                    == "streams"@,
            },
    {
        let streams_key = String::from_str("streams");
        match map.get(&streams_key) {
            Some(v) => match v {
                ResponseValue::Streams(raw) => {
                    let n: usize = raw.len();
                    let mut streams: Vec<StartStreamResponse> = Vec::new();
                    let mut i: usize = 0;
                    while i < n
                        invariant
                            spec_lookup(map.entries@, "streams"@) == Some(
                                ResponseValue::Streams(*raw),
                            ),
                            n == raw@.len(),
                            i <= n,
                            streams@.len() == i,
                            forall|j: int|
                                0 <= j < i ==> spec_prop_ok(#[trigger] raw@[j].properties.entries@),
                            forall|j: int|
                                0 <= j < i ==> (#[trigger] streams@[j]).pipewire_node_id
                                    == raw@[j].node_id && spec_prop_matches(
                                    streams@[j].property,
                                    raw@[j].properties.entries@,
                                ),
                        decreases n - i,
                    {
                        let property = match StartStreamProperty::try_from_response(
                            &raw[i].properties,
                        ) {
                            Ok(p) => p,
                            Err(e) => {
                                proof {
                                    assert(!spec_prop_ok(raw@[i as int].properties.entries@));
                                }
                                return Err(e);
                            },
                        };
                        streams.push(
                            StartStreamResponse { pipewire_node_id: raw[i].node_id, property },
                        );
                        i = i + 1;
                    }
                    let restore_token: Option<String> = match map.get(
                        &String::from_str("restore_token"),
                    ) {
                        Some(t) => match t {
                            ResponseValue::Str(s) => Some(s.clone()),
                            _ => None,
                        },
                        None => None,
                    };
                    Ok(StartResponse { streams, restore_token })
                },
                _ => Err(RecorderError::Protocol(ProtocolError::WrongType(streams_key))),
            },
            None => Err(RecorderError::Protocol(ProtocolError::MissingKey(streams_key))),
        }
    }
}

/// The options a SelectSources call sends.
#[derive(Debug, PartialEq, Eq)]
pub struct SelectSourcesOptionMap {
    pub handle_token: String,
    pub types: SourceType,
    pub multiple: bool,
    pub cursor_mode: CursorModes,
    pub restore_token: Option<String>,
    pub persist_mode: PersistMode,
}

/// A SelectSources call: the session it addresses and its options.
#[derive(Debug, PartialEq, Eq)]
pub struct SelectSourcesOptions {
    pub session_handle: String,
    pub options: SelectSourcesOptionMap,
}

/// The options a Start call sends.
#[derive(Debug, PartialEq, Eq)]
pub struct StartOptionMap {
    pub handle_token: String,
}

/// A Start call: the session, the parent window handle, and the options.
#[derive(Debug, PartialEq, Eq)]
pub struct StartOptions {
    pub session_handle: String,
    pub parent_window: String,
    pub options: StartOptionMap,
}

/// Fails with the protocol error unless the response code is Success.
pub fn ensure_success(code: ResponseCode) -> (r: Result<(), RecorderError>)
    ensures
        code == ResponseCode::Success ==> r == Ok::<(), RecorderError>(()),
        code != ResponseCode::Success ==> r == Err::<(), RecorderError>(
            RecorderError::Protocol(
                ProtocolError::NotSuccess(
                    match code {
                        ResponseCode::Success => 0u32,
                        ResponseCode::Cancelled => 1u32,
                        ResponseCode::Failed => 2u32,
                    },
                ),
            ),
        ),
{
    if code.is_success() {
        Ok(())
    } else {
        Err(RecorderError::Protocol(ProtocolError::NotSuccess(code.code())))
    }
}

/// What a screen-cast negotiation was asked to do.
#[derive(Debug, PartialEq, Eq, Clone, Copy, Structural)]
pub struct ScreenCastFlag {
    /// Ask for a hidden cursor.
    pub hide_cursor: bool,
    /// Allow selecting several sources.
    pub enable_multi: bool,
    /// Persist the granted permission and reuse a cached token.
    pub save_permission: bool,
}

impl ScreenCastFlag {
    /// No option set.
    pub fn empty() -> (r: ScreenCastFlag)
        ensures
            r == (ScreenCastFlag { hide_cursor: false, enable_multi: false, save_permission: false,
            }),
    {
        ScreenCastFlag { hide_cursor: false, enable_multi: false, save_permission: false }
    }
}

/// The tokens of a prepared CreateSession call, with the session path the
/// portal is expected to answer with.
#[derive(Debug, PartialEq, Eq)]
pub struct CreateSessionRequest {
    pub options: CreateSessionOption,
    pub expected_session_path: String,
}

/// The screen-cast negotiation client: what was asked for, what the portal
/// advertises, and the cached restore token, all settled before the first
/// remote call.
#[derive(Debug, PartialEq, Eq)]
pub struct ScreenCast {
    pub flags: ScreenCastFlag,
    pub sources: SourceType,
    pub cursor_modes: CursorModes,
    pub restore_token: Option<String>,
}

impl ScreenCast {
    /// Checks the portal's capabilities against what is asked for, before
    /// any remote call: cursor hiding needs portal version 2 and an
    /// advertised mode that supports it; persisting permissions needs
    /// version 4. `available_cursor_modes` is what the portal advertises;
    /// `cached_restore_token` is the persisted token, if the caller found
    /// one, and is kept only when persistence was requested.
    pub fn new(
        flags: ScreenCastFlag,
        sources: SourceType,
        version: u32,
        available_cursor_modes: CursorModes,
        cached_restore_token: Option<String>,
    ) -> (r: Result<ScreenCast, RecorderError>)
        ensures
            flags.hide_cursor && version < 2 ==> r == Err::<ScreenCast, RecorderError>(
                RecorderError::Capability(CapabilityError::CursorModesVersion(version)),
            ),
            flags.hide_cursor && version >= 2 && !available_cursor_modes.metadata ==> r == Err::<
                ScreenCast,
                RecorderError,
            >(RecorderError::Capability(CapabilityError::CursorHidingUnsupported)),
            (!flags.hide_cursor || (version >= 2 && available_cursor_modes.metadata)) && (
            flags.save_permission && version < 4) ==> r == Err::<ScreenCast, RecorderError>(
                RecorderError::Capability(CapabilityError::PersistVersion(version)),
            ),
            (!flags.hide_cursor || (version >= 2 && available_cursor_modes.metadata)) && (
            !flags.save_permission || version >= 4) ==> (r matches Ok(sc) && sc.flags == flags
                && sc.sources == sources && sc.cursor_modes == (if flags.hide_cursor {
                available_cursor_modes
            } else {
                CursorModes { hidden: false, embedded: false, metadata: false }
            }) && sc.restore_token == (if flags.save_permission {
                cached_restore_token
            } else {
                None::<String>
            })),
    {
        let cursor_modes: CursorModes = if flags.hide_cursor {
            if version < 2 {
                return Err(RecorderError::Capability(CapabilityError::CursorModesVersion(version)));
            }
            if !available_cursor_modes.is_hidden_available() {
                return Err(RecorderError::Capability(CapabilityError::CursorHidingUnsupported));
            }
            available_cursor_modes
        } else {
            CursorModes::empty()
        };
        let restore_token: Option<String> = if flags.save_permission {
            if version < 4 {
                return Err(RecorderError::Capability(CapabilityError::PersistVersion(version)));
            }
            cached_restore_token
        } else {
            None
        };
        Ok(ScreenCast { flags, sources, cursor_modes, restore_token })
    }

    /// Prepares a CreateSession call: fresh handle and session tokens, and
    /// the session path the portal must answer with for this connection.
    pub fn create_session_request(&self, sender_identity: &str) -> (r: CreateSessionRequest)
        ensures
            spec_is_token(r.options.handle_token@, "xcap_"@),
            spec_is_token(r.options.session_handle_token@, "xcap_sess_"@),
            r.expected_session_path@ == "/org/freedesktop/portal/desktop/session/"@
                + sender_identity@ + "/"@ + r.options.session_handle_token@,
    {
        let handle_token = generate_token_handle();
        let session_handle_token = generate_session_handle();
        let expected_session_path = session_handle_path(
            sender_identity,
            session_handle_token.as_str(),
        );
        CreateSessionRequest {
            options: CreateSessionOption { handle_token, session_handle_token },
            expected_session_path,
        }
    }

    /// Validates a CreateSession response: the code must be Success, the
    /// dictionary must carry the session handle, and that handle must be
    /// exactly the path the client derived itself; the validated path is
    /// returned.
    pub fn validate_create_session(
        expected_session_path: &String,
        code: ResponseCode,
        results: &ResponseMap,
    ) -> (r: Result<String, RecorderError>)
        ensures
            code != ResponseCode::Success ==> r matches Err(RecorderError::Protocol(
                ProtocolError::NotSuccess(_),
            )),
            code == ResponseCode::Success ==> match spec_lookup(
                results.entries@,
                "session_handle"@,
            ) {
                Some(ResponseValue::ObjectPath(p)) => {
                    if p@ == expected_session_path@ {
                        r matches Ok(path) && path@ == expected_session_path@
                    } else {
                        r == Err::<String, RecorderError>(
                            RecorderError::Protocol(ProtocolError::SessionHandleMismatch),
                        )
                    }
                },
                Some(_) => r matches Err(RecorderError::Protocol(ProtocolError::WrongType(k)))
                    && k@ == "session_handle"@,
                None => r matches Err(RecorderError::Protocol(ProtocolError::MissingKey(k))) && k@
                    == "session_handle"@,
            },
    {
        ensure_success(code)?;
        let resp = CreateSessionResponse::try_from_response(results)?;
        if !(resp.session_handle == *expected_session_path) {
            return Err(RecorderError::Protocol(ProtocolError::SessionHandleMismatch));
        }
        Ok(resp.session_handle)
    }

    /// Builds the SelectSources options: a fresh handle token, the chosen
    /// sources, multi-selection per the flags, the best cursor mode for the
    /// hide-cursor preference, the cached restore token exactly when
    /// persistence was requested, and a persist mode asking the portal to
    /// keep the permission for the session when persistence was requested.
    pub fn select_sources_options(&self) -> (r: SelectSourcesOptionMap)
        ensures
            spec_is_token(r.handle_token@, "xcap_"@),
            r.types == self.sources,
            r.multiple == self.flags.enable_multi,
            r.cursor_mode == spec_best_mode(self.cursor_modes, self.flags.hide_cursor),
            (match (self.flags.save_permission, &self.restore_token) {
                (true, Some(t)) => r.restore_token matches Some(u) && u@ == t@,
                _ => r.restore_token is None,
            }),
            r.persist_mode == (if self.flags.save_permission {
                PersistMode::Session
            } else {
                PersistMode::Never
            }),
    {
        let handle_token = generate_token_handle();
        let restore_token: Option<String> = if self.flags.save_permission {
            match &self.restore_token {
                Some(t) => Some(t.clone()),
                None => None,
            }
        } else {
            None
        };
        let persist_mode: PersistMode = if self.flags.save_permission {
            PersistMode::Session
        } else {
            PersistMode::Never
        };
        SelectSourcesOptionMap {
            handle_token,
            types: self.sources,
            multiple: self.flags.enable_multi,
            cursor_mode: self.cursor_modes.best_mode(self.flags.hide_cursor),
            restore_token,
            persist_mode,
        }
    }

    /// Builds the Start options: a fresh handle token.
    pub fn start_options(&self) -> (r: StartOptionMap)
        ensures
            spec_is_token(r.handle_token@, "xcap_"@),
    {
        StartOptionMap { handle_token: generate_token_handle() }
    }

    /// Validates and reads a Start response: the code must be Success and
    /// the dictionary must parse as the started-streams list.
    pub fn handle_start_response(code: ResponseCode, results: &ResponseMap) -> (r: Result<
        StartResponse,
        RecorderError,
    >)
        ensures
            code != ResponseCode::Success ==> r matches Err(RecorderError::Protocol(
                ProtocolError::NotSuccess(_),
            )),
            code == ResponseCode::Success ==> match spec_lookup(results.entries@, "streams"@) {
                Some(ResponseValue::Streams(raw)) => {
                    if exists|j: int|
                        0 <= j < raw@.len() && !spec_prop_ok(
                            #[trigger] raw@[j].properties.entries@,
                        ) {
                        r matches Err(RecorderError::Protocol(e)) && ((e matches
                        ProtocolError::MissingKey(k) && k@ == "source_type"@) || (e matches
                        ProtocolError::WrongType(k) && k@ == "source_type"@))
                    } else {
                        r matches Ok(resp) && resp.streams@.len() == raw@.len() && (forall|j: int|
                            0 <= j < raw@.len() ==> (#[trigger] resp.streams@[j]).pipewire_node_id
                                == raw@[j].node_id && spec_prop_matches(
                                resp.streams@[j].property,
                                raw@[j].properties.entries@,
                            )) && (match spec_lookup(results.entries@, "restore_token"@) {
                            Some(ResponseValue::Str(s)) => resp.restore_token matches Some(t) && t@
                                == s@,
                            _ => resp.restore_token is None,
                        })
                    }
                },
                Some(_) => r matches Err(RecorderError::Protocol(ProtocolError::WrongType(k))) && k@
                    == "streams"@,
                None => r matches Err(RecorderError::Protocol(ProtocolError::MissingKey(k))) && k@
                    == "streams"@,
            },
    {
        ensure_success(code)?;
        StartResponse::try_from_response(results)
    }

    /// The restore token to write to the per-user cache file after a
    /// successful start: the response's token, exactly when persistence was
    /// requested and the portal returned one.
    pub fn restore_token_to_save<'a>(&self, resp: &'a StartResponse) -> (r: Option<&'a String>)
        ensures
            (match (self.flags.save_permission, &resp.restore_token) {
                (true, Some(t)) => r matches Some(u) && u@ == t@,
                _ => r is None,
            }),
    {
        if self.flags.save_permission {
            match &resp.restore_token {
                Some(t) => Some(t),
                None => None,
            }
        } else {
            None
        }
    }
}

} // verus!
