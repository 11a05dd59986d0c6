use xcap::dbus::request::{
    request_handle_path, sanitize_sender_identity, RawStream, ResponseArgs, ResponseCode,
    ResponseMap, ResponseValue, Responses,
};
use xcap::dbus::screencast::{
    ensure_success, CreateSessionResponse, CursorModes, PersistMode, ScreenCast, ScreenCastFlag,
    SourceType, StartResponse, StartStreamProperty,
};
use xcap::dbus::session::session_handle_path;
use xcap::dbus::{generate_session_handle, generate_token_handle, u32_decimal};
use xcap::error::{CapabilityError, ProtocolError, RecorderError};
use xcap::wayland_video_recorder::first_stream_node;

#[test]
fn decimal_rendering_is_exact() {
    assert_eq!(u32_decimal(0), "0");
    assert_eq!(u32_decimal(7), "7");
    assert_eq!(u32_decimal(10), "10");
    assert_eq!(u32_decimal(305419896), "305419896");
    assert_eq!(u32_decimal(u32::MAX), "4294967295");
}

#[test]
fn tokens_carry_their_prefixes() {
    let t = generate_token_handle();
    assert!(t.starts_with("xcap_"));
    assert!(t.len() > "xcap_".len());
    assert!(t["xcap_".len()..].chars().all(|c| c.is_ascii_digit()));
    let s = generate_session_handle();
    assert!(s.starts_with("xcap_sess_"));
    assert!(s["xcap_sess_".len()..].chars().all(|c| c.is_ascii_digit()));
}

#[test]
fn handle_paths_follow_the_portal_convention() {
    assert_eq!(
        request_handle_path("1_42", "xcap_7"),
        "/org/freedesktop/portal/desktop/request/1_42/xcap_7"
    );
    assert_eq!(
        session_handle_path("1_42", "xcap_sess_7"),
        "/org/freedesktop/portal/desktop/session/1_42/xcap_sess_7"
    );
}

#[test]
fn sender_identity_is_sanitized() {
    assert_eq!(sanitize_sender_identity(":1.42"), "1_42");
    assert_eq!(sanitize_sender_identity("1.42"), "1_42");
    assert_eq!(sanitize_sender_identity(":a.b.c"), "a_b_c");
    assert_eq!(sanitize_sender_identity(""), "");
}

#[test]
fn response_codes_map_to_wire_values() {
    assert_eq!(ResponseCode::Success.code(), 0);
    assert_eq!(ResponseCode::Cancelled.code(), 1);
    assert_eq!(ResponseCode::Failed.code(), 2);
    assert_eq!(ResponseCode::from_code(0), Some(ResponseCode::Success));
    assert_eq!(ResponseCode::from_code(1), Some(ResponseCode::Cancelled));
    assert_eq!(ResponseCode::from_code(2), Some(ResponseCode::Failed));
    assert_eq!(ResponseCode::from_code(3), None);
    assert!(ResponseCode::Success.is_success());
    assert!(!ResponseCode::Cancelled.is_success());
    assert_eq!(ResponseCode::Success.describe(), "0 Success");
    assert_eq!(ResponseCode::Cancelled.describe(), "1 Cancelled");
    assert_eq!(ResponseCode::Failed.describe(), "2 Failed");
}

#[test]
fn responses_wrap_code_and_results() {
    let mut r: Responses<u32> = Responses::new(ResponseCode::Success, 5);
    assert!(r.is_success());
    assert_eq!(*r.results(), 5);
    *r.results_mut() = 9;
    assert_eq!(*r.results(), 9);
    let args = ResponseArgs { code: ResponseCode::Failed, results: ResponseMap::new() };
    assert!(!args.is_success());
}

#[test]
fn map_lookup_finds_the_first_match() {
    let map = ResponseMap {
        entries: vec![
            ("a".to_string(), ResponseValue::U32(1)),
            ("b".to_string(), ResponseValue::U32(2)),
            ("a".to_string(), ResponseValue::U32(3)),
        ],
    };
    assert_eq!(map.get(&"a".to_string()), Some(&ResponseValue::U32(1)));
    assert_eq!(map.get(&"b".to_string()), Some(&ResponseValue::U32(2)));
    assert_eq!(map.get(&"c".to_string()), None);
}

#[test]
fn create_session_response_requires_an_object_path() {
    let ok = ResponseMap {
        entries: vec![(
            "session_handle".to_string(),
            ResponseValue::ObjectPath("/org/freedesktop/portal/desktop/session/1_42/xcap_sess_7".to_string()),
        )],
    };
    let parsed = CreateSessionResponse::try_from_response(&ok).unwrap();
    assert_eq!(
        parsed.session_handle,
        "/org/freedesktop/portal/desktop/session/1_42/xcap_sess_7"
    );

    let missing = ResponseMap { entries: vec![] };
    assert_eq!(
        CreateSessionResponse::try_from_response(&missing),
        Err(RecorderError::Protocol(ProtocolError::MissingKey("session_handle".to_string())))
    );

    let wrong = ResponseMap {
        entries: vec![("session_handle".to_string(), ResponseValue::U32(1))],
    };
    assert_eq!(
        CreateSessionResponse::try_from_response(&wrong),
        Err(RecorderError::Protocol(ProtocolError::WrongType("session_handle".to_string())))
    );
}

fn stream_props(source_type: u32) -> ResponseMap {
    ResponseMap {
        entries: vec![
            ("id".to_string(), ResponseValue::Str("out-1".to_string())),
            ("position".to_string(), ResponseValue::IntPair(0, 0)),
            ("size".to_string(), ResponseValue::IntPair(1920, 1080)),
            ("source_type".to_string(), ResponseValue::U32(source_type)),
        ],
    }
}

#[test]
fn stream_property_reads_required_and_optional_keys() {
    let p = StartStreamProperty::try_from_response(&stream_props(1)).unwrap();
    assert_eq!(p.id, Some("out-1".to_string()));
    assert_eq!(p.position, Some((0, 0)));
    assert_eq!(p.size, Some((1920, 1080)));
    assert_eq!(p.source_type, 1);
    assert_eq!(p.mapping_id, None);

    let missing = ResponseMap { entries: vec![] };
    assert_eq!(
        StartStreamProperty::try_from_response(&missing),
        Err(RecorderError::Protocol(ProtocolError::MissingKey("source_type".to_string())))
    );

    let wrong = ResponseMap {
        entries: vec![("source_type".to_string(), ResponseValue::Str("x".to_string()))],
    };
    assert_eq!(
        StartStreamProperty::try_from_response(&wrong),
        Err(RecorderError::Protocol(ProtocolError::WrongType("source_type".to_string())))
    );
}

fn start_map(with_restore: bool) -> ResponseMap {
    let mut entries = vec![(
        "streams".to_string(),
        ResponseValue::Streams(vec![RawStream { node_id: 71, properties: stream_props(1) }]),
    )];
    if with_restore {
        entries.push(("restore_token".to_string(), ResponseValue::Str("granted".to_string())));
    }
    ResponseMap { entries }
}

#[test]
fn start_response_reads_streams_and_restore_token() {
    let resp = StartResponse::try_from_response(&start_map(true)).unwrap();
    assert_eq!(resp.streams.len(), 1);
    assert_eq!(resp.streams[0].pipewire_node_id, 71);
    assert_eq!(resp.streams[0].property.source_type, 1);
    assert_eq!(resp.restore_token, Some("granted".to_string()));

    let resp = StartResponse::try_from_response(&start_map(false)).unwrap();
    assert_eq!(resp.restore_token, None);

    let missing = ResponseMap { entries: vec![] };
    assert_eq!(
        StartResponse::try_from_response(&missing),
        Err(RecorderError::Protocol(ProtocolError::MissingKey("streams".to_string())))
    );
}

#[test]
fn first_stream_node_picks_the_first_stream() {
    let resp = StartResponse::try_from_response(&start_map(false)).unwrap();
    assert_eq!(first_stream_node(&resp), Ok(71));
    let empty = StartResponse { streams: vec![], restore_token: None };
    assert_eq!(first_stream_node(&empty), Err(RecorderError::StreamNotFound));
}

#[test]
fn cursor_mode_bits_round_trip() {
    for v in 0u32..8 {
        let m = CursorModes::from_bits(v);
        assert_eq!(m.bits(), v);
    }
    // Unknown bits are dropped.
    assert_eq!(CursorModes::from_bits(0b1101).bits(), 0b101);
    assert_eq!(SourceType::from_bits(0b11).bits(), 0b11);
    assert_eq!(SourceType::monitor().bits(), 1);
    assert_eq!(SourceType::monitor().union(SourceType::from_bits(2)).bits(), 3);
}

#[test]
fn hidden_availability_follows_the_wire_order_check() {
    assert!(!CursorModes::from_bits(0).is_hidden_available());
    assert!(!CursorModes::from_bits(1).is_hidden_available());
    assert!(CursorModes::from_bits(4).is_hidden_available());
    assert!(CursorModes::from_bits(5).is_hidden_available());
}

#[test]
fn best_mode_preference_order() {
    let all = CursorModes { hidden: true, embedded: true, metadata: true };
    let visible_all = all.best_mode(true);
    assert!(visible_all.embedded && !visible_all.hidden && !visible_all.metadata);
    let no_embedded = CursorModes { hidden: true, embedded: false, metadata: true };
    let visible_meta = no_embedded.best_mode(true);
    assert!(visible_meta.metadata && !visible_meta.embedded && !visible_meta.hidden);
    let hidden_only = CursorModes { hidden: true, embedded: false, metadata: false };
    let visible_hidden = hidden_only.best_mode(true);
    assert!(visible_hidden.hidden && !visible_hidden.embedded && !visible_hidden.metadata);
    // Without the visibility preference: Hidden when advertised, else
    // Metadata.
    let prefer_hidden = all.best_mode(false);
    assert!(prefer_hidden.hidden && !prefer_hidden.embedded && !prefer_hidden.metadata);
    let none = CursorModes { hidden: false, embedded: false, metadata: false };
    let fallback = none.best_mode(false);
    assert!(fallback.metadata && !fallback.hidden && !fallback.embedded);
}

#[test]
fn persist_mode_wire_values() {
    assert_eq!(PersistMode::Never.code(), 0);
    assert_eq!(PersistMode::Session.code(), 1);
    assert_eq!(PersistMode::System.code(), 2);
}

#[test]
fn ensure_success_maps_failures_to_protocol_errors() {
    assert_eq!(ensure_success(ResponseCode::Success), Ok(()));
    assert_eq!(
        ensure_success(ResponseCode::Cancelled),
        Err(RecorderError::Protocol(ProtocolError::NotSuccess(1)))
    );
    assert_eq!(
        ensure_success(ResponseCode::Failed),
        Err(RecorderError::Protocol(ProtocolError::NotSuccess(2)))
    );
}

#[test]
fn capability_checks_run_before_any_remote_call() {
    let hide = ScreenCastFlag { hide_cursor: true, enable_multi: false, save_permission: false };
    let advertised = CursorModes { hidden: true, embedded: false, metadata: true };
    // Cursor modes cannot even be queried before version 2.
    assert_eq!(
        ScreenCast::new(hide, SourceType::monitor(), 1, advertised, None),
        Err(RecorderError::Capability(CapabilityError::CursorModesVersion(1)))
    );
    // A portal that cannot hide the cursor refuses the request.
    let no_meta = CursorModes { hidden: true, embedded: true, metadata: false };
    assert_eq!(
        ScreenCast::new(hide, SourceType::monitor(), 4, no_meta, None),
        Err(RecorderError::Capability(CapabilityError::CursorHidingUnsupported))
    );
    // Persisting permissions needs version 4.
    let persist = ScreenCastFlag { hide_cursor: false, enable_multi: false, save_permission: true };
    assert_eq!(
        ScreenCast::new(persist, SourceType::monitor(), 3, CursorModes::empty(), None),
        Err(RecorderError::Capability(CapabilityError::PersistVersion(3)))
    );
    // Without the hide-cursor request, the advertised modes are not kept.
    let plain = ScreenCast::new(
        ScreenCastFlag::empty(),
        SourceType::monitor(),
        4,
        advertised,
        Some("stale".to_string()),
    )
    .unwrap();
    assert_eq!(plain.cursor_modes, CursorModes::empty());
    assert_eq!(plain.restore_token, None);
}

#[test]
fn select_sources_options_follow_the_persistence_rule() {
    let persist = ScreenCastFlag { hide_cursor: false, enable_multi: true, save_permission: true };
    let sc = ScreenCast::new(
        persist,
        SourceType::monitor(),
        4,
        CursorModes::empty(),
        Some("cached-token".to_string()),
    )
    .unwrap();
    let opts = sc.select_sources_options();
    assert!(opts.handle_token.starts_with("xcap_"));
    assert!(opts.multiple);
    assert_eq!(opts.types, SourceType::monitor());
    assert_eq!(opts.restore_token, Some("cached-token".to_string()));
    assert_eq!(opts.persist_mode, PersistMode::Session);
    // The cursor mode for an unconstrained cursor on a portal advertising
    // nothing falls back to Metadata.
    assert!(opts.cursor_mode.metadata && !opts.cursor_mode.hidden);

    // Without persistence, no token is sent and nothing is persisted.
    let sc = ScreenCast::new(
        ScreenCastFlag::empty(),
        SourceType::monitor(),
        4,
        CursorModes::empty(),
        None,
    )
    .unwrap();
    let opts = sc.select_sources_options();
    assert_eq!(opts.restore_token, None);
    assert_eq!(opts.persist_mode, PersistMode::Never);
    assert!(!opts.multiple);
}

#[test]
fn create_session_round_trip_checks_the_handle() {
    let sc = ScreenCast::new(
        ScreenCastFlag::empty(),
        SourceType::monitor(),
        4,
        CursorModes::empty(),
        None,
    )
    .unwrap();
    let req = sc.create_session_request("1_42");
    assert!(req.options.handle_token.starts_with("xcap_"));
    assert!(req.options.session_handle_token.starts_with("xcap_sess_"));
    let expected = format!(
        "/org/freedesktop/portal/desktop/session/1_42/{}",
        req.options.session_handle_token
    );
    assert_eq!(req.expected_session_path, expected);

    // The portal answering with the derived path validates.
    let results = ResponseMap {
        entries: vec![(
            "session_handle".to_string(),
            ResponseValue::ObjectPath(expected.clone()),
        )],
    };
    assert_eq!(
        ScreenCast::validate_create_session(&req.expected_session_path, ResponseCode::Success, &results),
        Ok(expected)
    );

    // Any other path is a handle mismatch.
    let other = ResponseMap {
        entries: vec![(
            "session_handle".to_string(),
            ResponseValue::ObjectPath("/org/freedesktop/portal/desktop/session/1_42/other".to_string()),
        )],
    };
    assert_eq!(
        ScreenCast::validate_create_session(&req.expected_session_path, ResponseCode::Success, &other),
        Err(RecorderError::Protocol(ProtocolError::SessionHandleMismatch))
    );

    // A non-success code aborts before any dictionary is read.
    assert_eq!(
        ScreenCast::validate_create_session(&req.expected_session_path, ResponseCode::Cancelled, &results),
        Err(RecorderError::Protocol(ProtocolError::NotSuccess(1)))
    );
}

#[test]
fn start_response_handling_and_token_saving() {
    let persist = ScreenCastFlag { hide_cursor: false, enable_multi: false, save_permission: true };
    let sc = ScreenCast::new(
        persist,
        SourceType::monitor(),
        4,
        CursorModes::empty(),
        None,
    )
    .unwrap();
    let opts = sc.start_options();
    assert!(opts.handle_token.starts_with("xcap_"));

    let resp = ScreenCast::handle_start_response(ResponseCode::Success, &start_map(true)).unwrap();
    assert_eq!(resp.restore_token, Some("granted".to_string()));
    // A persisting session's fresh token is the one to write to the cache.
    assert_eq!(sc.restore_token_to_save(&resp), Some(&"granted".to_string()));

    // A cancelled start surfaces the protocol error.
    assert_eq!(
        ScreenCast::handle_start_response(ResponseCode::Cancelled, &start_map(true)),
        Err(RecorderError::Protocol(ProtocolError::NotSuccess(1)))
    );

    // Without persistence requested, nothing is written.
    let plain = ScreenCast::new(
        ScreenCastFlag::empty(),
        SourceType::monitor(),
        4,
        CursorModes::empty(),
        None,
    )
    .unwrap();
    assert_eq!(plain.restore_token_to_save(&resp), None);
}

#[test]
fn error_messages_describe_the_taxonomy() {
    assert_eq!(
        RecorderError::Protocol(ProtocolError::SessionHandleMismatch).message(),
        "Session handle mismatch"
    );
    assert_eq!(
        RecorderError::Protocol(ProtocolError::NotSuccess(1)).message(),
        "got error response from portal: 1"
    );
    assert_eq!(
        RecorderError::Protocol(ProtocolError::MissingKey("streams".to_string())).message(),
        "map has no key streams"
    );
    assert_eq!(
        RecorderError::Capability(CapabilityError::CursorHidingUnsupported).message(),
        "Cursor hiding is not supported"
    );
    assert_eq!(RecorderError::StreamNotFound.message(), "Stream ID not found");
    assert_eq!(RecorderError::Concurrency.message(), "Failed to get condition lock");
    assert_eq!(RecorderError::TransientCapture.message(), "Failed to capture frame");
}

#[test]
fn directories_resolve_when_the_environment_names_a_home() {
    // The lookup depends on the environment; when it answers, the three
    // directories are distinct, non-empty paths.
    if let (Some(c), Some(d), Some(k)) =
        (xcap::dir::config_dir(), xcap::dir::data_dir(), xcap::dir::cache_dir())
    {
        assert!(!c.is_empty());
        assert!(!d.is_empty());
        assert!(!k.is_empty());
    }
}
