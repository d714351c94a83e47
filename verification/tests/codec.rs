use chess_backend::json::text_member;
use chess_backend::types::{ChessMove, Color};
use chess_backend::websocket::messages::{
    to_error_notice, ClientMessage, Connect, CreateGame, Disconnect, JoinGame, MakeMove,
    ParseError, Type, UpdateGameState, UpdateName,
};
use chess_backend::websocket::servers::in_memory::{Player, PlayerStatus};
use chess_backend::websocket::session::{
    parse_text, request_from_value, Frame, Request, SessionAction, SessionActor,
};
use serde_json::Value;

fn object(members: Vec<(&str, Value)>) -> Value {
    let mut map = serde_json::Map::new();
    for (k, v) in members {
        map.insert(k.to_string(), v);
    }
    Value::Object(map)
}

fn text(s: &str) -> Value {
    Value::String(s.to_string())
}

fn framed(tag: &str, payload: &Value) -> String {
    format!(
        "{{\"type\":\"{}\",\"payload\":{}}}",
        tag,
        serde_json::to_string(payload).unwrap()
    )
}

#[test]
fn type_tags_are_lower_case_names() {
    let all = [
        (Type::Error, "error"),
        (Type::Connect, "connect"),
        (Type::Disconnect, "disconnect"),
        (Type::CreateGame, "creategame"),
        (Type::JoinGame, "joingame"),
        (Type::UpdateName, "updatename"),
        (Type::OpponentJoined, "opponentjoined"),
        (Type::MakeMove, "makemove"),
        (Type::UpdateGameState, "updategamestate"),
    ];
    for (t, tag) in all {
        assert_eq!(t.as_tag(), tag);
        assert_eq!(Type::from_tag(tag), Some(t));
    }
    assert_eq!(Type::from_tag("createGame"), None);
    assert_eq!(Type::from_tag(""), None);
}

#[test]
fn color_codes() {
    assert_eq!(Color::from_code("w"), Some(Color::White));
    assert_eq!(Color::from_code("b"), Some(Color::Black));
    assert_eq!(Color::from_code("W"), None);
    assert_eq!(Color::from_code("None"), None);
    assert_eq!(Color::White.as_code(), Some("w"));
    assert_eq!(Color::Black.as_code(), Some("b"));
    assert_eq!(Color::Unassigned.as_code(), None);
}

#[test]
fn player_status_names() {
    let all = [
        (PlayerStatus::Playing, "Playing"),
        (PlayerStatus::WonByCheckmate, "WonByCheckmate"),
        (PlayerStatus::WonByOvertime, "WonByOvertime"),
        (PlayerStatus::WonByResign, "WonByResign"),
        (PlayerStatus::LostByCheckmate, "LostByCheckmate"),
        (PlayerStatus::LostByOvertime, "LostByOvertime"),
        (PlayerStatus::LostByResign, "LostByResign"),
        (PlayerStatus::DrawByRepetition, "DrawByRepetition"),
        (
            PlayerStatus::DrawByInsufficientMaterial,
            "DrawByInsufficientMaterial",
        ),
        (PlayerStatus::DrawByAgreement, "DrawByAgreement"),
        (PlayerStatus::DrawByStalemate, "DrawByStalemate"),
        (PlayerStatus::DrawBy50Moves, "DrawBy50Moves"),
    ];
    for (s, name) in all {
        assert_eq!(PlayerStatus::from_name(name), Some(s));
    }
    assert_eq!(PlayerStatus::from_name("playing"), None);
    assert_eq!(PlayerStatus::from_name("Won"), None);
}

#[test]
fn connect_reply_carries_the_id() {
    let msg = Connect::new("V1StGXR8_Z".to_string());
    assert_eq!(msg.m_type, Type::Connect);
    assert_eq!(
        msg.to_reply(),
        "{\"type\":\"connect\",\"payload\":{\"id\":\"V1StGXR8_Z\"}}"
    );
    assert_eq!(
        msg.to_reply(),
        framed("connect", &object(vec![("id", text("V1StGXR8_Z"))]))
    );
    let gone = Disconnect::new("V1StGXR8_Z".to_string());
    assert_eq!(gone.m_type, Type::Disconnect);
    assert_eq!(gone.id, "V1StGXR8_Z");
}

#[test]
fn texts_are_escaped_as_json_strings() {
    let odd = "a\"b\\c\nd\u{1}é";
    let msg = Connect::new(odd.to_string());
    assert_eq!(
        msg.to_reply(),
        "{\"type\":\"connect\",\"payload\":{\"id\":\"a\\\"b\\\\c\\nd\\u0001é\"}}"
    );
    let back: Value = serde_json::from_str(&msg.to_reply()).unwrap();
    assert_eq!(back["payload"]["id"], text(odd));
    assert_eq!(back["type"], text("connect"));
}

#[test]
fn create_game_reply_carries_only_the_game_id() {
    let msg = CreateGame {
        id: "room".to_string(),
        player_id: "alice".to_string(),
        name: "Casual".to_string(),
        color: Color::White,
    };
    assert_eq!(
        msg.to_reply(),
        "{\"type\":\"creategame\",\"payload\":{\"id\":\"room\"}}"
    );
}

#[test]
fn move_relay_lists_members_by_name() {
    let quiet = ChessMove {
        from: "e2".to_string(),
        to: "e4".to_string(),
        promotion_piece: None,
    };
    assert_eq!(
        quiet.to_relay(),
        "{\"type\":\"makemove\",\"payload\":{\"from\":\"e2\",\"promotion_piece\":null,\"to\":\"e4\"}}"
    );
    assert_eq!(
        quiet.to_relay(),
        framed(
            "makemove",
            &object(vec![
                ("from", text("e2")),
                ("to", text("e4")),
                ("promotion_piece", Value::Null)
            ])
        )
    );
    let promotion = ChessMove {
        from: "e7".to_string(),
        to: "e8".to_string(),
        promotion_piece: Some("q".to_string()),
    };
    assert_eq!(
        promotion.to_relay(),
        framed(
            "makemove",
            &object(vec![
                ("from", text("e7")),
                ("to", text("e8")),
                ("promotion_piece", text("q"))
            ])
        )
    );
}

#[test]
fn chess_move_from_make_move_keeps_the_move() {
    let msg = MakeMove {
        from: "e7".to_string(),
        to: "e8".to_string(),
        promotion_piece: Some("n".to_string()),
        game_id: "room".to_string(),
        player_id: "alice".to_string(),
    };
    let m = ChessMove::from(msg);
    assert_eq!(m.from, "e7");
    assert_eq!(m.to, "e8");
    assert_eq!(m.promotion_piece, Some("n".to_string()));
}

#[test]
fn opponent_joined_describes_the_player() {
    let p = Player {
        id: "bob".to_string(),
        name: "Bob \"the rook\"".to_string(),
        color: Color::Black,
    };
    let expected = object(vec![
        ("id", text("bob")),
        ("name", text("Bob \"the rook\"")),
        ("color", text("b")),
    ]);
    assert_eq!(p.to_payload(), serde_json::to_string(&expected).unwrap());
    assert_eq!(
        Player::to_opponent_joined(&Some(p)),
        framed("opponentjoined", &expected)
    );
    assert_eq!(
        Player::to_opponent_joined(&None),
        "{\"type\":\"opponentjoined\",\"payload\":null}"
    );
    let w = Player {
        id: "a".to_string(),
        name: String::new(),
        color: Color::White,
    };
    assert_eq!(
        w.to_payload(),
        "{\"color\":\"w\",\"id\":\"a\",\"name\":\"\"}"
    );
    let u = Player {
        id: "a".to_string(),
        name: String::new(),
        color: Color::Unassigned,
    };
    assert_eq!(
        u.to_payload(),
        "{\"color\":null,\"id\":\"a\",\"name\":\"\"}"
    );
}

#[test]
fn error_notice_carries_the_reason() {
    assert_eq!(
        to_error_notice("Game is full"),
        "{\"type\":\"error\",\"payload\":{\"message\":\"Game is full\"}}"
    );
    assert_eq!(
        ClientMessage::frame(Type::Error, "null"),
        "{\"type\":\"error\",\"payload\":null}"
    );
}

#[test]
fn envelope_needs_type_and_payload() {
    let doc = object(vec![("type", text("joingame")), ("payload", Value::Null)]);
    let m = ClientMessage::from_value(&doc).unwrap();
    assert_eq!(m.m_type, Type::JoinGame);
    assert!(m.payload.is_null());

    let no_payload = object(vec![("type", text("joingame"))]);
    assert_eq!(
        ClientMessage::from_value(&no_payload).err(),
        Some(ParseError::Envelope)
    );
    let no_type = object(vec![("payload", Value::Null)]);
    assert_eq!(
        ClientMessage::from_value(&no_type).err(),
        Some(ParseError::Envelope)
    );
    let number_type = object(vec![("type", Value::from(3)), ("payload", Value::Null)]);
    assert_eq!(
        ClientMessage::from_value(&number_type).err(),
        Some(ParseError::Envelope)
    );
    let unknown = object(vec![("type", text("resign")), ("payload", Value::Null)]);
    assert_eq!(
        ClientMessage::from_value(&unknown).err(),
        Some(ParseError::UnknownType)
    );
    assert_eq!(
        ClientMessage::from_value(&Value::Array(vec![])).err(),
        Some(ParseError::Envelope)
    );
    assert_eq!(
        ClientMessage::from_value(&text("joingame")).err(),
        Some(ParseError::Envelope)
    );
}

#[test]
fn text_member_reads_strings_only() {
    let doc = object(vec![
        ("a", text("x")),
        ("b", Value::Null),
        ("c", Value::Bool(true)),
        ("d", object(vec![])),
    ]);
    assert_eq!(text_member(&doc, "a"), Some("x"));
    assert_eq!(text_member(&doc, "b"), None);
    assert_eq!(text_member(&doc, "c"), None);
    assert_eq!(text_member(&doc, "d"), None);
    assert_eq!(text_member(&doc, "e"), None);
    assert_eq!(text_member(&text("a"), "a"), None);
}

#[test]
fn parse_create_game() {
    let r = parse_text(
        "{\"type\":\"creategame\",\"payload\":{\"name\":\"Casual\",\"color\":\"w\"}}",
        "alice",
    );
    match r {
        Ok(Some(Request::CreateGame(m))) => {
            assert_eq!(m.name, "Casual");
            assert_eq!(m.color, Color::White);
            assert_eq!(m.player_id, "alice");
            assert_eq!(m.id, "");
        }
        other => panic!("{:?}", other),
    }
    let r = parse_text(
        " { \"payload\" : { \"color\" : \"b\", \"name\" : \"\" , \"extra\": [1, 2]}, \"type\" : \"creategame\" } ",
        "bob",
    );
    match r {
        Ok(Some(Request::CreateGame(m))) => {
            assert_eq!(m.name, "");
            assert_eq!(m.color, Color::Black);
            assert_eq!(m.player_id, "bob");
        }
        other => panic!("{:?}", other),
    }
}

#[test]
fn parse_never_trusts_ids_from_the_client() {
    let r = parse_text(
        "{\"type\":\"creategame\",\"payload\":{\"name\":\"n\",\"color\":\"w\",\"player_id\":\"mallory\",\"id\":\"forged\"}}",
        "alice",
    );
    match r {
        Ok(Some(Request::CreateGame(m))) => {
            assert_eq!(m.player_id, "alice");
            assert_eq!(m.id, "");
        }
        other => panic!("{:?}", other),
    }
    let r = parse_text(
        "{\"type\":\"joingame\",\"payload\":{\"game_id\":\"room\",\"player_id\":\"mallory\"}}",
        "bob",
    );
    match r {
        Ok(Some(Request::JoinGame(m))) => {
            assert_eq!(m.game_id, "room");
            assert_eq!(m.player_id, "bob");
        }
        other => panic!("{:?}", other),
    }
}

#[test]
fn parse_make_move() {
    let r = parse_text(
        "{\"type\":\"makemove\",\"payload\":{\"from\":\"e2\",\"to\":\"e4\"}}",
        "alice",
    );
    match r {
        Ok(Some(Request::MakeMove(m))) => {
            assert_eq!(m.from, "e2");
            assert_eq!(m.to, "e4");
            assert_eq!(m.promotion_piece, None);
            assert_eq!(m.player_id, "alice");
            assert_eq!(m.game_id, "");
        }
        other => panic!("{:?}", other),
    }
    let r = parse_text(
        "{\"type\":\"makemove\",\"payload\":{\"from\":\"e7\",\"to\":\"e8\",\"promotion_piece\":\"q\"}}",
        "alice",
    );
    match r {
        Ok(Some(Request::MakeMove(m))) => assert_eq!(m.promotion_piece, Some("q".to_string())),
        other => panic!("{:?}", other),
    }
    let r = parse_text(
        "{\"type\":\"makemove\",\"payload\":{\"from\":\"e7\",\"to\":\"e8\",\"promotion_piece\":null}}",
        "alice",
    );
    match r {
        Ok(Some(Request::MakeMove(m))) => assert_eq!(m.promotion_piece, None),
        other => panic!("{:?}", other),
    }
    let r = parse_text(
        "{\"type\":\"makemove\",\"payload\":{\"from\":\"e7\",\"to\":\"e8\",\"promotion_piece\":5}}",
        "alice",
    );
    assert_eq!(r.err(), Some(ParseError::Payload));
    let r = parse_text(
        "{\"type\":\"makemove\",\"payload\":{\"from\":\"e7\"}}",
        "alice",
    );
    assert_eq!(r.err(), Some(ParseError::Payload));
}

#[test]
fn parse_update_name_and_state() {
    let r = parse_text(
        "{\"type\":\"updatename\",\"payload\":{\"name\":\"Alice\"}}",
        "alice",
    );
    match r {
        Ok(Some(Request::UpdateName(m))) => {
            assert_eq!(m.name, "Alice");
            assert_eq!(m.player_id, "alice");
        }
        other => panic!("{:?}", other),
    }
    let r = parse_text(
        "{\"type\":\"updategamestate\",\"payload\":{\"new_status\":\"LostByResign\"}}",
        "alice",
    );
    match r {
        Ok(Some(Request::UpdateGameState(m))) => {
            assert_eq!(m.new_status, PlayerStatus::LostByResign);
            assert_eq!(m.player_id, "alice");
        }
        other => panic!("{:?}", other),
    }
    let r = parse_text(
        "{\"type\":\"updategamestate\",\"payload\":{\"new_status\":\"Resigned\"}}",
        "alice",
    );
    assert_eq!(r.err(), Some(ParseError::Payload));
}

#[test]
fn parse_errors() {
    assert_eq!(parse_text("", "a").err(), Some(ParseError::Syntax));
    assert_eq!(parse_text("{", "a").err(), Some(ParseError::Syntax));
    assert_eq!(
        parse_text("CreateGame {}", "a").err(),
        Some(ParseError::Syntax)
    );
    assert_eq!(parse_text("[]", "a").err(), Some(ParseError::Envelope));
    assert_eq!(parse_text("{}", "a").err(), Some(ParseError::Envelope));
    assert_eq!(
        parse_text("{\"type\":\"creategame\"}", "a").err(),
        Some(ParseError::Envelope)
    );
    assert_eq!(
        parse_text("{\"type\":\"createGame\",\"payload\":{}}", "a").err(),
        Some(ParseError::UnknownType)
    );
    assert_eq!(
        parse_text("{\"type\":\"creategame\",\"payload\":{}}", "a").err(),
        Some(ParseError::Payload)
    );
    assert_eq!(
        parse_text(
            "{\"type\":\"creategame\",\"payload\":{\"name\":\"n\",\"color\":\"x\"}}",
            "a"
        )
        .err(),
        Some(ParseError::Payload)
    );
    assert_eq!(
        parse_text("{\"type\":\"joingame\",\"payload\":{\"game_id\":7}}", "a").err(),
        Some(ParseError::Payload)
    );
    assert_eq!(
        parse_text("{\"type\":\"updatename\",\"payload\":null}", "a").err(),
        Some(ParseError::Payload)
    );
}

#[test]
fn parse_ignores_kinds_that_clients_do_not_send() {
    for tag in ["error", "connect", "disconnect", "opponentjoined"] {
        let text = format!("{{\"type\":\"{}\",\"payload\":null}}", tag);
        assert!(matches!(parse_text(&text, "a"), Ok(None)));
    }
}

#[test]
fn request_from_value_reads_a_document() {
    let doc = object(vec![
        ("type", text("joingame")),
        ("payload", object(vec![("game_id", text("room"))])),
    ]);
    match request_from_value(&doc, "bob") {
        Ok(Some(Request::JoinGame(m))) => {
            assert_eq!(m.game_id, "room");
            assert_eq!(m.player_id, "bob");
        }
        other => panic!("{:?}", other),
    }
    assert_eq!(
        request_from_value(&Value::Null, "bob").err(),
        Some(ParseError::Envelope)
    );
}

#[test]
fn payload_decoders() {
    let payload = object(vec![("name", text("Casual")), ("color", text("b"))]);
    let m = CreateGame::from_payload(&payload, "alice").unwrap();
    assert_eq!(m.color, Color::Black);
    assert!(JoinGame::from_payload(&payload, "alice").is_none());
    assert_eq!(
        UpdateName::from_payload(&payload, "alice").unwrap().name,
        "Casual"
    );
    assert!(MakeMove::from_payload(&payload, "alice").is_none());
    assert!(UpdateGameState::from_payload(&payload, "alice").is_none());
}

#[test]
fn parse_error_descriptions_differ() {
    let all = [
        ParseError::Syntax,
        ParseError::Envelope,
        ParseError::UnknownType,
        ParseError::Payload,
    ];
    for (i, a) in all.iter().enumerate() {
        assert!(!a.describe().is_empty());
        for b in all.iter().skip(i + 1) {
            assert_ne!(a.describe(), b.describe());
        }
    }
}

#[test]
fn session_ids_are_ten_url_safe_characters() {
    let a = SessionActor::new();
    let b = SessionActor::new();
    assert_eq!(a.id.chars().count(), 10);
    assert!(a
        .id
        .chars()
        .all(|c| c.is_ascii_alphanumeric() || c == '_' || c == '-'));
    assert_ne!(a.id, b.id);
}

#[test]
fn session_announces_itself() {
    let s = SessionActor {
        id: "alice".to_string(),
    };
    let c = s.started();
    assert_eq!(c.m_type, Type::Connect);
    assert_eq!(c.id, "alice");
    let d = s.stopping();
    assert_eq!(d.m_type, Type::Disconnect);
    assert_eq!(d.id, "alice");
}

#[test]
fn session_handles_frames() {
    let s = SessionActor {
        id: "alice".to_string(),
    };
    match s.handle(Frame::Text(
        "{\"type\":\"joingame\",\"payload\":{\"game_id\":\"room\"}}".to_string(),
    )) {
        SessionAction::Forward(Request::JoinGame(m)) => {
            assert_eq!(m.game_id, "room");
            assert_eq!(m.player_id, "alice");
        }
        other => panic!("{:?}", other),
    }
    match s.handle(Frame::Text("not json".to_string())) {
        SessionAction::Reject(why) => {
            let complaint = serde_json::from_str::<Value>("not json").unwrap_err();
            assert_eq!(
                why,
                format!("Unable to parse sent message: {}", complaint)
            );
            assert_eq!(
                why,
                "Unable to parse sent message: expected ident at line 1 column 2"
            );
        }
        other => panic!("{:?}", other),
    }
    match s.handle(Frame::Text(
        "{\"type\":\"joingame\",\"payload\":{}}".to_string(),
    )) {
        SessionAction::Reject(why) => {
            assert_eq!(
                why,
                "Unable to parse sent message: the payload does not fit the type"
            )
        }
        other => panic!("{:?}", other),
    }
    assert!(matches!(
        s.handle(Frame::Text(
            "{\"type\":\"connect\",\"payload\":{\"id\":\"x\"}}".to_string()
        )),
        SessionAction::Ignore
    ));
    assert!(matches!(s.handle(Frame::Close), SessionAction::Close));
    assert!(matches!(s.handle(Frame::Other), SessionAction::Ignore));
}
