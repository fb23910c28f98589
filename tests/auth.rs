use fritz_logger::auth::{
    create_response, finish_login, first_step, join_response, utf16le_bytes, AuthError, LoginStep,
    Permission, PermissionKind, PermissionLevel, SessionInfo,
};
use fritz_logger::xml::XmlError;

fn reply(sid: &str, rights: &str) -> String {
    format!(
        "<?xml version=\"1.0\" encoding=\"utf-8\"?><SessionInfo><SID>{}</SID><Challenge>1234567z</Challenge><BlockTime>0</BlockTime><Rights>{}</Rights></SessionInfo>",
        sid, rights
    )
}

#[test]
fn response_matches_documented_reference() {
    assert_eq!(
        create_response("1234567z", "äbc"),
        "1234567z-9e224a41eeefa284df7bb0f26c2913e2"
    );
}

#[test]
fn response_for_test_password() {
    assert_eq!(
        create_response("1234567z", "testpwd"),
        "1234567z-650b72c6ff7576d7721daa519760126d"
    );
}

#[test]
fn response_is_deterministic() {
    assert_eq!(create_response("abc", "𝄞"), create_response("abc", "𝄞"));
    assert_eq!(create_response("abc", "𝄞"), "abc-65d6a78baf51c2320da9824a1e325ac0");
}

#[test]
fn utf16le_encodes_surrogate_pairs() {
    assert_eq!(utf16le_bytes("a𝄞"), vec![97u8, 0, 52, 216, 30, 221]);
    assert_eq!(utf16le_bytes(""), Vec::<u8>::new());
}

#[test]
fn join_response_puts_a_dash_between() {
    assert_eq!(join_response("ab", "cd"), "ab-cd");
}

#[test]
fn session_reply_reads() {
    let info = SessionInfo::parse(&reply("0000000000000000", "")).ok().unwrap();
    assert_eq!(info.sid, "0000000000000000");
    assert_eq!(info.challenge, "1234567z");
    assert_eq!(info.block_time, 0);
    assert!(info.permissions.is_empty());
}

#[test]
fn session_rights_pair_kind_and_level() {
    let rights = "<Name>NAS</Name><Access>2</Access><Name>HomeAuto</Name><Access>1</Access><Name>Bogus</Name><Access>2</Access><Name>App</Name><Access>7</Access>";
    let info = SessionInfo::parse(&reply("abcdef0123456789", rights)).ok().unwrap();
    assert_eq!(
        info.permissions,
        vec![
            Permission { kind: PermissionKind::Nas, level: PermissionLevel::ReadWrite },
            Permission { kind: PermissionKind::HomeAuto, level: PermissionLevel::Read },
        ]
    );
}

#[test]
fn session_reply_without_sid_fails() {
    let body = "<SessionInfo><Challenge>x</Challenge><BlockTime>0</BlockTime><Rights/></SessionInfo>";
    assert!(matches!(
        SessionInfo::parse(body),
        Err(AuthError::Reply(XmlError::MissingChild(ref n))) if n == "SID"
    ));
}

#[test]
fn session_reply_with_bad_block_time_fails() {
    let body = "<SessionInfo><SID>0</SID><Challenge>x</Challenge><BlockTime>soon</BlockTime><Rights/></SessionInfo>";
    assert!(matches!(SessionInfo::parse(body), Err(AuthError::BlockTime)));
}

#[test]
fn session_reply_that_is_no_xml_fails() {
    assert!(matches!(
        SessionInfo::parse("<SessionInfo>"),
        Err(AuthError::Reply(XmlError::Syntax))
    ));
}

#[test]
fn existing_session_needs_no_second_request() {
    let info = SessionInfo::parse(&reply("abcdef0123456789", "")).ok().unwrap();
    match first_step(&info, "user", "pw") {
        LoginStep::Done(sid) => assert_eq!(sid, "abcdef0123456789"),
        LoginStep::Respond { .. } => panic!("a second request was asked for"),
    }
}

#[test]
fn missing_session_answers_the_challenge() {
    let info = SessionInfo::parse(&reply("0000000000000000", "")).ok().unwrap();
    match first_step(&info, "user", "testpwd") {
        LoginStep::Respond { username, response } => {
            assert_eq!(username, "user");
            assert_eq!(response, "1234567z-650b72c6ff7576d7721daa519760126d");
        }
        LoginStep::Done(_) => panic!("no response was sent"),
    }
}

#[test]
fn sentinel_after_response_is_invalid_credentials() {
    let info = SessionInfo::parse(&reply("0000000000000000", "<Name>HomeAuto</Name><Access>2</Access>")).ok().unwrap();
    assert!(matches!(finish_login(&info), Err(AuthError::InvalidCredentials)));
}

#[test]
fn session_without_home_auto_is_insufficient() {
    let info = SessionInfo::parse(&reply("abcdef0123456789", "<Name>NAS</Name><Access>2</Access>")).ok().unwrap();
    assert!(matches!(finish_login(&info), Err(AuthError::InsufficientPermission)));
}

#[test]
fn session_with_home_auto_is_returned() {
    let info = SessionInfo::parse(&reply("abcdef0123456789", "<Name>HomeAuto</Name><Access>1</Access>")).ok().unwrap();
    assert_eq!(finish_login(&info).ok().unwrap(), "abcdef0123456789");
    assert!(info.allows_home_auto());
}

#[test]
fn permission_texts_parse() {
    assert_eq!(PermissionKind::parse(&Some("Phone".to_string())), Some(PermissionKind::Phone));
    assert_eq!(PermissionKind::parse(&Some("phone".to_string())), None);
    assert_eq!(PermissionKind::parse(&None), None);
    assert_eq!(PermissionLevel::parse(&Some("2".to_string())), Some(PermissionLevel::ReadWrite));
    assert_eq!(PermissionLevel::parse(&Some("3".to_string())), None);
}
