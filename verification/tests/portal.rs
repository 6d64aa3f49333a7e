use std::path::PathBuf;

use kwaymag::portal::{
    token_dir, token_path, CursorMode, PersistMode, PortalAction, PortalError, PortalEvent,
    PortalState, SourceRequest, SourceType,
};

fn text(path: Vec<u8>) -> String {
    String::from_utf8(path).unwrap()
}

fn request(restore_token: Option<String>) -> PortalAction {
    PortalAction::SelectSources(SourceRequest {
        cursor: CursorMode::Hidden,
        sources: vec![SourceType::Monitor, SourceType::Window],
        multiple: true,
        restore_token,
        persist: PersistMode::ExplicitlyRevoked,
    })
}

#[test]
fn the_token_is_kept_under_home() {
    assert_eq!(
        text(token_path(None, Some(b"/home/me"))),
        "/home/me/.local/share/kwaymag/restore_token"
    );
    assert_eq!(text(token_dir(None, Some(b"/home/me"))), "/home/me/.local/share/kwaymag");
}

#[test]
fn xdg_data_home_comes_first() {
    assert_eq!(
        text(token_path(Some(b"/data"), Some(b"/home/me"))),
        "/data/kwaymag/restore_token"
    );
    assert_eq!(text(token_path(Some(b"/data"), None)), "/data/kwaymag/restore_token");
}

#[test]
fn paths_are_joined_as_std_does() {
    for base in ["/data", "/data/", "/", "", "rel", "a//b//"] {
        let expected = PathBuf::from(base).join("kwaymag").join("restore_token");
        assert_eq!(
            text(token_path(Some(base.as_bytes()), None)),
            expected.to_str().unwrap()
        );
        assert_eq!(
            text(token_dir(Some(base.as_bytes()), None)),
            expected.parent().unwrap().to_str().unwrap()
        );
        let mut expected = PathBuf::from(base);
        expected.push(".local/share");
        let expected = expected.join("kwaymag").join("restore_token");
        assert_eq!(
            text(token_path(None, Some(base.as_bytes()))),
            expected.to_str().unwrap()
        );
    }
    assert_eq!(text(token_path(None, None)), ".local/share/kwaymag/restore_token");
}

#[test]
fn paths_need_not_be_text() {
    assert_eq!(token_dir(Some(&[0xff]), None), b"\xff/kwaymag".to_vec());
}

#[test]
fn a_handshake_with_a_token() {
    let (state, action) = PortalState::start();
    assert_eq!(action, PortalAction::Connect);
    let (state, action) = state.step(PortalEvent::Done);
    assert_eq!(action, PortalAction::CreateSession);
    let (state, action) = state.step(PortalEvent::Done);
    assert_eq!(action, PortalAction::ReadToken);
    let (state, action) = state.step(PortalEvent::Token(Some("old".to_string())));
    assert_eq!(action, request(Some("old".to_string())));
    let (state, action) = state.step(PortalEvent::Done);
    assert_eq!(action, PortalAction::Start);
    let response = PortalEvent::Response {
        restore_token: Some("new".to_string()),
        streams: vec![42, 43],
    };
    let (state, action) = state.step(response);
    assert_eq!(action, PortalAction::SaveToken("new".to_string()));
    let (state, action) = state.step(PortalEvent::Done);
    assert_eq!(action, PortalAction::OpenRemote);
    let (state, action) = state.step(PortalEvent::Done);
    assert_eq!(action, PortalAction::Finish { node_id: 42 });
    assert_eq!(state, PortalState::Finished { node_id: 42 });
    let (state, action) = state.step(PortalEvent::Failed);
    assert_eq!(action, PortalAction::Finish { node_id: 42 });
    assert_eq!(state, PortalState::Finished { node_id: 42 });
}

#[test]
fn a_token_need_not_be_read() {
    let (_, action) = PortalState::ReadingToken.step(PortalEvent::Token(None));
    assert_eq!(action, request(None));
    let (state, action) = PortalState::ReadingToken.step(PortalEvent::Failed);
    assert_eq!(action, request(None));
    assert_eq!(state, PortalState::SelectingSources);
}

#[test]
fn without_a_new_token_nothing_is_saved() {
    let response = PortalEvent::Response { restore_token: None, streams: vec![7] };
    let (state, action) = PortalState::Starting.step(response);
    assert_eq!(action, PortalAction::OpenRemote);
    assert_eq!(state, PortalState::OpeningRemote { node_id: 7 });
    let response = PortalEvent::Response { restore_token: None, streams: vec![] };
    let (_, action) = PortalState::Starting.step(response);
    assert_eq!(action, PortalAction::Fail(PortalError::NoStreams));
}

#[test]
fn a_token_need_not_be_saved() {
    let state = PortalState::SavingToken { first: Some(7) };
    let (_, action) = state.step(PortalEvent::Failed);
    assert_eq!(action, PortalAction::OpenRemote);
}

#[test]
fn a_token_is_saved_even_without_streams() {
    let response =
        PortalEvent::Response { restore_token: Some("new".to_string()), streams: vec![] };
    let (state, action) = PortalState::Starting.step(response);
    assert_eq!(action, PortalAction::SaveToken("new".to_string()));
    let (state, action) = state.step(PortalEvent::Done);
    assert_eq!(action, PortalAction::Fail(PortalError::NoStreams));
    assert_eq!(state, PortalState::Failed(PortalError::NoStreams));
}

#[test]
fn a_saved_token_is_asked_with_again() {
    let response = PortalEvent::Response {
        restore_token: Some("mine".to_string()),
        streams: vec![1],
    };
    let saved = match PortalState::Starting.step(response).1 {
        PortalAction::SaveToken(saved) => saved,
        _ => panic!("nothing saved"),
    };
    let (_, action) = PortalState::ReadingToken.step(PortalEvent::Token(Some(saved)));
    assert_eq!(action, request(Some("mine".to_string())));
}

#[test]
fn each_step_fails_in_its_own_way() {
    let cases = [
        (PortalState::Connecting, PortalError::Connect),
        (PortalState::CreatingSession, PortalError::CreateSession),
        (PortalState::SelectingSources, PortalError::SelectSources),
        (PortalState::Starting, PortalError::Start),
        (PortalState::OpeningRemote { node_id: 1 }, PortalError::OpenRemote),
    ];
    for (state, error) in cases {
        let (state, action) = state.step(PortalEvent::Failed);
        assert_eq!(action, PortalAction::Fail(error));
        let (state, action) = state.step(PortalEvent::Done);
        assert_eq!(action, PortalAction::Fail(error));
        assert_eq!(state, PortalState::Failed(error));
    }
    let (_, action) = PortalState::Starting.step(PortalEvent::Denied);
    assert_eq!(action, PortalAction::Fail(PortalError::Denied));
}

#[test]
fn portal_errors_in_words() {
    let cases = [
        (PortalError::Connect, "connect to ScreenCast portal"),
        (PortalError::CreateSession, "create session"),
        (PortalError::SelectSources, "select_sources"),
        (PortalError::Start, "start screencast"),
        (PortalError::Denied, "screencast start denied"),
        (PortalError::NoStreams, "no streams in portal response"),
        (PortalError::OpenRemote, "open_pipe_wire_remote"),
    ];
    for (error, message) in cases {
        assert_eq!(error.message(), message);
    }
}
