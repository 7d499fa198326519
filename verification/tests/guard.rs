use serverbee_deploy::guard::{check_request, establish_token, AuthError, CommunicationToken, Endpoint};
use serverbee_deploy::handler::{
    clear_token, kill_process, pid_or_answer, requested_pid, rest_token, view_token, HttpResult,
    KillOutcome, KilledInfo, TokenInfo,
};
use serverbee_deploy::store::{SettingKey, StoreOp, StoredSettings};

fn store_with_token(token: &str) -> StoredSettings {
    let mut store = StoredSettings::empty();
    store.apply(rest_token(&TokenInfo { token: token.to_string() }));
    store
}

#[test]
fn token_key_is_token() {
    assert_eq!(CommunicationToken::token_key(), "token");
}

#[test]
fn matching_token_is_accepted() {
    let store = store_with_token("abc");
    let accepted = CommunicationToken::authorize(&store.token, Some("abc"));
    assert_eq!(accepted.unwrap().into_bytes(), b"abc".to_vec());
}

#[test]
fn other_token_is_rejected() {
    let store = store_with_token("abc");
    assert_eq!(
        CommunicationToken::authorize(&store.token, Some("xyz")).unwrap_err(),
        AuthError::Mismatch
    );
    assert_eq!(
        CommunicationToken::authorize(&store.token, Some("ab")).unwrap_err(),
        AuthError::Mismatch
    );
    assert_eq!(
        CommunicationToken::authorize(&store.token, Some("abcd")).unwrap_err(),
        AuthError::Mismatch
    );
    assert_eq!(
        CommunicationToken::authorize(&store.token, Some("")).unwrap_err(),
        AuthError::Mismatch
    );
}

#[test]
fn absent_token_is_rejected() {
    let store = store_with_token("abc");
    assert_eq!(
        CommunicationToken::authorize(&store.token, None).unwrap_err(),
        AuthError::Missing
    );
}

#[test]
fn nothing_passes_while_no_token_is_stored() {
    let store = StoredSettings::empty();
    assert_eq!(
        CommunicationToken::authorize(&store.token, Some("abc")).unwrap_err(),
        AuthError::NotConfigured
    );
    assert_eq!(
        CommunicationToken::authorize(&store.token, Some("")).unwrap_err(),
        AuthError::NotConfigured
    );
    assert_eq!(
        CommunicationToken::authorize(&store.token, None).unwrap_err(),
        AuthError::NotConfigured
    );
}

#[test]
fn rotation_moves_acceptance_to_the_new_token() {
    let mut store = store_with_token("abc");
    assert!(CommunicationToken::authorize(&store.token, Some("abc")).is_ok());
    let write = rest_token(&TokenInfo { token: "xyz".to_string() });
    assert_eq!(write, StoreOp::Put { key: SettingKey::Token, value: b"xyz".to_vec() });
    store.apply(write);
    assert!(CommunicationToken::authorize(&store.token, Some("xyz")).is_ok());
    assert_eq!(
        CommunicationToken::authorize(&store.token, Some("abc")).unwrap_err(),
        AuthError::Mismatch
    );
}

#[test]
fn clearing_the_token_closes_the_guard() {
    let mut store = store_with_token("abc");
    let write = clear_token();
    assert_eq!(write, StoreOp::Remove { key: SettingKey::Token });
    store.apply(write);
    assert_eq!(store.token, None);
    assert_eq!(
        CommunicationToken::authorize(&store.token, Some("abc")).unwrap_err(),
        AuthError::NotConfigured
    );
}

#[test]
fn first_token_is_established_only_once() {
    let mut store = StoredSettings::empty();
    let write = establish_token(&store.token, "first");
    assert_eq!(write, Some(StoreOp::Put { key: SettingKey::Token, value: b"first".to_vec() }));
    store.apply(write.unwrap());
    assert!(CommunicationToken::authorize(&store.token, Some("first")).is_ok());
    assert_eq!(establish_token(&store.token, "second"), None);
}

#[test]
fn token_view_shows_the_stored_bytes() {
    assert_eq!(view_token(&Some(b"abc".to_vec())), b"abc".to_vec());
    assert_eq!(view_token(&None), Vec::<u8>::new());
}

#[test]
fn non_ascii_tokens_are_compared_by_their_bytes() {
    let store = store_with_token("密码");
    assert!(CommunicationToken::authorize(&store.token, Some("密码")).is_ok());
    assert_eq!(
        CommunicationToken::authorize(&store.token, Some("密")).unwrap_err(),
        AuthError::Mismatch
    );
}

#[test]
fn answers_are_built_from_their_parts() {
    assert_eq!(HttpResult::new(true), HttpResult { success: true, message: None });
    assert_eq!(HttpResult::new(false), HttpResult { success: false, message: None });
    assert_eq!(
        HttpResult::new_msg(false, "gone".to_string()),
        HttpResult { success: false, message: Some("gone".to_string()) }
    );
    assert_eq!(HttpResult::default(), HttpResult { success: false, message: None });
}

#[test]
fn kill_answers() {
    assert_eq!(kill_process(KillOutcome::Signalled(true)), HttpResult::new(true));
    assert_eq!(kill_process(KillOutcome::Signalled(false)), HttpResult::new(false));
    assert_eq!(kill_process(KillOutcome::Vanished), HttpResult::new(false));
    assert_eq!(
        kill_process(KillOutcome::NotFound),
        HttpResult::new_msg(false, "进程不存在".to_string())
    );
    assert_eq!(
        kill_process(KillOutcome::Malformed),
        HttpResult::new_msg(false, "invalid pid".to_string())
    );
}

#[test]
fn write_answers_never_hide_a_failure() {
    assert_eq!(HttpResult::for_write(true), HttpResult::new(true));
    assert_eq!(
        HttpResult::for_write(false),
        HttpResult::new_msg(false, "store write failed".to_string())
    );
}

#[test]
fn process_id_is_read_from_the_request() {
    assert_eq!(requested_pid(&KilledInfo { pid: "1234".to_string() }), Ok(1234));
    assert_eq!(requested_pid(&KilledInfo { pid: "0".to_string() }), Ok(0));
    assert_eq!(
        requested_pid(&KilledInfo { pid: "not a pid".to_string() }),
        Err(kill_process(KillOutcome::Malformed))
    );
    assert_eq!(
        requested_pid(&KilledInfo { pid: "".to_string() }),
        Err(kill_process(KillOutcome::Malformed))
    );
}

#[test]
fn missing_process_id_gets_the_malformed_answer() {
    assert_eq!(pid_or_answer(Some(42)), Ok(42));
    assert_eq!(
        pid_or_answer(None),
        Err(HttpResult::new_msg(false, "invalid pid".to_string()))
    );
}

#[test]
fn only_mutating_endpoints_are_gated() {
    assert!(Endpoint::Kill.is_protected());
    assert!(Endpoint::TokenRest.is_protected());
    assert!(!Endpoint::Index.is_protected());
    assert!(!Endpoint::Version.is_protected());
    assert!(!Endpoint::TokenView.is_protected());
    assert!(!Endpoint::TokenClear.is_protected());
}

#[test]
fn endpoints_have_their_paths() {
    assert_eq!(Endpoint::Index.path(), "/");
    assert_eq!(Endpoint::Version.path(), "/version");
    assert_eq!(Endpoint::Kill.path(), "/kill");
    assert_eq!(Endpoint::TokenRest.path(), "/token/rest");
    assert_eq!(Endpoint::TokenView.path(), "/token/view");
    assert_eq!(Endpoint::TokenClear.path(), "/token/clear");
}

#[test]
fn admission_follows_the_guard_on_gated_endpoints() {
    let stored = Some(b"abc".to_vec());
    assert_eq!(check_request(Endpoint::Kill, &stored, Some("abc")), Ok(()));
    assert_eq!(check_request(Endpoint::Kill, &stored, Some("xyz")), Err(AuthError::Mismatch));
    assert_eq!(check_request(Endpoint::TokenRest, &stored, None), Err(AuthError::Missing));
    assert_eq!(check_request(Endpoint::TokenRest, &None, Some("abc")), Err(AuthError::NotConfigured));
    assert_eq!(check_request(Endpoint::Index, &None, None), Ok(()));
    assert_eq!(check_request(Endpoint::Version, &stored, Some("xyz")), Ok(()));
    assert_eq!(check_request(Endpoint::TokenView, &stored, None), Ok(()));
    assert_eq!(check_request(Endpoint::TokenClear, &None, None), Ok(()));
}

#[test]
fn digits_name_the_process_of_their_number() {
    assert_eq!(requested_pid(&KilledInfo { pid: "7".to_string() }), Ok(7));
    assert_eq!(requested_pid(&KilledInfo { pid: "000000123".to_string() }), Ok(123));
    assert_eq!(requested_pid(&KilledInfo { pid: "999999999".to_string() }), Ok(999999999));
    assert_eq!(requested_pid(&KilledInfo { pid: "65535".to_string() }), Ok(65535));
}

#[test]
fn texts_with_other_characters_name_no_process() {
    let malformed = kill_process(KillOutcome::Malformed);
    for text in ["", " ", "12a", "a12", " 12", "12 ", "1_000", "0x10", "1.5", "12\n", "١٢"] {
        let answer = requested_pid(&KilledInfo { pid: text.to_string() });
        assert_eq!(answer, Err(HttpResult::new_msg(false, "invalid pid".to_string())));
        assert_eq!(answer, Err(HttpResult { success: false, message: malformed.message.clone() }));
    }
}
