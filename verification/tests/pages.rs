use aoba_client::components::basic::{button_class, input_texts, notif_class, notif_type_or_default, ButtonVariant, NotifType};
use aoba_client::components::pagination::{first_page, last_page, next_page, page_label, prev_page};
use aoba_client::components::passkey::{options_from_reply, token_from_login, PasskeyReply};
use aoba_client::components::upload_area::{find_file_for_target, upload_not_started, uploaded_ids_to_confirm};
use aoba_client::contexts::auth_context::AuthContext;
use aoba_client::rpc::aoba::{DstResult, Id, Jwt, LoginError, LoginResult};
use aoba_client::rpc::{login, logout, AuthInterceptor};
use aoba_client::views::login::{credentials_error, login_outcome, LoginOutcome};
use aoba_client::views::settings::{share_x_loading, share_x_text};

#[test]
fn pagination_controls() {
    assert_eq!(prev_page(1), 1);
    assert_eq!(prev_page(5), 4);
    assert_eq!(prev_page(-3), 1);
    assert_eq!(next_page(4, 5), 5);
    assert_eq!(next_page(5, 5), 5);
    assert_eq!(next_page(9, 5), 5);
    assert_eq!(first_page(), 1);
    assert_eq!(last_page(7), 7);
    assert_eq!(page_label(2, 7, 650), "Page 2 of 7 (650 Media Items)");
}

#[test]
fn pages_stay_in_range() {
    for max in 1..6 {
        for cur in 1..=max {
            for p in [prev_page(cur), next_page(cur, max)] {
                assert!(1 <= p && p <= max);
            }
        }
    }
}

#[test]
fn session_token_and_header() {
    let mut session = None;
    let interceptor = AuthInterceptor;
    assert_eq!(interceptor.authorization(&session), None);
    login(&mut session, "abc".to_string());
    assert_eq!(interceptor.authorization(&session), Some("Bearer abc".to_string()));
    logout(&mut session);
    assert_eq!(interceptor.authorization(&session), None);
}

#[test]
fn auth_context_login_logout() {
    let mut session = None;
    let mut ctx = AuthContext::default();
    ctx.login(&mut session, "t1".to_string(), false);
    assert_eq!(ctx.jwt, Some("t1".to_string()));
    assert_eq!(session, None);
    ctx.login(&mut session, "t2".to_string(), true);
    assert_eq!(session, Some("t2".to_string()));
    ctx.logout(&mut session);
    assert_eq!(ctx.jwt, None);
    assert_eq!(session, None);
}

#[test]
fn auth_context_from_stored_token() {
    let mut session = None;
    let ctx = AuthContext::new_from_session(&mut session, Some("kept".to_string()));
    assert_eq!(ctx.jwt, Some("kept".to_string()));
    assert_eq!(session, Some("kept".to_string()));
    let mut other = Some("old".to_string());
    let empty = AuthContext::new_from_session(&mut other, None);
    assert_eq!(empty.jwt, None);
    assert_eq!(other, Some("old".to_string()));
}

#[test]
fn login_form() {
    assert_eq!(credentials_error(&"".to_string(), &"pw".to_string()), Some("Username and Password are required".to_string()));
    assert_eq!(credentials_error(&"me".to_string(), &"".to_string()), Some("Username and Password are required".to_string()));
    assert_eq!(credentials_error(&"me".to_string(), &"pw".to_string()), None);
    assert!(matches!(
        login_outcome(Ok(Some(LoginResult::Jwt(Jwt { token: "tok".into() })))),
        LoginOutcome::SignIn(t) if t == "tok"
    ));
    assert!(matches!(
        login_outcome(Ok(Some(LoginResult::Error(LoginError { message: "bad".into() })))),
        LoginOutcome::SignOut(Some(m)) if m == "bad"
    ));
    assert!(matches!(login_outcome(Err("unavailable".into())), LoginOutcome::SignOut(None)));
}

#[test]
fn passkey_replies() {
    assert_eq!(options_from_reply(Some(PasskeyReply::Options(5)), "missing"), Ok(5));
    assert_eq!(options_from_reply::<i32>(Some(PasskeyReply::Error("nope".into())), "missing"), Err("nope".to_string()));
    assert_eq!(options_from_reply::<i32>(None, "Failed to get assertion options"), Err("Failed to get assertion options".to_string()));
    assert_eq!(token_from_login(Some(LoginResult::Jwt(Jwt { token: "j".into() }))), Ok("j".to_string()));
    assert_eq!(token_from_login(Some(LoginResult::Error(LoginError { message: "m".into() }))), Err("m".to_string()));
    assert_eq!(token_from_login(None), Err("Failed to complete login".to_string()));
}

#[test]
fn settings_text() {
    assert_eq!(share_x_text(Ok(Some(DstResult::Destination("{}".into())))), "{}");
    assert_eq!(share_x_text(Ok(Some(DstResult::Error("denied".into())))), "denied");
    assert_eq!(share_x_text(Ok(None)), "No Result");
    assert_eq!(share_x_text(Err("down".into())), "Failed to load config: down");
    assert_eq!(share_x_loading(), "Loading...");
}

#[test]
fn upload_pairing_and_outcome() {
    let names = vec!["a.png".to_string(), "b.png".to_string(), "a.png".to_string()];
    assert_eq!(find_file_for_target(&names, &"a.png".to_string()), Some(0));
    assert_eq!(find_file_for_target(&names, &"b.png".to_string()), Some(1));
    assert_eq!(find_file_for_target(&names, &"c.png".to_string()), None);
    assert_eq!(uploaded_ids_to_confirm(vec![]).err(), Some(vec!["No files uploaded".to_string()]));
    let list = uploaded_ids_to_confirm(vec![Id { value: "9".into() }]).ok().unwrap();
    assert_eq!(list.value.len(), 1);
    assert_eq!(upload_not_started(), vec!["No upload".to_string()]);
}

#[test]
fn control_looks() {
    assert_eq!(button_class(None), "");
    assert_eq!(button_class(Some(ButtonVariant::Cancel)), "cancel");
    assert_eq!(button_class(Some(ButtonVariant::Muted)), "muted");
    assert_eq!(ButtonVariant::default(), ButtonVariant::Base);
    assert_eq!(notif_type_or_default(None), NotifType::Notice);
    assert_eq!(notif_class(NotifType::Warning), "warning");
    let (label, ph, ty) = input_texts(Some("Username".into()), None, None);
    assert_eq!((label.as_str(), ph.as_str(), ty.as_str()), ("Username", "Username", "text"));
    let (label, ph, ty) = input_texts(None, Some("Search".into()), Some("password".into()));
    assert_eq!((label.as_str(), ph.as_str(), ty.as_str()), ("", "Search", "password"));
}
