use secure_chat_backend::error::AppError;
use secure_chat_backend::handlers::auth::{
    get_current_user, create_invitation, invitation_expiry_hours, invitation_issue,
    invitation_step, login, refresh_token, register, register_step, session_step,
    InvitationSettings, InviteAction, InviteEvent, InviteStep, RefreshTokenRequest,
    RegisterAction, RegisterEvent, RegisterStep, SessionAction, SessionEvent, SessionStep,
};
use secure_chat_backend::handlers::messages::{
    get_messages, history_step, HistoryAction, HistoryEvent, HistoryStep,
};
use secure_chat_backend::handlers::websocket::{ws_handler, ChatSession};
use secure_chat_backend::models::{
    CreateUserRequest, Invitation, LoginRequest, Message, RefreshToken, Timestamp, User,
};
use secure_chat_backend::services::jwt::{Claims, JwtService};
use secure_chat_backend::services::stego::SteganographyService;

const ALICE: u128 = 0x67e5504410b1426f9247bb680e5fe0c8;
const ALICE_TEXT: &str = "67e55044-10b1-426f-9247-bb680e5fe0c8";

fn at(secs: i64) -> Timestamp {
    Timestamp { secs, nanos: 0 }
}

fn user_with_hash(hash: &str) -> User {
    User {
        id: ALICE,
        username: "alice".to_string(),
        email: "alice@example.com".to_string(),
        password_hash: hash.to_string(),
        is_admin: false,
        created_at: at(1_000),
        last_seen: Some(at(2_000)),
    }
}

fn invitation() -> Invitation {
    Invitation {
        token: "invite-token".to_string(),
        created_by: 1,
        expires_at: at(10_000),
        used_by: None,
        used_at: None,
        created_at: at(1_000),
    }
}

fn request(username: &str, password: &str) -> CreateUserRequest {
    CreateUserRequest {
        username: username.to_string(),
        email: "alice@example.com".to_string(),
        password: password.to_string(),
        invitation_token: "invite-token".to_string(),
    }
}

fn validation_text(e: AppError) -> String {
    match e {
        AppError::Validation(m) => m,
        _ => panic!("expected a validation error"),
    }
}

fn register_reply(a: RegisterAction) -> Result<secure_chat_backend::models::UserResponse, AppError> {
    match a {
        RegisterAction::Reply(r) => r,
        _ => panic!("expected a reply"),
    }
}

fn cheap_hash(password: &str) -> String {
    bcrypt::hash_with_salt(password, 4, [7u8; 16]).unwrap().to_string()
}

#[test]
fn registration_runs_to_the_new_account() {
    let (step, action) = register(request("alice", "password123"));
    match action {
        RegisterAction::FindInvitation { token } => assert_eq!(token, "invite-token"),
        _ => panic!("expected the invitation lookup first"),
    }
    let (step, action) = register_step(step, RegisterEvent::InvitationLookedUp(Some(invitation())));
    let hash = match action {
        RegisterAction::InsertUser { username, email, password_hash } => {
            assert_eq!(username, "alice");
            assert_eq!(email, "alice@example.com");
            password_hash
        }
        _ => panic!("expected the account to be stored"),
    };
    let (step, action) = register_step(step, RegisterEvent::UserInserted(user_with_hash(&hash)));
    match action {
        RegisterAction::MarkInvitationUsed { user_id, token } => {
            assert_eq!(user_id, ALICE);
            assert_eq!(token, "invite-token");
        }
        _ => panic!("expected the invitation to be marked"),
    }
    let (step, action) = register_step(step, RegisterEvent::InvitationMarked);
    assert!(matches!(step, RegisterStep::Finished));
    let resp = register_reply(action).ok().unwrap();
    assert_eq!(resp.id, ALICE);
    assert_eq!(resp.username, "alice");
    assert_eq!(resp.email, "alice@example.com");
    assert!(!resp.is_admin);
    assert_eq!(resp.created_at, at(1_000));
    assert_eq!(resp.last_seen, Some(at(2_000)));

    // The stored hash lets the registered password through at login.
    let jwt = JwtService::new("secret".to_string(), 900);
    let (step, _) = login(LoginRequest {
        email: "alice@example.com".to_string(),
        password: "password123".to_string(),
    });
    let (_, action) = session_step(&jwt, step, SessionEvent::AccountFound(Some(user_with_hash(&hash))));
    assert!(matches!(action, SessionAction::TouchLastSeen { user_id } if user_id == ALICE));
}

#[test]
fn registration_needs_an_invitation_before_anything_else() {
    let (step, _) = register(request("a", "short"));
    let (step, action) = register_step(step, RegisterEvent::InvitationLookedUp(None));
    assert!(matches!(step, RegisterStep::Finished));
    assert_eq!(validation_text(register_reply(action).err().unwrap()), "Invalid or expired invitation token");
}

#[test]
fn registration_checks_username_then_password_length() {
    let (step, _) = register(request("al", "short"));
    let (_, action) = register_step(step, RegisterEvent::InvitationLookedUp(Some(invitation())));
    assert_eq!(validation_text(register_reply(action).err().unwrap()), "Username must be at least 3 characters long");
    let (step, _) = register(request("alice", "1234567"));
    let (_, action) = register_step(step, RegisterEvent::InvitationLookedUp(Some(invitation())));
    assert_eq!(validation_text(register_reply(action).err().unwrap()), "Password must be at least 8 characters long");
    // Lengths count bytes: two two-byte letters make four bytes.
    let (step, _) = register(request("éé", "1234567"));
    let (_, action) = register_step(step, RegisterEvent::InvitationLookedUp(Some(invitation())));
    assert_eq!(validation_text(register_reply(action).err().unwrap()), "Password must be at least 8 characters long");
}

#[test]
fn registration_refuses_taken_names_and_passes_database_failures() {
    let step = RegisterStep::AwaitingUser { invitation: invitation() };
    let (_, action) = register_step(step, RegisterEvent::UserRejectedAsDuplicate);
    assert_eq!(validation_text(register_reply(action).err().unwrap()), "Username or email already used");
    let step = RegisterStep::AwaitingInvitationUse { user: user_with_hash("h") };
    let (step, action) = register_step(step, RegisterEvent::DatabaseFailed("connection reset".to_string()));
    assert!(matches!(step, RegisterStep::Finished));
    match register_reply(action) {
        Err(AppError::Database(m)) => assert_eq!(m, "connection reset"),
        _ => panic!("expected the database failure"),
    }
}

fn session_reply(a: SessionAction) -> Result<secure_chat_backend::services::jwt::AuthResponse, AppError> {
    match a {
        SessionAction::Reply(r) => r,
        _ => panic!("expected a reply"),
    }
}

#[test]
fn login_runs_to_a_session() {
    let jwt = JwtService::new("secret".to_string(), 900);
    let (step, action) = login(LoginRequest {
        email: "alice@example.com".to_string(),
        password: "password123".to_string(),
    });
    match action {
        SessionAction::FindUserByEmail { email } => assert_eq!(email, "alice@example.com"),
        _ => panic!("expected the account lookup"),
    }
    let user = user_with_hash(&cheap_hash("password123"));
    let (step, action) = session_step(&jwt, step, SessionEvent::AccountFound(Some(user)));
    match action {
        SessionAction::TouchLastSeen { user_id } => assert_eq!(user_id, ALICE),
        _ => panic!("expected the last-seen update"),
    }
    let (step, action) = session_step(&jwt, step, SessionEvent::LastSeenTouched { now: at(5_000) });
    match action {
        SessionAction::SignAccessToken { claims } => {
            assert_eq!(claims.sub, ALICE_TEXT);
            assert_eq!(claims.iat, 5_000);
            assert_eq!(claims.exp, 5_900);
        }
        _ => panic!("expected the access token to be signed"),
    }
    let (step, action) = session_step(&jwt, step, SessionEvent::AccessTokenSigned {
        token: Ok("signed.access.token".to_string()),
        now: at(5_001),
    });
    let refresh = match action {
        SessionAction::StoreRefreshToken { user_id, token, expires_at } => {
            assert_eq!(user_id, ALICE);
            assert_eq!(token.len(), 64);
            assert_eq!(expires_at, at(5_001 + 7 * 86_400));
            token
        }
        _ => panic!("expected the refresh token to be stored"),
    };
    let (step, action) = session_step(&jwt, step, SessionEvent::RefreshTokenStored);
    assert!(matches!(step, SessionStep::Finished));
    let resp = session_reply(action).ok().unwrap();
    assert_eq!(resp.access_token, "signed.access.token");
    assert_eq!(resp.refresh_token, refresh);
    assert_eq!(resp.expires_in, 900);
    assert_eq!(resp.user.id, ALICE);
}

#[test]
fn login_refuses_unknown_email_and_wrong_password_alike() {
    let jwt = JwtService::new("secret".to_string(), 900);
    let start = || login(LoginRequest {
        email: "alice@example.com".to_string(),
        password: "wrong-password".to_string(),
    });
    let (step, _) = start();
    let (_, action) = session_step(&jwt, step, SessionEvent::AccountFound(None));
    assert_eq!(validation_text(session_reply(action).err().unwrap()), "Invalid credentials");
    let (step, _) = start();
    let user = user_with_hash(&cheap_hash("password123"));
    let (_, action) = session_step(&jwt, step, SessionEvent::AccountFound(Some(user)));
    assert_eq!(validation_text(session_reply(action).err().unwrap()), "Invalid credentials");
}

#[test]
fn login_with_a_malformed_stored_hash_fails_on_the_server() {
    let jwt = JwtService::new("secret".to_string(), 900);
    let (step, _) = login(LoginRequest {
        email: "alice@example.com".to_string(),
        password: "password123".to_string(),
    });
    let (_, action) = session_step(&jwt, step, SessionEvent::AccountFound(Some(user_with_hash("not-a-hash"))));
    assert!(matches!(session_reply(action), Err(AppError::Internal(_))));
}

#[test]
fn refresh_revokes_the_old_token_before_issuing() {
    let jwt = JwtService::new("secret".to_string(), 60);
    let (step, action) = refresh_token(RefreshTokenRequest { refresh_token: "old".to_string() });
    match action {
        SessionAction::FindRefreshToken { token } => assert_eq!(token, "old"),
        _ => panic!("expected the token lookup"),
    }
    let record = RefreshToken {
        id: 42,
        user_id: ALICE,
        token: "old".to_string(),
        expires_at: at(9_999),
        created_at: at(1),
        revoked: false,
    };
    let (step, action) = session_step(&jwt, step, SessionEvent::RefreshRecordFound(Some(record)));
    match action {
        SessionAction::FindUserById { user_id } => assert_eq!(user_id, ALICE),
        _ => panic!("expected the owner lookup"),
    }
    let (step, action) = session_step(&jwt, step, SessionEvent::OwnerFound(user_with_hash("h")));
    match action {
        SessionAction::RevokeRefreshToken { id } => assert_eq!(id, 42),
        _ => panic!("expected the revocation"),
    }
    let (step, action) = session_step(&jwt, step, SessionEvent::Revoked { now: at(100) });
    match action {
        SessionAction::SignAccessToken { claims } => assert_eq!(claims.exp, 160),
        _ => panic!("expected signing"),
    }
    let (_, action) = session_step(&jwt, step, SessionEvent::AccessTokenSigned {
        token: Err("InvalidKeyFormat".to_string()),
        now: at(100),
    });
    match session_reply(action) {
        Err(AppError::Internal(m)) => assert_eq!(m, "Token generation failed: InvalidKeyFormat"),
        _ => panic!("expected the signing failure"),
    }
}

#[test]
fn refresh_refuses_unknown_tokens() {
    let jwt = JwtService::new("secret".to_string(), 60);
    let (step, _) = refresh_token(RefreshTokenRequest { refresh_token: "gone".to_string() });
    let (_, action) = session_step(&jwt, step, SessionEvent::RefreshRecordFound(None));
    assert_eq!(validation_text(session_reply(action).err().unwrap()), "Invalid or expired refresh token");
}

fn claims(sub: &str, is_admin: bool) -> Claims {
    Claims {
        sub: sub.to_string(),
        email: "alice@example.com".to_string(),
        username: "alice".to_string(),
        is_admin,
        exp: 0,
        iat: 0,
    }
}

#[test]
fn only_admins_with_readable_ids_invite() {
    assert_eq!(create_invitation(&claims(ALICE_TEXT, true)).ok(), Some(ALICE));
    assert_eq!(create_invitation(&claims("{67e55044-10b1-426f-9247-bb680e5fe0c8}", true)).ok(), Some(ALICE));
    assert_eq!(validation_text(create_invitation(&claims(ALICE_TEXT, false)).err().unwrap()), "Admin access required");
    match create_invitation(&claims("not-a-uuid", true)) {
        Err(AppError::Internal(m)) => assert_eq!(m, "Invalid user ID in token"),
        _ => panic!("expected an internal error"),
    }
}

#[test]
fn an_admins_own_token_invites_in_their_name() {
    let jwt = JwtService::new("secret".to_string(), 900);
    let mut admin = user_with_hash("h");
    admin.is_admin = true;
    let c = jwt.access_claims(&admin, at(0));
    assert_eq!(create_invitation(&c).ok(), Some(ALICE));
}

#[test]
fn invitation_lifetime_setting() {
    assert_eq!(invitation_expiry_hours(None), 48);
    assert_eq!(invitation_expiry_hours(Some("2")), 2);
    assert_eq!(invitation_expiry_hours(Some("two")), 48);
    assert_eq!(invitation_expiry_hours(Some("-1")), -1);
}

#[test]
fn invitation_links_to_registration() {
    let settings = InvitationSettings { expiry_hours: None, frontend_url: None };
    let (step, action) = invitation_issue(ALICE, &settings, at(1_000));
    let token = match action {
        InviteAction::InsertInvitation { token, created_by, expires_at } => {
            assert_eq!(created_by, ALICE);
            assert_eq!(expires_at, at(1_000 + 48 * 3600));
            assert_eq!(token.len(), 36);
            assert_eq!(&token[14..15], "4");
            assert!(matches!(&token[19..20], "8" | "9" | "a" | "b"));
            assert!(uuid::Uuid::parse_str(&token).is_ok());
            token
        }
        _ => panic!("expected the invitation to be stored"),
    };
    let (step, action) = invitation_step(step, InviteEvent::Inserted);
    assert!(matches!(step, InviteStep::Finished));
    match action {
        InviteAction::Reply(Ok(resp)) => {
            assert_eq!(resp.token, token);
            assert_eq!(resp.invite_url, format!("http://localhost:4200/register?token={token}"));
            assert_eq!(resp.expires_at, at(1_000 + 48 * 3600));
        }
        _ => panic!("expected the invitation"),
    }
}

#[test]
fn invitation_uses_configured_settings_and_reports_failures() {
    let settings = InvitationSettings {
        expiry_hours: Some("2".to_string()),
        frontend_url: Some("https://chat.example".to_string()),
    };
    let (step, action) = invitation_issue(ALICE, &settings, at(0));
    match action {
        InviteAction::InsertInvitation { expires_at, .. } => assert_eq!(expires_at, at(7200)),
        _ => panic!("expected the invitation to be stored"),
    }
    match &step {
        InviteStep::AwaitingInsert { response } => {
            assert!(response.invite_url.starts_with("https://chat.example/register?token="))
        }
        _ => panic!("expected to wait for the insert"),
    }
    let (_, action) = invitation_step(step, InviteEvent::DatabaseFailed("down".to_string()));
    assert!(matches!(action, InviteAction::Reply(Err(AppError::Database(_)))));
}

#[test]
fn two_invitations_differ() {
    let settings = InvitationSettings { expiry_hours: None, frontend_url: None };
    let (a, _) = invitation_issue(ALICE, &settings, at(0));
    let (b, _) = invitation_issue(ALICE, &settings, at(0));
    match (a, b) {
        (InviteStep::AwaitingInsert { response: x }, InviteStep::AwaitingInsert { response: y }) => {
            assert_ne!(x.token, y.token)
        }
        _ => panic!("expected two pending invitations"),
    }
}

#[test]
fn current_user_comes_from_the_claims() {
    let me = get_current_user(&claims(ALICE_TEXT, true));
    assert_eq!(me.id, ALICE_TEXT);
    assert_eq!(me.username, "alice");
    assert_eq!(me.email, "alice@example.com");
    assert!(me.is_admin);
}

fn message(id: u128, author: Option<u128>, content: &str) -> Message {
    Message {
        id,
        user_id: author,
        content: content.to_string(),
        created_at: at(id as i64),
        edited_at: None,
        reply_to: None,
    }
}

#[test]
fn history_lists_messages_oldest_first_with_authors() {
    let (step, action) = get_messages();
    assert!(matches!(action, HistoryAction::FetchRecentMessages { limit: 100 }));
    // Newest first, as fetched.
    let fetched = vec![
        message(3, Some(ALICE), "third"),
        message(2, None, "second"),
        message(1, Some(7), "first"),
    ];
    let (step, action) = history_step(step, HistoryEvent::MessagesFetched(fetched));
    match action {
        HistoryAction::FindUsername { user_id } => assert_eq!(user_id, ALICE),
        _ => panic!("expected an author lookup"),
    }
    let (step, action) = history_step(step, HistoryEvent::UsernameFound(Some("alice".to_string())));
    match action {
        HistoryAction::FindUsername { user_id } => assert_eq!(user_id, 7),
        _ => panic!("expected the second author lookup"),
    }
    let (step, action) = history_step(step, HistoryEvent::UsernameFound(None));
    assert!(matches!(step, HistoryStep::Finished));
    let reply = match action {
        HistoryAction::Reply(Ok(v)) => v,
        _ => panic!("expected the history"),
    };
    let contents: Vec<&str> = reply.iter().map(|m| m.content.as_str()).collect();
    assert_eq!(contents, vec!["first", "second", "third"]);
    assert_eq!(reply[0].username, None);
    assert_eq!(reply[1].username, None);
    assert_eq!(reply[2].username.as_deref(), Some("alice"));
    assert_eq!(reply[2].user_id, Some(ALICE));
    assert_eq!(reply[0].created_at, at(1));
}

#[test]
fn empty_history_and_failures() {
    let (step, _) = get_messages();
    let (step, action) = history_step(step, HistoryEvent::MessagesFetched(Vec::new()));
    assert!(matches!(step, HistoryStep::Finished));
    assert!(matches!(action, HistoryAction::Reply(Ok(v)) if v.is_empty()));
    let (step, _) = get_messages();
    let (_, action) = history_step(step, HistoryEvent::DatabaseFailed("timeout".to_string()));
    assert!(matches!(action, HistoryAction::Reply(Err(AppError::Database(m))) if m == "timeout"));
}

#[test]
fn chat_session_stores_and_broadcasts() {
    let session = ws_handler(Ok(claims(ALICE_TEXT, false))).ok().unwrap();
    assert_eq!(session.user_id(), ALICE_TEXT);
    let stego = SteganographyService::new("default-stego-salt").unwrap();
    let new = session.on_text(&stego, "hi").unwrap();
    assert_eq!(new.user_id, ALICE);
    assert_ne!(new.content, "hi");
    assert_eq!(stego.decode(&new.content).unwrap(), "hi");
    let stored = message(9, Some(ALICE), &new.content);
    let out = session.on_stored(&stored);
    assert_eq!(out.username.as_deref(), Some("alice"));
    assert_eq!(out.content, new.content);
    assert_eq!(out.id, 9);
    let odd = ChatSession::new(&claims("nobody", false));
    assert!(odd.on_text(&stego, "hi").is_none());
}

#[test]
fn chat_connection_with_a_bad_token_is_refused() {
    let refused = ws_handler(Err("InvalidSignature".to_string())).err().unwrap();
    assert_eq!(validation_text(refused), "Invalid token: InvalidSignature");
}
