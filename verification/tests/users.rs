use vm_panel::error::ErrorKind;
use vm_panel::token::{session_exists, Token};
use vm_panel::user::{
    advance_user, advance_user_with, avatar_url, create_user, create_user_with_code, get_user,
    issue_user_token, passcode, passcode_body, passcode_of, passcode_subject, password_hash,
    register_user,
    registration_key, CreateUserRequestModel, CreateUserResponseModel, GetUserDataResponseModel,
    IssueUserTokenRequestModel, RegisterUserRequestModel, UserEffect, UserFlow, UserOutcome,
    UserReply, REGISTRATION_SECONDS,
};

fn applicant() -> CreateUserRequestModel {
    CreateUserRequestModel { username: "ada".to_string(), email: "ada@example.com".to_string() }
}

fn failed(effect: UserEffect) -> (ErrorKind, String) {
    match effect {
        UserEffect::Respond(UserOutcome::Failed(e)) => (e.kind, e.message),
        other => panic!("expected a failure, got {:?}", other),
    }
}

#[test]
fn passwords_are_stored_as_base64_of_their_sha256() {
    assert_eq!(password_hash("password"), "XohImNooBHFR0OVvjcYpJ3NgPQ1qq73WKhHvch0VQtg");
    assert_eq!(password_hash(""), "47DEQpj8HBSa-_TImW-5JCeuQeRkm5NMpJWZG3hSuFU");
    assert_eq!(password_hash("pässwörd"), "RpcL73Cs7YEj8NXQlHF-KlzUEgQeA7JjdgSf5lsoNKQ");
}

#[test]
fn avatars_are_found_under_the_hex_sha256_of_the_address() {
    assert_eq!(
        avatar_url("user@example.com"),
        "https://gravatar.com/avatar/b4c9a289323b21a01c3e940f150eb9b8c542587f1abfd8f0e1cc1ffc5e475514"
    );
    assert_eq!(
        avatar_url(""),
        "https://gravatar.com/avatar/e3b0c44298fc1c149afbf4c8996fb92427ae41e4649b934ca495991b7852b855"
    );
}

#[test]
fn registrations_are_kept_under_a_prefixed_key_for_an_hour() {
    assert_eq!(registration_key("abc"), "create_user:abc");
    assert_eq!(registration_key(""), "create_user:");
    assert_eq!(REGISTRATION_SECONDS, 3600);
}

#[test]
fn the_mail_names_the_passcode() {
    assert_eq!(passcode_subject(), "Your passcode");
    assert_eq!(passcode_body("012345"), "Your passcode is: 012345");
}

#[test]
fn passcodes_are_six_digits() {
    let mut seen = std::collections::HashSet::new();
    for _ in 0..200 {
        let code = passcode().unwrap();
        assert_eq!(code.len(), 6);
        assert!(code.chars().all(|c| c.is_ascii_digit()));
        seen.insert(code);
    }
    assert!(seen.len() > 1);
}

#[test]
fn registering_sends_the_passcode_to_the_address_given() {
    let (flow, effect) = create_user_with_code(applicant(), Some("424242".to_string()));
    assert_eq!(flow, UserFlow::SendingPasscode { user: applicant() });
    assert_eq!(
        effect,
        UserEffect::SendPasscode {
            code: "424242".to_string(),
            mail_to: "ada@example.com".to_string()
        }
    );
    let (flow, effect) = create_user(applicant());
    assert_eq!(flow, UserFlow::SendingPasscode { user: applicant() });
    match effect {
        UserEffect::SendPasscode { code, mail_to } => {
            assert_eq!(mail_to, "ada@example.com");
            assert_eq!(code.len(), 6);
            assert!(code.chars().all(|c| c.is_ascii_digit()));
        }
        other => panic!("{:?}", other),
    }
}

#[test]
fn registering_without_a_passcode_fails() {
    let (flow, effect) = create_user_with_code(applicant(), None);
    assert!(flow.is_finished());
    assert_eq!(failed(effect), (ErrorKind::Internal, "Random source failed".to_string()));
}

#[test]
fn a_sent_passcode_is_followed_by_keeping_the_registration() {
    let flow = UserFlow::SendingPasscode { user: applicant() };
    let mut nonce = [0u8; 32];
    for (i, b) in nonce.iter_mut().enumerate() {
        *b = i as u8;
    }
    let (flow, effect) = advance_user_with(flow, UserReply::Completed, Some(nonce));
    let token = "AAECAwQFBgcICQoLDA0ODxAREhMUFRYXGBkaGxwdHh8".to_string();
    assert_eq!(flow, UserFlow::StoringRegistration { token: token.clone() });
    assert_eq!(
        effect,
        UserEffect::StoreRegistration {
            key: format!("create_user:{}", token),
            user: applicant(),
            seconds: 3600
        }
    );
    let (flow, effect) = advance_user(flow, UserReply::Completed);
    assert!(flow.is_finished());
    assert_eq!(
        effect,
        UserEffect::Respond(UserOutcome::Pending(CreateUserResponseModel { token }))
    );
}

#[test]
fn a_failed_mail_ends_the_registration() {
    let flow = UserFlow::SendingPasscode { user: applicant() };
    let (flow, effect) = advance_user(flow, UserReply::Broken("smtp down".to_string()));
    assert!(flow.is_finished());
    assert_eq!(failed(effect), (ErrorKind::Internal, "smtp down".to_string()));
}

#[test]
fn completing_a_registration_adds_the_user_and_opens_a_session() {
    let payload = RegisterUserRequestModel {
        token: "tok".to_string(),
        code: "000000".to_string(),
        password: "password".to_string(),
    };
    let (flow, effect) = register_user(payload);
    assert_eq!(effect, UserEffect::LoadRegistration { key: "create_user:tok".to_string() });
    let (flow, effect) = advance_user(flow, UserReply::Registration(Some(applicant())));
    assert_eq!(flow, UserFlow::AddingUser);
    assert_eq!(
        effect,
        UserEffect::AddUser {
            username: "ada".to_string(),
            email: "ada@example.com".to_string(),
            password_hash: "XohImNooBHFR0OVvjcYpJ3NgPQ1qq73WKhHvch0VQtg".to_string(),
        }
    );
    let (flow, effect) = advance_user(flow, UserReply::UserAdded(31));
    let text = match &flow {
        UserFlow::RecordingSession { token } => token.clone(),
        other => panic!("{:?}", other),
    };
    let token = Token::parse(text.clone()).unwrap();
    assert_eq!(token.user_id, 31);
    assert_eq!(
        effect,
        UserEffect::RecordSession { nonce: token.get_nonce_as_string(), user_id: 31 }
    );
    let (flow, effect) = advance_user(flow, UserReply::Completed);
    assert!(flow.is_finished());
    assert_eq!(effect, UserEffect::Respond(UserOutcome::Session(text)));
}

#[test]
fn a_registration_that_is_not_pending_is_not_found() {
    let payload = RegisterUserRequestModel {
        token: "tok".to_string(),
        code: "000000".to_string(),
        password: "password".to_string(),
    };
    let (flow, _) = register_user(payload);
    let (flow, effect) = advance_user(flow, UserReply::Registration(None));
    assert!(flow.is_finished());
    assert_eq!(failed(effect), (ErrorKind::NotFound, "User data not found".to_string()));
}

#[test]
fn a_login_looks_the_user_up_by_address_and_password_hash() {
    let payload = IssueUserTokenRequestModel {
        email: "ada@example.com".to_string(),
        password: "password".to_string(),
    };
    let (flow, effect) = issue_user_token(payload);
    assert_eq!(flow, UserFlow::FindingUser);
    assert_eq!(
        effect,
        UserEffect::FindUser {
            email: "ada@example.com".to_string(),
            password_hash: "XohImNooBHFR0OVvjcYpJ3NgPQ1qq73WKhHvch0VQtg".to_string(),
        }
    );
}

#[test]
fn a_login_with_a_given_nonce_records_that_nonce() {
    let (flow, effect) =
        advance_user_with(UserFlow::FindingUser, UserReply::UserFound(Some(1)), Some([0u8; 32]));
    assert_eq!(
        flow,
        UserFlow::RecordingSession {
            token: "AAAAAS4AAAAAAAAAAAAAAAAAAAAAAAAAAAAAAAAAAAAAAAAAAA".to_string()
        }
    );
    assert_eq!(
        effect,
        UserEffect::RecordSession {
            nonce: "AAAAAAAAAAAAAAAAAAAAAAAAAAAAAAAAAAAAAAAAAAA".to_string(),
            user_id: 1
        }
    );
}

#[test]
fn two_logins_get_different_tokens() {
    let (first, _) = advance_user(UserFlow::FindingUser, UserReply::UserFound(Some(1)));
    let (second, _) = advance_user(UserFlow::FindingUser, UserReply::UserFound(Some(1)));
    assert_ne!(first, second);
}

#[test]
fn a_login_that_finds_no_user_is_unauthorized() {
    let (flow, effect) = advance_user(UserFlow::FindingUser, UserReply::UserFound(None));
    assert!(flow.is_finished());
    assert_eq!(failed(effect), (ErrorKind::Unauthorized, "Invalid email or password".to_string()));
}

#[test]
fn a_failed_random_source_ends_the_step() {
    let random = (ErrorKind::Internal, "Random source failed".to_string());
    let (flow, effect) = advance_user_with(UserFlow::AddingUser, UserReply::UserAdded(3), None);
    assert!(flow.is_finished());
    assert_eq!(failed(effect), random);
    let (_, effect) =
        advance_user_with(UserFlow::FindingUser, UserReply::UserFound(Some(3)), None);
    assert_eq!(failed(effect), random);
    let flow = UserFlow::SendingPasscode { user: applicant() };
    let (_, effect) = advance_user_with(flow, UserReply::Completed, None);
    assert_eq!(failed(effect), random);
}

#[test]
fn a_session_that_was_not_recorded_hands_out_no_token() {
    let flow = UserFlow::RecordingSession { token: "text".to_string() };
    let (flow, effect) = advance_user(flow, UserReply::Broken("insert failed".to_string()));
    assert!(flow.is_finished());
    assert_eq!(failed(effect), (ErrorKind::Internal, "insert failed".to_string()));
}

#[test]
fn the_users_own_data_comes_with_the_avatar() {
    let (flow, effect) = get_user(12);
    assert_eq!(effect, UserEffect::FindUserData { user_id: 12 });
    let found = Some(("ada".to_string(), "user@example.com".to_string()));
    let (flow, effect) = advance_user(flow, UserReply::UserData(found));
    assert!(flow.is_finished());
    assert_eq!(
        effect,
        UserEffect::Respond(UserOutcome::User(GetUserDataResponseModel {
            username: "ada".to_string(),
            email: "user@example.com".to_string(),
            avatar_url: "https://gravatar.com/avatar/b4c9a289323b21a01c3e940f150eb9b8c542587f1abfd8f0e1cc1ffc5e475514".to_string(),
            id: 12,
        }))
    );
    let (flow, _) = get_user(12);
    let (_, effect) = advance_user(flow, UserReply::UserData(None));
    assert_eq!(failed(effect), (ErrorKind::NotFound, "User not found".to_string()));
}

#[test]
fn replies_that_were_not_waited_for_are_internal_failures() {
    let unexpected = (ErrorKind::Internal, "Unexpected reply".to_string());
    let cases = vec![
        (UserFlow::AddingUser, UserReply::Completed),
        (UserFlow::FindingUser, UserReply::UserAdded(1)),
        (UserFlow::Finished, UserReply::Completed),
        (UserFlow::Finished, UserReply::Broken("late".to_string())),
        (UserFlow::FindingUserData { user_id: 1 }, UserReply::UserFound(Some(1))),
    ];
    for (flow, reply) in cases {
        let (flow, effect) = advance_user(flow, reply);
        assert!(flow.is_finished());
        assert_eq!(failed(effect), unexpected);
    }
}

#[test]
fn only_steps_that_open_or_keep_something_draw_a_nonce() {
    assert!(UserFlow::AddingUser.draws(&UserReply::UserAdded(1)));
    assert!(UserFlow::FindingUser.draws(&UserReply::UserFound(Some(1))));
    assert!(UserFlow::SendingPasscode { user: applicant() }.draws(&UserReply::Completed));
    assert!(!UserFlow::FindingUser.draws(&UserReply::UserFound(None)));
    assert!(!UserFlow::AddingUser.draws(&UserReply::Completed));
    assert!(!UserFlow::Finished.draws(&UserReply::UserAdded(1)));
}

#[test]
fn a_session_exists_where_a_record_matches() {
    assert!(!session_exists(0));
    assert!(session_exists(1));
    assert!(session_exists(2));
    assert!(!session_exists(-1));
}

#[test]
fn drawn_digits_spell_the_passcode() {
    assert_eq!(passcode_of(&[0, 1, 2, 3, 4, 5]), Some("012345".to_string()));
    assert_eq!(passcode_of(&[9, 9, 9, 9, 9, 9]), Some("999999".to_string()));
    assert_eq!(passcode_of(&[7, 0, 0, 0, 0, 8]), Some("700008".to_string()));
}

#[test]
fn a_number_that_is_no_digit_spells_no_passcode() {
    assert_eq!(passcode_of(&[0, 0, 0, 0, 0, 10]), None);
    assert_eq!(passcode_of(&[255, 1, 2, 3, 4, 5]), None);
}
