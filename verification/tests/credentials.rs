use vopono::auth::{
    auth_path, check_stored, check_username, credentials_file, credentials_for, fixed_password,
    get_auth, user_prompt, AuthAction, AuthEvent, AuthState,
};
use vopono::error::VpnError;
use vopono::vpn::VpnProvider;

#[test]
fn credentials_are_kept_below_the_provider() {
    assert_eq!(auth_path(&VpnProvider::Mullvad), "vopono/mv/openvpn/auth.txt");
    assert_eq!(auth_path(&VpnProvider::PrivateInternetAccess), "vopono/pia/openvpn/auth.txt");
    assert_eq!(auth_path(&VpnProvider::TigerVpn), "vopono/tig/openvpn/auth.txt");
    assert_eq!(auth_path(&VpnProvider::Custom), "vopono/cus/openvpn/auth.txt");
}

#[test]
fn prompts_name_the_provider() {
    assert_eq!(user_prompt(&VpnProvider::Mullvad), "Mullvad account number");
    assert_eq!(
        user_prompt(&VpnProvider::TigerVpn),
        "OpenVPN username (see https://www.tigervpn.com/dashboard/geeks )"
    );
    assert_eq!(user_prompt(&VpnProvider::PrivateInternetAccess), "PrivateInternetAccess username");
    assert_eq!(user_prompt(&VpnProvider::Custom), "OpenVPN username");
}

#[test]
fn stored_credentials_need_two_lines() {
    assert_eq!(check_stored(""), Err(VpnError::NoUsername));
    assert_eq!(check_stored("user"), Err(VpnError::NoPassword));
    assert_eq!(check_stored("user\n"), Err(VpnError::NoPassword));
    assert_eq!(check_stored("user\npass"), Ok(()));
    assert_eq!(check_stored("user\npass\n"), Ok(()));
    assert_eq!(check_stored("user\npass\nmore\n"), Ok(()));
}

#[test]
fn empty_lines_count_as_lines() {
    assert_eq!(check_stored("\n"), Err(VpnError::NoPassword));
    assert_eq!(check_stored("\n\n"), Ok(()));
    assert_eq!(check_stored("user\n\n"), Ok(()));
}

#[test]
fn mullvad_account_is_read_by_its_digits() {
    assert_eq!(
        check_username(&VpnProvider::Mullvad, "1234 5678 9012 3456"),
        Some("1234567890123456".to_string())
    );
    assert_eq!(
        check_username(&VpnProvider::Mullvad, "1234567890123456"),
        Some("1234567890123456".to_string())
    );
    assert_eq!(
        check_username(&VpnProvider::Mullvad, " a1234-5678-9012-3456\t"),
        Some("1234567890123456".to_string())
    );
}

#[test]
fn mullvad_account_needs_sixteen_digits() {
    assert_eq!(check_username(&VpnProvider::Mullvad, ""), None);
    assert_eq!(check_username(&VpnProvider::Mullvad, "123456789012345"), None);
    assert_eq!(check_username(&VpnProvider::Mullvad, "12345678901234567"), None);
    assert_eq!(check_username(&VpnProvider::Mullvad, "account"), None);
}

#[test]
fn other_user_names_are_taken_as_they_are() {
    assert_eq!(check_username(&VpnProvider::TigerVpn, "me 12"), Some("me 12".to_string()));
    assert_eq!(
        check_username(&VpnProvider::PrivateInternetAccess, "p1234567"),
        Some("p1234567".to_string())
    );
    assert_eq!(check_username(&VpnProvider::Custom, ""), Some("".to_string()));
}

#[test]
fn only_mullvad_has_a_fixed_password() {
    assert_eq!(fixed_password(&VpnProvider::Mullvad), Some("m".to_string()));
    assert_eq!(fixed_password(&VpnProvider::TigerVpn), None);
    assert_eq!(fixed_password(&VpnProvider::PrivateInternetAccess), None);
    assert_eq!(fixed_password(&VpnProvider::Custom), None);
}

#[test]
fn credentials_file_has_two_lines() {
    assert_eq!(credentials_file("user", "secret"), "user\nsecret\n");
    assert_eq!(credentials_file("", ""), "\n\n");
}

#[test]
fn written_credentials_are_complete() {
    assert_eq!(check_stored(&credentials_file("user", "secret")), Ok(()));
    assert_eq!(check_stored(&credentials_file("", "")), Ok(()));
}

#[test]
fn credentials_from_answers() {
    assert_eq!(
        credentials_for(&VpnProvider::Mullvad, "1234 5678 9012 3456", "ignored"),
        Some("1234567890123456\nm\n".to_string())
    );
    assert_eq!(credentials_for(&VpnProvider::Mullvad, "1234", "x"), None);
    assert_eq!(
        credentials_for(&VpnProvider::TigerVpn, "me", "secret"),
        Some("me\nsecret\n".to_string())
    );
}

#[test]
fn complete_file_ends_the_exchange() {
    let p = VpnProvider::TigerVpn;
    let (s, a) = get_auth(&p, AuthState::Start, &AuthEvent::Begin);
    assert_eq!((s, a), (AuthState::Reading, AuthAction::ReadFile));
    let (s, a) = get_auth(&p, s, &AuthEvent::FileRead("me\nsecret\n".to_string()));
    assert_eq!((s, a), (AuthState::Done, AuthAction::Finish));
}

#[test]
fn incomplete_file_fails_the_exchange() {
    let p = VpnProvider::TigerVpn;
    let (s, a) = get_auth(&p, AuthState::Reading, &AuthEvent::FileRead("".to_string()));
    assert_eq!(
        (s, a),
        (AuthState::Failed(VpnError::NoUsername), AuthAction::Fail(VpnError::NoUsername))
    );
    let (s, a) = get_auth(&p, AuthState::Reading, &AuthEvent::FileRead("me\n".to_string()));
    assert_eq!(
        (s, a),
        (AuthState::Failed(VpnError::NoPassword), AuthAction::Fail(VpnError::NoPassword))
    );
}

#[test]
fn missing_file_asks_for_name_and_password() {
    let p = VpnProvider::PrivateInternetAccess;
    let (s, a) = get_auth(&p, AuthState::Reading, &AuthEvent::FileMissing);
    assert_eq!((s, a), (AuthState::AskingUsername { failed: 0 }, AuthAction::PromptUsername));
    let (s, a) = get_auth(&p, s, &AuthEvent::Username("p123".to_string()));
    assert_eq!((s, a), (AuthState::AskingPassword, AuthAction::PromptPassword));
    let (s, a) = get_auth(&p, s, &AuthEvent::Password);
    assert_eq!((s, a), (AuthState::Writing, AuthAction::WriteFile));
    let (s, a) = get_auth(&p, s, &AuthEvent::Written);
    assert_eq!((s, a), (AuthState::Done, AuthAction::Finish));
}

#[test]
fn mullvad_is_not_asked_for_a_password() {
    let p = VpnProvider::Mullvad;
    let (s, a) = get_auth(
        &p,
        AuthState::AskingUsername { failed: 0 },
        &AuthEvent::Username("1234567890123456".to_string()),
    );
    assert_eq!((s, a), (AuthState::Writing, AuthAction::WriteFile));
}

#[test]
fn malformed_account_is_asked_for_again_three_times() {
    let p = VpnProvider::Mullvad;
    let bad = AuthEvent::Username("12".to_string());
    let mut state = AuthState::AskingUsername { failed: 0 };
    for n in 1..=3u8 {
        let (s, a) = get_auth(&p, state, &bad);
        assert_eq!((s, a), (AuthState::AskingUsername { failed: n }, AuthAction::PromptUsername));
        state = s;
    }
    let (s, a) = get_auth(&p, state, &bad);
    assert_eq!(
        (s, a),
        (
            AuthState::Failed(VpnError::CredentialsInvalid),
            AuthAction::Fail(VpnError::CredentialsInvalid)
        )
    );
}

#[test]
fn good_account_after_bad_ones_is_accepted() {
    let p = VpnProvider::Mullvad;
    let (s, a) = get_auth(
        &p,
        AuthState::AskingUsername { failed: 3 },
        &AuthEvent::Username("1234567890123456".to_string()),
    );
    assert_eq!((s, a), (AuthState::Writing, AuthAction::WriteFile));
}

#[test]
fn events_out_of_turn_change_nothing() {
    let p = VpnProvider::TigerVpn;
    assert_eq!(
        get_auth(&p, AuthState::Start, &AuthEvent::Written),
        (AuthState::Start, AuthAction::Wait)
    );
    assert_eq!(
        get_auth(&p, AuthState::Done, &AuthEvent::Begin),
        (AuthState::Done, AuthAction::Wait)
    );
    assert_eq!(
        get_auth(&p, AuthState::Failed(VpnError::NoUsername), &AuthEvent::FileMissing),
        (AuthState::Failed(VpnError::NoUsername), AuthAction::Wait)
    );
    assert_eq!(
        get_auth(&p, AuthState::AskingPassword, &AuthEvent::Username("x".to_string())),
        (AuthState::AskingPassword, AuthAction::Wait)
    );
    assert_eq!(
        get_auth(&p, AuthState::Writing, &AuthEvent::Password),
        (AuthState::Writing, AuthAction::Wait)
    );
}
