//! Credentials for OpenVPN: where they are kept, what counts as complete,
//! and the exchange with the user when they are missing.

use crate::error::VpnError;
use crate::filter::{lemma_filter_empty, lemma_filter_step};
use crate::text::to_chars;
use crate::vpn::VpnProvider;
use vstd::prelude::*;
use vstd::string::StringExecFns;

verus! {

/// How often the user is asked again after a malformed answer.
pub const MAX_REPROMPTS: u8 = 3;

/// The number of digits of a Mullvad account number.
pub const ACCOUNT_DIGITS: usize = 16;

/// Where a provider's credentials are kept, below the configuration
/// directory.
pub open spec fn spec_auth_path(provider: VpnProvider) -> Seq<char> {
    "vopono/"@ + provider.spec_alias() + "/openvpn/auth.txt"@
}

/// Where a provider's credentials are kept, below the configuration
/// directory.
pub fn auth_path(provider: &VpnProvider) -> (r: String)
    ensures
        r@ == spec_auth_path(*provider),
{
    let mut r = "vopono/".to_owned();
    r.append(provider.alias().as_str());
    r.append("/openvpn/auth.txt");
    r
}

/// What the user is asked for in place of a user name.
pub open spec fn spec_user_prompt(provider: VpnProvider) -> Seq<char> {
    match provider {
        VpnProvider::Mullvad => "Mullvad account number"@,
        VpnProvider::TigerVpn => "OpenVPN username (see https://www.tigervpn.com/dashboard/geeks )"@,
        VpnProvider::PrivateInternetAccess => "PrivateInternetAccess username"@,
        VpnProvider::Custom => "OpenVPN username"@,
    }
}

/// What the user is asked for in place of a user name.
pub fn user_prompt(provider: &VpnProvider) -> (r: String)
    ensures
        r@ == spec_user_prompt(*provider),
{
    match provider {
        VpnProvider::Mullvad => "Mullvad account number".to_owned(),
        VpnProvider::TigerVpn => "OpenVPN username (see https://www.tigervpn.com/dashboard/geeks )".to_owned(),
        VpnProvider::PrivateInternetAccess => "PrivateInternetAccess username".to_owned(),
        VpnProvider::Custom => "OpenVPN username".to_owned(),
    }
}

/// Whether a character ends a line.
pub open spec fn is_newline(c: char) -> bool {
    c == '\n'
}

/// The condition that picks out line feeds.
pub open spec fn newlines() -> spec_fn(char) -> bool {
    |c: char| is_newline(c)
}

/// The number of lines of a text: one for each line feed, and one more for
/// what follows the last line feed unless nothing follows it.
pub open spec fn line_count(s: Seq<char>) -> nat {
    s.filter(newlines()).len() + if s.len() > 0 && !is_newline(s.last()) {
        1nat
    } else {
        0nat
    }
}

/// Whether a credentials file is complete: its first line is the user name,
/// its second the password.
pub open spec fn stored_credentials(s: Seq<char>) -> Result<(), VpnError> {
    if line_count(s) == 0 {
        Err(VpnError::NoUsername)
    } else if line_count(s) == 1 {
        Err(VpnError::NoPassword)
    } else {
        Ok(())
    }
}

/// Checks that a credentials file names a user and a password.
pub fn check_stored(content: &str) -> (r: Result<(), VpnError>)
    ensures
        r == stored_credentials(content@),
{
    let chars = to_chars(content);
    let ghost pred = newlines();
    let mut lines: usize = 0;
    let mut i: usize = 0;
    proof {
        lemma_filter_empty(chars@, pred);
    }
    while i < chars.len() && lines < 2
        invariant
            i <= chars@.len(),
            lines <= 2,
            pred == newlines(),
            lines == chars@.take(i as int).filter(pred).len(),
        decreases chars@.len() - i,
    {
        proof {
            lemma_filter_step(chars@, pred, i as int);
        }
        if chars[i] == '\n' {
            lines = lines + 1;
        }
        i = i + 1;
    }
    proof {
        lemma_filter_prefix_len(chars@, pred, i as int);
        assert(chars@.take(chars@.len() as int) =~= chars@);
    }
    if lines < 2 && chars.len() > 0 && chars[chars.len() - 1] != '\n' {
        lines = lines + 1;
    }
    if lines == 0 {
        Err(VpnError::NoUsername)
    } else if lines == 1 {
        Err(VpnError::NoPassword)
    } else {
        Ok(())
    }
}

/// A longer prefix lets at least as much through a filter.
pub proof fn lemma_filter_prefix_len<A>(s: Seq<A>, pred: spec_fn(A) -> bool, i: int)
    requires
        0 <= i <= s.len(),
    ensures
        s.take(i).filter(pred).len() <= s.filter(pred).len(),
    decreases s.len() - i,
{
    if i < s.len() {
        lemma_filter_step(s, pred, i);
        lemma_filter_prefix_len(s, pred, i + 1);
    } else {
        assert(s.take(i) =~= s);
    }
}

/// Whether a character is one of the ten digits.
pub open spec fn is_digit(c: char) -> bool {
    '0' <= c <= '9'
}

/// The condition that picks out digits.
pub open spec fn digits() -> spec_fn(char) -> bool {
    |c: char| is_digit(c)
}

/// The digits of a text, in order.
pub open spec fn digits_of(s: Seq<char>) -> Seq<char> {
    s.filter(digits())
}

/// The user name that an answer stands for, if it stands for one. A Mullvad
/// account number is read by its digits alone and must have sixteen of them;
/// any other answer is taken as it is.
pub open spec fn accepted_username(provider: VpnProvider, answer: Seq<char>) -> Option<Seq<char>> {
    if provider == VpnProvider::Mullvad {
        if digits_of(answer).len() == ACCOUNT_DIGITS {
            Some(digits_of(answer))
        } else {
            None
        }
    } else {
        Some(answer)
    }
}

/// The user name that an answer stands for, if it stands for one.
pub fn check_username(provider: &VpnProvider, answer: &str) -> (r: Option<String>)
    ensures
        match r {
            Some(name) => accepted_username(*provider, answer@) == Some(name@),
            None => accepted_username(*provider, answer@) is None,
        },
{
    match provider {
        VpnProvider::Mullvad => {},
        _ => {
            return Some(answer.to_owned());
        },
    }
    let chars = to_chars(answer);
    let ghost pred = digits();
    let mut kept = String::new();
    let mut count: usize = 0;
    let mut i: usize = 0;
    proof {
        lemma_filter_empty(chars@, pred);
    }
    while i < chars.len()
        invariant
            i <= chars@.len(),
            pred == digits(),
            kept@ == chars@.take(i as int).filter(pred),
            count == kept@.len(),
            count <= i,
        decreases chars@.len() - i,
    {
        proof {
            lemma_filter_step(chars@, pred, i as int);
        }
        let c = chars[i];
        if '0' <= c && c <= '9' {
            kept.push(c);
            count = count + 1;
        }
        i = i + 1;
    }
    assert(chars@.take(chars@.len() as int) =~= chars@);
    if count == ACCOUNT_DIGITS {
        Some(kept)
    } else {
        None
    }
}

/// The password of a provider that needs none from the user.
pub open spec fn spec_fixed_password(provider: VpnProvider) -> Option<Seq<char>> {
    if provider == VpnProvider::Mullvad {
        Some("m"@)
    } else {
        None
    }
}

/// The password of a provider that needs none from the user.
pub fn fixed_password(provider: &VpnProvider) -> (r: Option<String>)
    ensures
        match r {
            Some(p) => spec_fixed_password(*provider) == Some(p@),
            None => spec_fixed_password(*provider) is None,
        },
{
    match provider {
        VpnProvider::Mullvad => Some("m".to_owned()),
        _ => None,
    }
}

/// The content of a credentials file: user name and password, each on a line
/// of its own.
pub open spec fn spec_credentials_file(username: Seq<char>, password: Seq<char>) -> Seq<char> {
    username + seq!['\n'] + password + seq!['\n']
}

/// The content of a credentials file.
pub fn credentials_file(username: &str, password: &str) -> (r: String)
    ensures
        r@ == spec_credentials_file(username@, password@),
{
    let mut r = username.to_owned();
    r.push('\n');
    r.append(password);
    r.push('\n');
    assert(r@ =~= spec_credentials_file(username@, password@));
    r
}

/// The credentials file that the user's answers give: none for a malformed
/// user name; otherwise the accepted name with the provider's fixed password
/// or, where it has none, the password entered.
pub open spec fn spec_credentials_for(
    provider: VpnProvider,
    answer: Seq<char>,
    entered: Seq<char>,
) -> Option<Seq<char>> {
    match accepted_username(provider, answer) {
        None => None,
        Some(name) => Some(
            spec_credentials_file(
                name,
                match spec_fixed_password(provider) {
                    Some(p) => p,
                    None => entered,
                },
            ),
        ),
    }
}

/// The credentials file that the user's answers give.
pub fn credentials_for(provider: &VpnProvider, answer: &str, entered: &str) -> (r: Option<String>)
    ensures
        match r {
            Some(file) => spec_credentials_for(*provider, answer@, entered@) == Some(file@),
            None => spec_credentials_for(*provider, answer@, entered@) is None,
        },
{
    match check_username(provider, answer) {
        None => None,
        Some(name) => match fixed_password(provider) {
            Some(p) => Some(credentials_file(name.as_str(), p.as_str())),
            None => Some(credentials_file(name.as_str(), entered)),
        },
    }
}

/// Where the exchange about credentials stands.
#[derive(Clone, Copy, Debug, PartialEq, Eq, Structural)]
pub enum AuthState {
    /// Nothing has happened yet.
    Start,
    /// The credentials file is being read.
    Reading,
    /// The user is being asked for a name, after `failed` malformed answers.
    AskingUsername { failed: u8 },
    /// The user is being asked for a password.
    AskingPassword,
    /// The credentials file is being written.
    Writing,
    /// Credentials are in place.
    Done,
    /// The exchange has failed.
    Failed(VpnError),
}

/// What the caller is to do next.
#[derive(Clone, Copy, Debug, PartialEq, Eq, Structural)]
pub enum AuthAction {
    /// Read the credentials file.
    ReadFile,
    /// Ask the user for a name.
    PromptUsername,
    /// Ask the user for a password, twice.
    PromptPassword,
    /// Write the credentials file.
    WriteFile,
    /// Go on: credentials are in place.
    Finish,
    /// Give up with this error.
    Fail(VpnError),
    /// The event was not waited for; nothing changes.
    Wait,
}

/// What has happened since the last action.
#[derive(Debug)]
pub enum AuthEvent {
    /// The exchange begins.
    Begin,
    /// There is no credentials file.
    FileMissing,
    /// The credentials file holds this text.
    FileRead(String),
    /// The user answered the question for a name.
    Username(String),
    /// The user entered a password.
    Password,
    /// The credentials file is written.
    Written,
}

/// One step of the exchange.
///
/// A complete file ends it at once and an incomplete one fails it. Without a
/// file the user is asked for a name, and asked again after a malformed
/// answer up to three times; a provider with a fixed password is not asked
/// for one. An event that the state does not wait for changes nothing.
pub open spec fn auth_step(provider: VpnProvider, state: AuthState, event: AuthEvent) -> (
    AuthState,
    AuthAction,
) {
    match (state, event) {
        (AuthState::Start, AuthEvent::Begin) => (AuthState::Reading, AuthAction::ReadFile),
        (AuthState::Reading, AuthEvent::FileRead(content)) => match stored_credentials(content@) {
            Ok(()) => (AuthState::Done, AuthAction::Finish),
            Err(e) => (AuthState::Failed(e), AuthAction::Fail(e)),
        },
        (AuthState::Reading, AuthEvent::FileMissing) => (
            AuthState::AskingUsername { failed: 0 },
            AuthAction::PromptUsername,
        ),
        (AuthState::AskingUsername { failed }, AuthEvent::Username(answer)) => {
            if accepted_username(provider, answer@) is Some {
                if spec_fixed_password(provider) is Some {
                    (AuthState::Writing, AuthAction::WriteFile)
                } else {
                    (AuthState::AskingPassword, AuthAction::PromptPassword)
                }
            } else if failed < MAX_REPROMPTS {
                (
                    AuthState::AskingUsername { failed: (failed + 1) as u8 },
                    AuthAction::PromptUsername,
                )
            } else {
                (
                    AuthState::Failed(VpnError::CredentialsInvalid),
                    AuthAction::Fail(VpnError::CredentialsInvalid),
                )
            }
        },
        (AuthState::AskingPassword, AuthEvent::Password) => (
            AuthState::Writing,
            AuthAction::WriteFile,
        ),
        (AuthState::Writing, AuthEvent::Written) => (AuthState::Done, AuthAction::Finish),
        _ => (state, AuthAction::Wait),
    }
}

/// Makes sure that a provider's OpenVPN credentials are in place, one step
/// at a time: takes what has happened and says what to do next.
pub fn get_auth(provider: &VpnProvider, state: AuthState, event: &AuthEvent) -> (r: (
    AuthState,
    AuthAction,
))
    ensures
        r == auth_step(*provider, state, *event),
{
    match state {
        AuthState::Start => match event {
            AuthEvent::Begin => (AuthState::Reading, AuthAction::ReadFile),
            _ => (state, AuthAction::Wait),
        },
        AuthState::Reading => match event {
            AuthEvent::FileRead(content) => match check_stored(content.as_str()) {
                Ok(()) => (AuthState::Done, AuthAction::Finish),
                Err(e) => (AuthState::Failed(e), AuthAction::Fail(e)),
            },
            AuthEvent::FileMissing => (
                AuthState::AskingUsername { failed: 0 },
                AuthAction::PromptUsername,
            ),
            _ => (state, AuthAction::Wait),
        },
        AuthState::AskingUsername { failed } => match event {
            AuthEvent::Username(answer) => {
                if check_username(provider, answer.as_str()).is_some() {
                    if fixed_password(provider).is_some() {
                        (AuthState::Writing, AuthAction::WriteFile)
                    } else {
                        (AuthState::AskingPassword, AuthAction::PromptPassword)
                    }
                } else if failed < MAX_REPROMPTS {
                    (AuthState::AskingUsername { failed: failed + 1 }, AuthAction::PromptUsername)
                } else {
                    (
                        AuthState::Failed(VpnError::CredentialsInvalid),
                        AuthAction::Fail(VpnError::CredentialsInvalid),
                    )
                }
            },
            _ => (state, AuthAction::Wait),
        },
        AuthState::AskingPassword => match event {
            AuthEvent::Password => (AuthState::Writing, AuthAction::WriteFile),
            _ => (state, AuthAction::Wait),
        },
        AuthState::Writing => match event {
            AuthEvent::Written => (AuthState::Done, AuthAction::Finish),
            _ => (state, AuthAction::Wait),
        },
        _ => (state, AuthAction::Wait),
    }
}

/// How far a state is from the end of the exchange.
pub open spec fn auth_rank(state: AuthState) -> nat {
    match state {
        AuthState::Start => 9,
        AuthState::Reading => 8,
        AuthState::AskingUsername { failed } => if failed <= MAX_REPROMPTS {
            (7 - failed) as nat
        } else {
            4
        },
        AuthState::AskingPassword => 3,
        AuthState::Writing => 2,
        AuthState::Done => 0,
        AuthState::Failed(_) => 0,
    }
}

/// Every event that is acted on brings the exchange closer to its end, and an
/// event that is not leaves the state as it was. The exchange therefore ends
/// after at most nine steps, four of which at most ask for a name. The file
/// is only written after an accepted name, and the exchange only fails with
/// the error that the file or the answers gave.
pub proof fn auth_exchange_ends(provider: VpnProvider, state: AuthState, event: AuthEvent)
    ensures
        ({
            let (next, action) = auth_step(provider, state, event);
            &&& action != AuthAction::Wait ==> auth_rank(next) < auth_rank(state)
            &&& action == AuthAction::Wait ==> next == state
            &&& (state is Done || state is Failed) ==> action == AuthAction::Wait
            &&& action == AuthAction::Finish <==> next is Done && !(state is Done)
            &&& action is Fail <==> next is Failed && !(state is Failed)
            &&& action is Fail ==> next == AuthState::Failed(action->Fail_0)
            &&& (action == AuthAction::WriteFile && event is Username) ==> accepted_username(
                provider,
                event->Username_0@,
            ) is Some
        }),
{
}

} // verus!
