//! What to do when a server turns the user's credentials down.
//!
//! The dialogs themselves belong to the caller. Decided here is which of
//! them to show, and what the user's answer means for the request that
//! failed.

use vstd::prelude::*;

verus! {

/// How the handling of an authentication failure ended, and with it what is
/// to become of the request.
#[allow(non_camel_case_types)]
#[derive(Clone, Copy, Debug, PartialEq, Eq, Structural)]
pub enum AuthErrorOutcome {
    /// The failure may be mended, as when the user gave a new password: the
    /// request is to be tried again.
    RETRY,
    /// Nothing can be done: the request is to be given up.
    ABORT,
}

/// How a server wants its users to prove who they are.
#[derive(Clone, Copy, Debug, PartialEq, Eq, Structural)]
pub enum AuthMethod {
    /// A password sent as it is.
    PasswordCleartext,
    /// A token from an identity provider.
    OAuth2,
    /// Any other method.
    Other,
}

/// The notice that answers a failure.
#[derive(Clone, Copy, Debug, PartialEq, Eq, Structural)]
pub enum AuthFailureNotice {
    /// An alert that signing in through the identity provider failed.
    OAuth,
    /// The dialogs for a password that was refused.
    Password,
}

/// Why a failure could not be handled.
#[derive(Clone, Copy, Debug, PartialEq, Eq, Structural)]
pub enum AuthAlertError {
    /// There is no notice for the server's method.
    NotImplemented,
}

/// The first step after a password was refused.
#[derive(Clone, Copy, Debug, PartialEq, Eq, Structural)]
pub enum PasswordFailureStep {
    /// No password is stored, so there is nothing to retry with: ask for one
    /// at once.
    PromptForPassword,
    /// Ask the user whether to retry, to enter a new password or to cancel.
    Confirm,
}

/// What the user chose in the dialog of three buttons.
#[derive(Clone, Copy, Debug, PartialEq, Eq, Structural)]
pub enum ButtonChoice {
    /// Try again with the password as it is.
    Retry,
    /// Forget the stored password and ask for a new one.
    EnterNewPassword,
    /// Give up.
    Cancel,
}

/// Position of the button that retries.
pub const RETRY_BUTTON: i32 = 0;

/// Position of the button that asks for a new password. Position 1 lies
/// between the two and cancels.
pub const NEW_PASSWORD_BUTTON: i32 = 2;

pub open spec fn notice_for(method: AuthMethod) -> Result<AuthFailureNotice, AuthAlertError> {
    match method {
        AuthMethod::OAuth2 => Ok(AuthFailureNotice::OAuth),
        AuthMethod::PasswordCleartext => Ok(AuthFailureNotice::Password),
        AuthMethod::Other => Err(AuthAlertError::NotImplemented),
    }
}

pub open spec fn choice_of(pressed_button_index: i32) -> ButtonChoice {
    if pressed_button_index == RETRY_BUTTON {
        ButtonChoice::Retry
    } else if pressed_button_index == NEW_PASSWORD_BUTTON {
        ButtonChoice::EnterNewPassword
    } else {
        ButtonChoice::Cancel
    }
}

pub open spec fn outcome_of(choice: ButtonChoice) -> AuthErrorOutcome {
    match choice {
        ButtonChoice::Retry => AuthErrorOutcome::RETRY,
        ButtonChoice::EnterNewPassword => AuthErrorOutcome::RETRY,
        ButtonChoice::Cancel => AuthErrorOutcome::ABORT,
    }
}

/// Which notice answers a failure to authenticate by `method`. Only the
/// methods for which a notice exists are handled.
pub fn handle_auth_failure(method: AuthMethod) -> (r: Result<AuthFailureNotice, AuthAlertError>)
    ensures
        r == notice_for(method),
{
    match method {
        AuthMethod::OAuth2 => Ok(AuthFailureNotice::OAuth),
        AuthMethod::PasswordCleartext => Ok(AuthFailureNotice::Password),
        _ => Err(AuthAlertError::NotImplemented),
    }
}

/// The outcome once the user has been alerted that signing in through the
/// identity provider failed: there is nothing to retry with.
pub fn notify_oauth_failure() -> (r: AuthErrorOutcome)
    ensures
        r == AuthErrorOutcome::ABORT,
{
    AuthErrorOutcome::ABORT
}

/// The first step after the stored password `password` was refused.
pub fn notify_password_failure(password: &str) -> (r: PasswordFailureStep)
    ensures
        r == if password@.len() == 0 {
            PasswordFailureStep::PromptForPassword
        } else {
            PasswordFailureStep::Confirm
        },
{
    if password.is_empty() {
        PasswordFailureStep::PromptForPassword
    } else {
        PasswordFailureStep::Confirm
    }
}

/// What the button at `pressed_button_index` stands for. Anything but the
/// two named buttons cancels, the closing of the dialog included.
pub fn button_choice(pressed_button_index: i32) -> (r: ButtonChoice)
    ensures
        r == choice_of(pressed_button_index),
{
    if pressed_button_index == RETRY_BUTTON {
        ButtonChoice::Retry
    } else if pressed_button_index == NEW_PASSWORD_BUTTON {
        ButtonChoice::EnterNewPassword
    } else {
        ButtonChoice::Cancel
    }
}

/// The outcome that follows from the user's choice, once a new password
/// has been asked for where that was the choice.
pub fn outcome_after(choice: ButtonChoice) -> (r: AuthErrorOutcome)
    ensures
        r == outcome_of(choice),
{
    match choice {
        ButtonChoice::Cancel => AuthErrorOutcome::ABORT,
        _ => AuthErrorOutcome::RETRY,
    }
}

/// A refused password ends in giving up only when the user was asked and
/// pressed neither of the two buttons that go on.
pub proof fn law_abort_only_on_cancel(pressed_button_index: i32)
    ensures
        outcome_of(choice_of(pressed_button_index)) == AuthErrorOutcome::ABORT <==> pressed_button_index
            != RETRY_BUTTON && pressed_button_index != NEW_PASSWORD_BUTTON,
{
}

} // verus!
