use vstd::prelude::*;

use crate::fade::{Fade, Mode};
use crate::field::FloatingInput;

verus! {

/// An event delivered to the form.
#[derive(Clone, Debug)]
pub enum Message {
    ToggleMode,
    Tick,
    UsernameChanged(String),
    PasswordChanged(String),
    UsernameFocused(bool),
    PasswordFocused(bool),
    LoginPressed,
    SignupPressed,
}

/// The line reported when logging in `user`.
pub open spec fn login_line(user: Seq<char>) -> Seq<char> {
    "Logging in user: "@ + user
}

/// The line reported when signing up `user`.
pub open spec fn signup_line(user: Seq<char>) -> Seq<char> {
    "Signing up user: "@ + user
}

/// The text of an optional line.
pub open spec fn line_view(r: Option<String>) -> Option<Seq<char>> {
    match r {
        Some(s) => Some(s@),
        None => None,
    }
}

/// The whole state of the login / signup form.
pub struct AuthApp {
    pub fade: Fade,
    pub username_input: FloatingInput,
    pub password_input: FloatingInput,
}

impl AuthApp {
    pub open spec fn wf(self) -> bool {
        self.fade.wf()
    }

    /// The state after handling `m`.
    pub open spec fn next(self, m: Message) -> AuthApp {
        match m {
            Message::ToggleMode => AuthApp { fade: self.fade.toggled(), ..self },
            Message::Tick => AuthApp { fade: self.fade.ticked(), ..self },
            Message::UsernameChanged(v) => AuthApp {
                username_input: FloatingInput { value: v, ..self.username_input },
                ..self
            },
            Message::PasswordChanged(v) => AuthApp {
                password_input: FloatingInput { value: v, ..self.password_input },
                ..self
            },
            Message::UsernameFocused(b) => AuthApp {
                username_input: FloatingInput { focused: b, ..self.username_input },
                ..self
            },
            Message::PasswordFocused(b) => AuthApp {
                password_input: FloatingInput { focused: b, ..self.password_input },
                ..self
            },
            Message::LoginPressed => self,
            Message::SignupPressed => self,
        }
    }

    /// The line to report when handling `m`, if any.
    pub open spec fn output(self, m: Message) -> Option<Seq<char>> {
        match m {
            Message::LoginPressed => Some(login_line(self.username_input.value@)),
            Message::SignupPressed => Some(signup_line(self.username_input.value@)),
            _ => None,
        }
    }

    /// The login form at rest with two empty inputs.
    pub fn new() -> (r: AuthApp)
        ensures
            r.wf(),
            r.fade == Fade::idle(Mode::Login),
            r.username_input.value@ == Seq::<char>::empty(),
            !r.username_input.focused,
            r.username_input.label@ == "Username"@,
            r.password_input.value@ == Seq::<char>::empty(),
            !r.password_input.focused,
            r.password_input.label@ == "Password"@,
    {
        AuthApp {
            fade: Fade::new(),
            username_input: FloatingInput::new("Username"),
            password_input: FloatingInput::new("Password"),
        }
    }

    /// Whether the state is well formed.
    pub fn is_valid(&self) -> (r: bool)
        ensures
            r == self.wf(),
    {
        self.fade.is_valid()
    }

    /// Handles one event and returns the line to report, if any.
    pub fn update(&mut self, message: Message) -> (r: Option<String>)
        requires
            old(self).wf(),
        ensures
            *final(self) == old(self).next(message),
            line_view(r) == old(self).output(message),
            final(self).wf(),
    {
        match message {
            Message::ToggleMode => {
                self.fade.toggle();
                None
            },
            Message::Tick => {
                self.fade.tick();
                None
            },
            Message::UsernameChanged(v) => {
                self.username_input.set_value(v);
                None
            },
            Message::PasswordChanged(v) => {
                self.password_input.set_value(v);
                None
            },
            Message::UsernameFocused(b) => {
                self.username_input.set_focused(b);
                None
            },
            Message::PasswordFocused(b) => {
                self.password_input.set_focused(b);
                None
            },
            Message::LoginPressed => Some(self.login_line()),
            Message::SignupPressed => Some(self.signup_line()),
        }
    }

    /// The window title.
    pub fn title(&self) -> (r: &'static str)
        ensures
            r@ == "Auth App"@,
    {
        "Auth App"
    }

    /// The caption of the button that submits the shown form.
    pub fn submit_caption(&self) -> (r: &'static str)
        ensures
            self.fade.mode == Mode::Login ==> r@ == "Login"@,
            self.fade.mode == Mode::Signup ==> r@ == "Sign Up"@,
    {
        match self.fade.mode {
            Mode::Login => "Login",
            Mode::Signup => "Sign Up",
        }
    }

    /// The event that the submit button of the shown form sends.
    pub fn submit_message(&self) -> (r: Message)
        ensures
            self.fade.mode == Mode::Login ==> r is LoginPressed,
            self.fade.mode == Mode::Signup ==> r is SignupPressed,
    {
        match self.fade.mode {
            Mode::Login => Message::LoginPressed,
            Mode::Signup => Message::SignupPressed,
        }
    }

    /// The caption of the button that switches to the other form.
    pub fn toggle_caption(&self) -> (r: &'static str)
        ensures
            self.fade.mode == Mode::Login ==> r@ == "Don't have an account? Sign Up"@,
            self.fade.mode == Mode::Signup ==> r@ == "Already have an account? Login"@,
    {
        match self.fade.mode {
            Mode::Login => "Don't have an account? Sign Up",
            Mode::Signup => "Already have an account? Login",
        }
    }

    /// `Logging in user: ` followed by the username.
    pub fn login_line(&self) -> (r: String)
        ensures
            r@ == login_line(self.username_input.value@),
    {
        let mut r = String::from_str("Logging in user: ");
        r.append(self.username_input.value.as_str());
        r
    }

    /// `Signing up user: ` followed by the username.
    pub fn signup_line(&self) -> (r: String)
        ensures
            r@ == signup_line(self.username_input.value@),
    {
        let mut r = String::from_str("Signing up user: ");
        r.append(self.username_input.value.as_str());
        r
    }
}

/// Right after a text change, each input holds exactly the new text.
pub proof fn lemma_change_then_read(s: AuthApp, v: String)
    ensures
        s.next(Message::UsernameChanged(v)).username_input.value@ == v@,
        s.next(Message::PasswordChanged(v)).password_input.value@ == v@,
{
}

/// Gaining and then losing focus leaves the input's text, and everything
/// else but the focus flag, as it was.
pub proof fn lemma_focus_round_trip(s: AuthApp)
    ensures
        s.next(Message::UsernameFocused(true)).next(Message::UsernameFocused(false)).username_input.value
            == s.username_input.value,
        s.next(Message::UsernameFocused(true)).next(Message::UsernameFocused(false)) == (AuthApp {
            username_input: FloatingInput { focused: false, ..s.username_input },
            ..s
        }),
        s.next(Message::PasswordFocused(true)).next(Message::PasswordFocused(false)).password_input.value
            == s.password_input.value,
        s.next(Message::PasswordFocused(true)).next(Message::PasswordFocused(false)) == (AuthApp {
            password_input: FloatingInput { focused: false, ..s.password_input },
            ..s
        }),
{
}

} // verus!
