use auth_app::auth::{AuthApp, Message};
use auth_app::fade::{Fade, Mode, OPACITY_STEPS, TICK_INTERVAL_MS};
use auth_app::field::FloatingInput;

fn ticks(app: &mut AuthApp, n: usize) {
    for _ in 0..n {
        assert_eq!(app.update(Message::Tick), None);
    }
}

#[test]
fn new_app_is_login_at_rest() {
    let app = AuthApp::new();
    assert_eq!(app.fade, Fade { mode: Mode::Login, opacity: 20, direction: 0 });
    assert_eq!(app.username_input.value(), "");
    assert_eq!(app.username_input.label, "Username");
    assert_eq!(app.password_input.label, "Password");
    assert!(!app.username_input.focused);
    assert!(!app.password_input.focused);
    assert!(app.is_valid());
}

#[test]
fn opacity_stays_in_range_over_many_ticks() {
    let mut app = AuthApp::new();
    for i in 0..200usize {
        if i % 7 == 0 {
            app.update(Message::ToggleMode);
        }
        app.update(Message::Tick);
        assert!(app.fade.opacity <= OPACITY_STEPS);
        assert!(app.is_valid());
    }
}

#[test]
fn toggle_from_login_swaps_after_twenty_ticks() {
    let mut app = AuthApp::new();
    app.update(Message::ToggleMode);
    assert_eq!(app.fade.direction, -1);
    ticks(&mut app, 1);
    assert_eq!(app.fade.opacity, 19);
    ticks(&mut app, 18);
    assert_eq!(app.fade, Fade { mode: Mode::Login, opacity: 1, direction: -1 });
    ticks(&mut app, 1);
    assert_eq!(app.fade, Fade { mode: Mode::Signup, opacity: 0, direction: 1 });
    ticks(&mut app, 20);
    assert_eq!(app.fade, Fade { mode: Mode::Signup, opacity: 20, direction: 0 });
}

#[test]
fn field_change_then_read() {
    let mut app = AuthApp::new();
    for v in ["bob", "", "ünïcödé ✓ 名前"] {
        app.update(Message::UsernameChanged(v.to_string()));
        assert_eq!(app.username_input.value(), v);
        app.update(Message::PasswordChanged(v.to_string()));
        assert_eq!(app.password_input.value(), v);
    }
}

#[test]
fn focus_round_trip_keeps_value() {
    let mut app = AuthApp::new();
    app.update(Message::UsernameChanged("carol".to_string()));
    app.update(Message::UsernameFocused(true));
    assert!(app.username_input.focused);
    app.update(Message::UsernameFocused(false));
    assert!(!app.username_input.focused);
    assert_eq!(app.username_input.value(), "carol");
    app.update(Message::PasswordChanged("pw".to_string()));
    app.update(Message::PasswordFocused(true));
    app.update(Message::PasswordFocused(false));
    assert_eq!(app.password_input.value(), "pw");
}

#[test]
fn login_line_for_alice() {
    let mut app = AuthApp::new();
    app.update(Message::UsernameChanged("alice".to_string()));
    assert_eq!(app.update(Message::LoginPressed), Some("Logging in user: alice".to_string()));
    assert_eq!(app.fade, Fade { mode: Mode::Login, opacity: 20, direction: 0 });
}

#[test]
fn signup_line_for_alice() {
    let mut app = AuthApp::new();
    app.update(Message::UsernameChanged("alice".to_string()));
    assert_eq!(app.update(Message::SignupPressed), Some("Signing up user: alice".to_string()));
    assert_eq!(app.login_line(), "Logging in user: alice");
    assert_eq!(app.signup_line(), "Signing up user: alice");
}

#[test]
fn submit_with_empty_username() {
    let mut app = AuthApp::new();
    assert_eq!(app.update(Message::LoginPressed), Some("Logging in user: ".to_string()));
}

#[test]
fn toggle_twice_returns_to_login() {
    let mut app = AuthApp::new();
    app.update(Message::ToggleMode);
    ticks(&mut app, 40);
    assert_eq!(app.fade, Fade { mode: Mode::Signup, opacity: 20, direction: 0 });
    app.update(Message::ToggleMode);
    ticks(&mut app, 40);
    assert_eq!(app.fade, Fade { mode: Mode::Login, opacity: 20, direction: 0 });
}

#[test]
fn toggle_from_signup_fades_out_then_in() {
    let mut app = AuthApp::new();
    app.update(Message::ToggleMode);
    ticks(&mut app, 40);
    app.update(Message::ToggleMode);
    assert_eq!(app.fade.direction, -1);
    ticks(&mut app, 1);
    assert_eq!(app.fade, Fade { mode: Mode::Signup, opacity: 19, direction: -1 });
    ticks(&mut app, 19);
    assert_eq!(app.fade, Fade { mode: Mode::Login, opacity: 0, direction: 1 });
    ticks(&mut app, 20);
    assert_eq!(app.fade, Fade { mode: Mode::Login, opacity: 20, direction: 0 });
}

#[test]
fn idle_fade_ignores_ticks() {
    let mut f = Fade::new();
    f.tick();
    assert_eq!(f, Fade { mode: Mode::Login, opacity: 20, direction: 0 });
}

#[test]
fn captions_follow_mode() {
    let mut app = AuthApp::new();
    assert_eq!(app.title(), "Auth App");
    assert_eq!(app.submit_caption(), "Login");
    assert_eq!(app.toggle_caption(), "Don't have an account? Sign Up");
    assert!(matches!(app.submit_message(), Message::LoginPressed));
    app.update(Message::ToggleMode);
    ticks(&mut app, 20);
    assert_eq!(app.submit_caption(), "Sign Up");
    assert_eq!(app.toggle_caption(), "Already have an account? Login");
    assert!(matches!(app.submit_message(), Message::SignupPressed));
}

#[test]
fn floating_input_setters() {
    let mut f = FloatingInput::new("Name");
    assert_eq!(f.label, "Name");
    f.set_value("x".to_string());
    f.set_focused(true);
    assert_eq!(f.value(), "x");
    assert!(f.focused);
    assert_eq!(Mode::Login.flip(), Mode::Signup);
    assert_eq!(Mode::Signup.flip(), Mode::Login);
    assert_eq!(TICK_INTERVAL_MS, 30);
}

#[test]
fn invalid_fade_is_detected() {
    let f = Fade { mode: Mode::Login, opacity: 5, direction: 0 };
    assert!(!f.is_valid());
    let g = Fade { mode: Mode::Login, opacity: 21, direction: 1 };
    assert!(!g.is_valid());
    let h = Fade { mode: Mode::Login, opacity: 3, direction: 2 };
    assert!(!h.is_valid());
}
