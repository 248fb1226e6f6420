use vstd::prelude::*;

verus! {

/// A keyboard key. Each key stands for one code of the native key code space.
#[derive(Debug, Clone, Copy, PartialEq, Eq, Structural)]
pub enum Key {
    Unknown,
    Space,
    Apostrophe,
    Comma,
    Minus,
    Period,
    Slash,
    K0,
    K1,
    K2,
    K3,
    K4,
    K5,
    K6,
    K7,
    K8,
    K9,
    Semicolon,
    Equal,
    A,
    B,
    C,
    D,
    E,
    F,
    G,
    H,
    I,
    J,
    K,
    L,
    M,
    N,
    O,
    P,
    Q,
    R,
    S,
    T,
    U,
    V,
    W,
    X,
    Y,
    Z,
    LeftBracket,
    Backslash,
    RightBracket,
    GraveAccent,
    Escape,
    Enter,
    Tab,
    Backspace,
    Insert,
    Delete,
    Right,
    Left,
    Down,
    Up,
    PageUp,
    PageDown,
    Home,
    End,
    CapsLock,
    ScrollLock,
    NumLock,
    PrintScreen,
    Pause,
    F1,
    F2,
    F3,
    F4,
    F5,
    F6,
    F7,
    F8,
    F9,
    F10,
    F11,
    F12,
    F13,
    F14,
    F15,
    F16,
    F17,
    F18,
    F19,
    F20,
    F21,
    F22,
    F23,
    F24,
    F25,
    KeyPad0,
    KeyPad1,
    KeyPad2,
    KeyPad3,
    KeyPad4,
    KeyPad5,
    KeyPad6,
    KeyPad7,
    KeyPad8,
    KeyPad9,
    KeyPadDecimal,
    KeyPadDivide,
    KeyPadMultiply,
    KeyPadSubtract,
    KeyPadAdd,
    KeyPadEnter,
    KeyPadEqual,
    LeftShift,
    LeftControl,
    LeftAlt,
    LeftSuper,
    RightShift,
    RightControl,
    RightAlt,
    RightSuper,
    Menu,
}

impl Key {
    /// The native code of the key.
    pub open spec fn spec_code(self) -> i32 {
        match self {
            Key::Unknown => -1i32,
            Key::Space => 32,
            Key::Apostrophe => 39,
            Key::Comma => 44,
            Key::Minus => 45,
            Key::Period => 46,
            Key::Slash => 47,
            Key::K0 => 48,
            Key::K1 => 49,
            Key::K2 => 50,
            Key::K3 => 51,
            Key::K4 => 52,
            Key::K5 => 53,
            Key::K6 => 54,
            Key::K7 => 55,
            Key::K8 => 56,
            Key::K9 => 57,
            Key::Semicolon => 59,
            Key::Equal => 61,
            Key::A => 65,
            Key::B => 66,
            Key::C => 67,
            Key::D => 68,
            Key::E => 69,
            Key::F => 70,
            Key::G => 71,
            Key::H => 72,
            Key::I => 73,
            Key::J => 74,
            Key::K => 75,
            Key::L => 76,
            Key::M => 77,
            Key::N => 78,
            Key::O => 79,
            Key::P => 80,
            Key::Q => 81,
            Key::R => 82,
            Key::S => 83,
            Key::T => 84,
            Key::U => 85,
            Key::V => 86,
            Key::W => 87,
            Key::X => 88,
            Key::Y => 89,
            Key::Z => 90,
            Key::LeftBracket => 91,
            Key::Backslash => 92,
            Key::RightBracket => 93,
            Key::GraveAccent => 96,
            Key::Escape => 256,
            Key::Enter => 257,
            Key::Tab => 258,
            Key::Backspace => 259,
            Key::Insert => 260,
            Key::Delete => 261,
            Key::Right => 262,
            Key::Left => 263,
            Key::Down => 264,
            Key::Up => 265,
            Key::PageUp => 266,
            Key::PageDown => 267,
            Key::Home => 268,
            Key::End => 269,
            Key::CapsLock => 280,
            Key::ScrollLock => 281,
            Key::NumLock => 282,
            Key::PrintScreen => 283,
            Key::Pause => 284,
            Key::F1 => 290,
            Key::F2 => 291,
            Key::F3 => 292,
            Key::F4 => 293,
            Key::F5 => 294,
            Key::F6 => 295,
            Key::F7 => 296,
            Key::F8 => 297,
            Key::F9 => 298,
            Key::F10 => 299,
            Key::F11 => 300,
            Key::F12 => 301,
            Key::F13 => 302,
            Key::F14 => 303,
            Key::F15 => 304,
            Key::F16 => 305,
            Key::F17 => 306,
            Key::F18 => 307,
            Key::F19 => 308,
            Key::F20 => 309,
            Key::F21 => 310,
            Key::F22 => 311,
            Key::F23 => 312,
            Key::F24 => 313,
            Key::F25 => 314,
            Key::KeyPad0 => 320,
            Key::KeyPad1 => 321,
            Key::KeyPad2 => 322,
            Key::KeyPad3 => 323,
            Key::KeyPad4 => 324,
            Key::KeyPad5 => 325,
            Key::KeyPad6 => 326,
            Key::KeyPad7 => 327,
            Key::KeyPad8 => 328,
            Key::KeyPad9 => 329,
            Key::KeyPadDecimal => 330,
            Key::KeyPadDivide => 331,
            Key::KeyPadMultiply => 332,
            Key::KeyPadSubtract => 333,
            Key::KeyPadAdd => 334,
            Key::KeyPadEnter => 335,
            Key::KeyPadEqual => 336,
            Key::LeftShift => 340,
            Key::LeftControl => 341,
            Key::LeftAlt => 342,
            Key::LeftSuper => 343,
            Key::RightShift => 344,
            Key::RightControl => 345,
            Key::RightAlt => 346,
            Key::RightSuper => 347,
            Key::Menu => 348,
        }
    }

    /// The native code of the key.
    #[verifier::when_used_as_spec(spec_code)]
    pub fn code(self) -> (r: i32)
        ensures
            r == self.spec_code(),
    {
        match self {
            Key::Unknown => -1i32,
            Key::Space => 32,
            Key::Apostrophe => 39,
            Key::Comma => 44,
            Key::Minus => 45,
            Key::Period => 46,
            Key::Slash => 47,
            Key::K0 => 48,
            Key::K1 => 49,
            Key::K2 => 50,
            Key::K3 => 51,
            Key::K4 => 52,
            Key::K5 => 53,
            Key::K6 => 54,
            Key::K7 => 55,
            Key::K8 => 56,
            Key::K9 => 57,
            Key::Semicolon => 59,
            Key::Equal => 61,
            Key::A => 65,
            Key::B => 66,
            Key::C => 67,
            Key::D => 68,
            Key::E => 69,
            Key::F => 70,
            Key::G => 71,
            Key::H => 72,
            Key::I => 73,
            Key::J => 74,
            Key::K => 75,
            Key::L => 76,
            Key::M => 77,
            Key::N => 78,
            Key::O => 79,
            Key::P => 80,
            Key::Q => 81,
            Key::R => 82,
            Key::S => 83,
            Key::T => 84,
            Key::U => 85,
            Key::V => 86,
            Key::W => 87,
            Key::X => 88,
            Key::Y => 89,
            Key::Z => 90,
            Key::LeftBracket => 91,
            Key::Backslash => 92,
            Key::RightBracket => 93,
            Key::GraveAccent => 96,
            Key::Escape => 256,
            Key::Enter => 257,
            Key::Tab => 258,
            Key::Backspace => 259,
            Key::Insert => 260,
            Key::Delete => 261,
            Key::Right => 262,
            Key::Left => 263,
            Key::Down => 264,
            Key::Up => 265,
            Key::PageUp => 266,
            Key::PageDown => 267,
            Key::Home => 268,
            Key::End => 269,
            Key::CapsLock => 280,
            Key::ScrollLock => 281,
            Key::NumLock => 282,
            Key::PrintScreen => 283,
            Key::Pause => 284,
            Key::F1 => 290,
            Key::F2 => 291,
            Key::F3 => 292,
            Key::F4 => 293,
            Key::F5 => 294,
            Key::F6 => 295,
            Key::F7 => 296,
            Key::F8 => 297,
            Key::F9 => 298,
            Key::F10 => 299,
            Key::F11 => 300,
            Key::F12 => 301,
            Key::F13 => 302,
            Key::F14 => 303,
            Key::F15 => 304,
            Key::F16 => 305,
            Key::F17 => 306,
            Key::F18 => 307,
            Key::F19 => 308,
            Key::F20 => 309,
            Key::F21 => 310,
            Key::F22 => 311,
            Key::F23 => 312,
            Key::F24 => 313,
            Key::F25 => 314,
            Key::KeyPad0 => 320,
            Key::KeyPad1 => 321,
            Key::KeyPad2 => 322,
            Key::KeyPad3 => 323,
            Key::KeyPad4 => 324,
            Key::KeyPad5 => 325,
            Key::KeyPad6 => 326,
            Key::KeyPad7 => 327,
            Key::KeyPad8 => 328,
            Key::KeyPad9 => 329,
            Key::KeyPadDecimal => 330,
            Key::KeyPadDivide => 331,
            Key::KeyPadMultiply => 332,
            Key::KeyPadSubtract => 333,
            Key::KeyPadAdd => 334,
            Key::KeyPadEnter => 335,
            Key::KeyPadEqual => 336,
            Key::LeftShift => 340,
            Key::LeftControl => 341,
            Key::LeftAlt => 342,
            Key::LeftSuper => 343,
            Key::RightShift => 344,
            Key::RightControl => 345,
            Key::RightAlt => 346,
            Key::RightSuper => 347,
            Key::Menu => 348,
        }
    }
}

/// The key that a native key code stands for; `None` for a code that the
/// native backend never reports (the code of `Key::Unknown` among them).
pub open spec fn key_of_code(code: i32) -> Option<Key> {
    match code {
        32 => Some(Key::Space),
        39 => Some(Key::Apostrophe),
        44 => Some(Key::Comma),
        45 => Some(Key::Minus),
        46 => Some(Key::Period),
        47 => Some(Key::Slash),
        48 => Some(Key::K0),
        49 => Some(Key::K1),
        50 => Some(Key::K2),
        51 => Some(Key::K3),
        52 => Some(Key::K4),
        53 => Some(Key::K5),
        54 => Some(Key::K6),
        55 => Some(Key::K7),
        56 => Some(Key::K8),
        57 => Some(Key::K9),
        59 => Some(Key::Semicolon),
        61 => Some(Key::Equal),
        65 => Some(Key::A),
        66 => Some(Key::B),
        67 => Some(Key::C),
        68 => Some(Key::D),
        69 => Some(Key::E),
        70 => Some(Key::F),
        71 => Some(Key::G),
        72 => Some(Key::H),
        73 => Some(Key::I),
        74 => Some(Key::J),
        75 => Some(Key::K),
        76 => Some(Key::L),
        77 => Some(Key::M),
        78 => Some(Key::N),
        79 => Some(Key::O),
        80 => Some(Key::P),
        81 => Some(Key::Q),
        82 => Some(Key::R),
        83 => Some(Key::S),
        84 => Some(Key::T),
        85 => Some(Key::U),
        86 => Some(Key::V),
        87 => Some(Key::W),
        88 => Some(Key::X),
        89 => Some(Key::Y),
        90 => Some(Key::Z),
        91 => Some(Key::LeftBracket),
        92 => Some(Key::Backslash),
        93 => Some(Key::RightBracket),
        96 => Some(Key::GraveAccent),
        256 => Some(Key::Escape),
        257 => Some(Key::Enter),
        258 => Some(Key::Tab),
        259 => Some(Key::Backspace),
        260 => Some(Key::Insert),
        261 => Some(Key::Delete),
        262 => Some(Key::Right),
        263 => Some(Key::Left),
        264 => Some(Key::Down),
        265 => Some(Key::Up),
        266 => Some(Key::PageUp),
        267 => Some(Key::PageDown),
        268 => Some(Key::Home),
        269 => Some(Key::End),
        280 => Some(Key::CapsLock),
        281 => Some(Key::ScrollLock),
        282 => Some(Key::NumLock),
        283 => Some(Key::PrintScreen),
        284 => Some(Key::Pause),
        290 => Some(Key::F1),
        291 => Some(Key::F2),
        292 => Some(Key::F3),
        293 => Some(Key::F4),
        294 => Some(Key::F5),
        295 => Some(Key::F6),
        296 => Some(Key::F7),
        297 => Some(Key::F8),
        298 => Some(Key::F9),
        299 => Some(Key::F10),
        300 => Some(Key::F11),
        301 => Some(Key::F12),
        302 => Some(Key::F13),
        303 => Some(Key::F14),
        304 => Some(Key::F15),
        305 => Some(Key::F16),
        306 => Some(Key::F17),
        307 => Some(Key::F18),
        308 => Some(Key::F19),
        309 => Some(Key::F20),
        310 => Some(Key::F21),
        311 => Some(Key::F22),
        312 => Some(Key::F23),
        313 => Some(Key::F24),
        314 => Some(Key::F25),
        320 => Some(Key::KeyPad0),
        321 => Some(Key::KeyPad1),
        322 => Some(Key::KeyPad2),
        323 => Some(Key::KeyPad3),
        324 => Some(Key::KeyPad4),
        325 => Some(Key::KeyPad5),
        326 => Some(Key::KeyPad6),
        327 => Some(Key::KeyPad7),
        328 => Some(Key::KeyPad8),
        329 => Some(Key::KeyPad9),
        330 => Some(Key::KeyPadDecimal),
        331 => Some(Key::KeyPadDivide),
        332 => Some(Key::KeyPadMultiply),
        333 => Some(Key::KeyPadSubtract),
        334 => Some(Key::KeyPadAdd),
        335 => Some(Key::KeyPadEnter),
        336 => Some(Key::KeyPadEqual),
        340 => Some(Key::LeftShift),
        341 => Some(Key::LeftControl),
        342 => Some(Key::LeftAlt),
        343 => Some(Key::LeftSuper),
        344 => Some(Key::RightShift),
        345 => Some(Key::RightControl),
        346 => Some(Key::RightAlt),
        347 => Some(Key::RightSuper),
        348 => Some(Key::Menu),
        _ => None,
    }
}

/// Translates a native key code into a `Key`, or `None` for a code that no
/// key has.
pub fn key_from_code(code: i32) -> (r: Option<Key>)
    ensures
        r == key_of_code(code),
{
    match code {
        32 => Some(Key::Space),
        39 => Some(Key::Apostrophe),
        44 => Some(Key::Comma),
        45 => Some(Key::Minus),
        46 => Some(Key::Period),
        47 => Some(Key::Slash),
        48 => Some(Key::K0),
        49 => Some(Key::K1),
        50 => Some(Key::K2),
        51 => Some(Key::K3),
        52 => Some(Key::K4),
        53 => Some(Key::K5),
        54 => Some(Key::K6),
        55 => Some(Key::K7),
        56 => Some(Key::K8),
        57 => Some(Key::K9),
        59 => Some(Key::Semicolon),
        61 => Some(Key::Equal),
        65 => Some(Key::A),
        66 => Some(Key::B),
        67 => Some(Key::C),
        68 => Some(Key::D),
        69 => Some(Key::E),
        70 => Some(Key::F),
        71 => Some(Key::G),
        72 => Some(Key::H),
        73 => Some(Key::I),
        74 => Some(Key::J),
        75 => Some(Key::K),
        76 => Some(Key::L),
        77 => Some(Key::M),
        78 => Some(Key::N),
        79 => Some(Key::O),
        80 => Some(Key::P),
        81 => Some(Key::Q),
        82 => Some(Key::R),
        83 => Some(Key::S),
        84 => Some(Key::T),
        85 => Some(Key::U),
        86 => Some(Key::V),
        87 => Some(Key::W),
        88 => Some(Key::X),
        89 => Some(Key::Y),
        90 => Some(Key::Z),
        91 => Some(Key::LeftBracket),
        92 => Some(Key::Backslash),
        93 => Some(Key::RightBracket),
        96 => Some(Key::GraveAccent),
        256 => Some(Key::Escape),
        257 => Some(Key::Enter),
        258 => Some(Key::Tab),
        259 => Some(Key::Backspace),
        260 => Some(Key::Insert),
        261 => Some(Key::Delete),
        262 => Some(Key::Right),
        263 => Some(Key::Left),
        264 => Some(Key::Down),
        265 => Some(Key::Up),
        266 => Some(Key::PageUp),
        267 => Some(Key::PageDown),
        268 => Some(Key::Home),
        269 => Some(Key::End),
        280 => Some(Key::CapsLock),
        281 => Some(Key::ScrollLock),
        282 => Some(Key::NumLock),
        283 => Some(Key::PrintScreen),
        284 => Some(Key::Pause),
        290 => Some(Key::F1),
        291 => Some(Key::F2),
        292 => Some(Key::F3),
        293 => Some(Key::F4),
        294 => Some(Key::F5),
        295 => Some(Key::F6),
        296 => Some(Key::F7),
        297 => Some(Key::F8),
        298 => Some(Key::F9),
        299 => Some(Key::F10),
        300 => Some(Key::F11),
        301 => Some(Key::F12),
        302 => Some(Key::F13),
        303 => Some(Key::F14),
        304 => Some(Key::F15),
        305 => Some(Key::F16),
        306 => Some(Key::F17),
        307 => Some(Key::F18),
        308 => Some(Key::F19),
        309 => Some(Key::F20),
        310 => Some(Key::F21),
        311 => Some(Key::F22),
        312 => Some(Key::F23),
        313 => Some(Key::F24),
        314 => Some(Key::F25),
        320 => Some(Key::KeyPad0),
        321 => Some(Key::KeyPad1),
        322 => Some(Key::KeyPad2),
        323 => Some(Key::KeyPad3),
        324 => Some(Key::KeyPad4),
        325 => Some(Key::KeyPad5),
        326 => Some(Key::KeyPad6),
        327 => Some(Key::KeyPad7),
        328 => Some(Key::KeyPad8),
        329 => Some(Key::KeyPad9),
        330 => Some(Key::KeyPadDecimal),
        331 => Some(Key::KeyPadDivide),
        332 => Some(Key::KeyPadMultiply),
        333 => Some(Key::KeyPadSubtract),
        334 => Some(Key::KeyPadAdd),
        335 => Some(Key::KeyPadEnter),
        336 => Some(Key::KeyPadEqual),
        340 => Some(Key::LeftShift),
        341 => Some(Key::LeftControl),
        342 => Some(Key::LeftAlt),
        343 => Some(Key::LeftSuper),
        344 => Some(Key::RightShift),
        345 => Some(Key::RightControl),
        346 => Some(Key::RightAlt),
        347 => Some(Key::RightSuper),
        348 => Some(Key::Menu),
        _ => None,
    }
}
/// Translates a native key code into a `Key`. The code must be one that a
/// key has: an unknown code means that the binding and the native backend
/// disagree, which callers treat as fatal.
pub fn cgl_window_i32_to_key(key: i32) -> (r: Key)
    requires
        key_of_code(key).is_some(),
    ensures
        key_of_code(key) == Some(r),
{
    key_from_code(key).unwrap()
}

/// A mouse button. Each button stands for one native button index.
#[derive(Debug, Clone, Copy, PartialEq, Eq, Structural)]
pub enum MouseButton {
    Left,
    Right,
    Middle,
    B4,
    B5,
    B6,
    B7,
    B8,
    Last,
}

impl MouseButton {
    /// The native index of the button.
    pub open spec fn spec_code(self) -> i32 {
        match self {
            MouseButton::Left => 0,
            MouseButton::Right => 1,
            MouseButton::Middle => 2,
            MouseButton::B4 => 3,
            MouseButton::B5 => 4,
            MouseButton::B6 => 5,
            MouseButton::B7 => 6,
            MouseButton::B8 => 7,
            MouseButton::Last => 8,
        }
    }

    /// The native index of the button.
    #[verifier::when_used_as_spec(spec_code)]
    pub fn code(self) -> (r: i32)
        ensures
            r == self.spec_code(),
    {
        match self {
            MouseButton::Left => 0,
            MouseButton::Right => 1,
            MouseButton::Middle => 2,
            MouseButton::B4 => 3,
            MouseButton::B5 => 4,
            MouseButton::B6 => 5,
            MouseButton::B7 => 6,
            MouseButton::B8 => 7,
            MouseButton::Last => 8,
        }
    }
}

/// The button that a native button index stands for: indices 0 to 7 name a
/// button, any other index none.
pub open spec fn mouse_button_of_code(code: i32) -> Option<MouseButton> {
    match code {
        0 => Some(MouseButton::Left),
        1 => Some(MouseButton::Right),
        2 => Some(MouseButton::Middle),
        3 => Some(MouseButton::B4),
        4 => Some(MouseButton::B5),
        5 => Some(MouseButton::B6),
        6 => Some(MouseButton::B7),
        7 => Some(MouseButton::B8),
        _ => None,
    }
}

/// Translates a native button index into a `MouseButton`, or `None` for an
/// index that no button has.
pub fn mouse_button_from_code(code: i32) -> (r: Option<MouseButton>)
    ensures
        r == mouse_button_of_code(code),
{
    match code {
        0 => Some(MouseButton::Left),
        1 => Some(MouseButton::Right),
        2 => Some(MouseButton::Middle),
        3 => Some(MouseButton::B4),
        4 => Some(MouseButton::B5),
        5 => Some(MouseButton::B6),
        6 => Some(MouseButton::B7),
        7 => Some(MouseButton::B8),
        _ => None,
    }
}

/// Translates a native button index into a `MouseButton`. The index must be
/// one that a button has.
pub fn cgl_window_i32_to_mouse_button(button: i32) -> (r: MouseButton)
    requires
        mouse_button_of_code(button).is_some(),
    ensures
        mouse_button_of_code(button) == Some(r),
{
    mouse_button_from_code(button).unwrap()
}

/// What happened to a key or a button.
#[derive(Debug, Clone, Copy, PartialEq, Eq, Structural)]
pub enum Action {
    Release,
    Press,
    Repeat,
}

impl Action {
    /// The native code of the action.
    pub open spec fn spec_code(self) -> i32 {
        match self {
            Action::Release => 0,
            Action::Press => 1,
            Action::Repeat => 2,
        }
    }

    /// The native code of the action.
    #[verifier::when_used_as_spec(spec_code)]
    pub fn code(self) -> (r: i32)
        ensures
            r == self.spec_code(),
    {
        match self {
            Action::Release => 0,
            Action::Press => 1,
            Action::Repeat => 2,
        }
    }
}

/// The action that a native action code stands for: release is 0, press 1,
/// repeat 2, and no other code names an action.
pub open spec fn action_of_code(code: i32) -> Option<Action> {
    match code {
        0 => Some(Action::Release),
        1 => Some(Action::Press),
        2 => Some(Action::Repeat),
        _ => None,
    }
}

/// Translates a native action code into an `Action`, or `None` for a code
/// that no action has.
pub fn action_from_code(code: i32) -> (r: Option<Action>)
    ensures
        r == action_of_code(code),
{
    match code {
        0 => Some(Action::Release),
        1 => Some(Action::Press),
        2 => Some(Action::Repeat),
        _ => None,
    }
}

/// Translates a native action code into an `Action`. The code must be one
/// that an action has.
pub fn cgl_window_i32_to_action(action: i32) -> (r: Action)
    requires
        action_of_code(action).is_some(),
    ensures
        action_of_code(action) == Some(r),
{
    action_from_code(action).unwrap()
}

/// Every action code translates to its action and back to itself, every
/// action comes back from its own code, and a code outside {0, 1, 2}
/// translates to no action at all.
pub proof fn lemma_action_code_round_trip(code: i32, action: Action)
    ensures
        0 <= code <= 2 ==> action_of_code(code).is_some()
            && action_of_code(code).unwrap().spec_code() == code,
        !(0 <= code <= 2) ==> action_of_code(code).is_none(),
        action_of_code(action.spec_code()) == Some(action),
{
}

/// Every button index translates to its button and back to itself, and every
/// button but `Last` comes back from its own index.
pub proof fn lemma_mouse_button_code_round_trip(code: i32, button: MouseButton)
    ensures
        mouse_button_of_code(code) matches Some(b) ==> b.spec_code() == code,
        0 <= code <= 7 <==> mouse_button_of_code(code).is_some(),
        button != MouseButton::Last ==> mouse_button_of_code(button.spec_code()) == Some(button),
{
}

/// Every key code translates to a key whose code it is, and every key but
/// `Unknown` comes back from its own code.
pub proof fn lemma_key_code_round_trip(code: i32, key: Key)
    ensures
        key_of_code(code) matches Some(k) ==> k.spec_code() == code,
        key != Key::Unknown ==> key_of_code(key.spec_code()) == Some(key),
{
}

} // verus!
