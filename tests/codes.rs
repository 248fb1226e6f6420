use cgl_rs::input::{
    action_from_code, cgl_window_i32_to_action, cgl_window_i32_to_key, cgl_window_i32_to_mouse_button,
    key_from_code, mouse_button_from_code, Action, Key, MouseButton,
};
use cgl_rs::logger::{ConsoleColor, LogLevel};
use cgl_rs::noise::{fractal_type_from_code, noise_type_from_code, FractalType, NoiseType};
use cgl_rs::texture::{TextureDataType, TextureFormat, TextureInternalFormat, TextureScalingMode, TextureWrappingMode};

#[test]
fn action_codes_round_trip() {
    for code in 0..3 {
        let a = cgl_window_i32_to_action(code);
        assert_eq!(a.code(), code);
    }
    assert_eq!(action_from_code(0), Some(Action::Release));
    assert_eq!(action_from_code(1), Some(Action::Press));
    assert_eq!(action_from_code(2), Some(Action::Repeat));
}

#[test]
fn unknown_action_code_is_rejected() {
    assert_eq!(action_from_code(99), None);
    assert_eq!(action_from_code(-1), None);
    assert_eq!(action_from_code(3), None);
}

#[test]
fn key_codes_round_trip() {
    for code in -5..400 {
        if let Some(k) = key_from_code(code) {
            assert_eq!(k.code(), code);
            assert_eq!(cgl_window_i32_to_key(code), k);
        }
    }
    assert_eq!(key_from_code(32), Some(Key::Space));
    assert_eq!(key_from_code(48), Some(Key::K0));
    assert_eq!(key_from_code(90), Some(Key::Z));
    assert_eq!(key_from_code(348), Some(Key::Menu));
    assert_eq!(key_from_code(-1), None);
    assert_eq!(key_from_code(33), None);
    assert_eq!(Key::Unknown.code(), -1);
    assert_eq!(Key::KeyPadEqual.code(), 336);
}

#[test]
fn mouse_button_codes_round_trip() {
    for code in 0..8 {
        let b = cgl_window_i32_to_mouse_button(code);
        assert_eq!(b.code(), code);
        assert_eq!(mouse_button_from_code(code), Some(b));
    }
    assert_eq!(mouse_button_from_code(2), Some(MouseButton::Middle));
    assert_eq!(mouse_button_from_code(8), None);
    assert_eq!(MouseButton::Last.code(), 8);
}

#[test]
fn graphics_constants() {
    assert_eq!(TextureFormat::RGBA.code(), 0x1908);
    assert_eq!(TextureInternalFormat::RGBA8UI.code(), 0x8D7C);
    assert_eq!(TextureDataType::UNSIGNED_BYTE.code(), 0x1401);
    assert_eq!(TextureScalingMode::LINEAR_MIPMAP_LINEAR.code(), 0x2703);
    assert_eq!(TextureWrappingMode::CLAMP_TO_EDGE.code(), 0x812F);
}

#[test]
fn logger_and_noise_codes() {
    assert_eq!(LogLevel::Warning.code(), 2);
    assert_eq!(ConsoleColor::Blue.code(), 4);
    assert_eq!(NoiseType::Worley.code(), 5);
    assert_eq!(FractalType::NoFractal.code(), 0);
    assert_eq!(FractalType::PingPong.code(), 4);
}

#[test]
fn noise_ids_translate() {
    assert_eq!(noise_type_from_code(0), Some(NoiseType::Perlin));
    assert_eq!(noise_type_from_code(5), Some(NoiseType::Worley));
    assert_eq!(noise_type_from_code(6), None);
    assert_eq!(fractal_type_from_code(1), Some(FractalType::FBM));
    assert_eq!(fractal_type_from_code(-1), None);
    for code in 0..5 {
        assert_eq!(fractal_type_from_code(code).map(|t| t.code()), Some(code));
    }
}
