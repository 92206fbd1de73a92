//! Tests of the shell-facing helpers: the event converter, window presets,
//! file classification, shortcuts, chat shapes and configuration helpers.

use proxycast_core::chat::{chunk_text, StopFlags};
use proxycast_core::connection::ConnectionResponse;
use proxycast_core::converter::{
    convert_agent_event, convert_message, convert_to_tauri_message, AgentEvent, Message,
    TauriAgentEvent, TauriMessageContent,
};
use proxycast_core::files::{get_file_extension, is_hidden_file, is_text_file, mode_to_string};
use proxycast_core::models_cfg::{enabled_model_ids, get_alias_config_key, ModelInfo};
use proxycast_core::shortcut::{
    get_current, is_registered, validate, ShortcutError, ShortcutRegistry,
};
use proxycast_core::window::{WindowSize, WindowSizeOption};

#[test]
fn test_convert_text_delta() {
    let message = Message::assistant().with_text("Hello, world!");
    let events = convert_message(&message);

    assert_eq!(events.len(), 1);
    match &events[0] {
        TauriAgentEvent::TextDelta { text } => {
            assert_eq!(text, "Hello, world!");
        }
        _ => panic!("Expected TextDelta event"),
    }
}

#[test]
fn test_convert_model_change() {
    let event = AgentEvent::ModelChange {
        model: "model-a".to_string(),
        mode: "chat".to_string(),
    };
    let events = convert_agent_event(&event);

    assert_eq!(events.len(), 1);
    match &events[0] {
        TauriAgentEvent::ModelChange { model, mode } => {
            assert_eq!(model, "model-a");
            assert_eq!(mode, "chat");
        }
        _ => panic!("Expected ModelChange event"),
    }
}

#[test]
fn test_convert_recorded_message() {
    let message = Message::user().with_text("hi there");
    let recorded = convert_to_tauri_message(&message);
    assert_eq!(recorded.role, "user");
    assert_eq!(recorded.content.len(), 1);
    match &recorded.content[0] {
        TauriMessageContent::Text { text } => assert_eq!(text, "hi there"),
        _ => panic!("expected a text entry"),
    }
}

#[test]
fn test_window_size_presets() {
    let default = WindowSize::default();
    assert_eq!(default.width, 1200);
    assert_eq!(default.height, 800);

    let compact = WindowSize::compact();
    assert_eq!(compact.width, 1000);
    assert_eq!(compact.height, 700);

    let large = WindowSize::large();
    assert_eq!(large.width, 1920);
    assert_eq!(large.height, 1200);

    let extra_large = WindowSize::extra_large();
    assert_eq!(extra_large.width, 2560);
    assert_eq!(extra_large.height, 1440);
}

#[test]
fn test_window_size_options() {
    let options = WindowSizeOption::all_options();
    assert_eq!(options.len(), 4);

    for option in &options {
        assert!(!option.id.is_empty());
        assert!(!option.name.is_empty());
        assert!(!option.description.is_empty());
        assert!(option.size.width > 0);
        assert!(option.size.height > 0);
    }

    let default_option = options.iter().find(|opt| opt.id == "default").unwrap();
    assert_eq!(default_option.size.width, 1200);
    assert_eq!(default_option.size.height, 800);
}

#[test]
fn test_is_hidden_file() {
    assert!(is_hidden_file(".gitignore"));
    assert!(is_hidden_file(".config"));
    assert!(!is_hidden_file("readme.md"));
}

#[test]
fn test_is_text_file() {
    assert!(is_text_file(Some("txt")));
    assert!(is_text_file(Some("json")));
    assert!(is_text_file(Some("rs")));
    assert!(!is_text_file(Some("png")));
    assert!(!is_text_file(Some("exe")));
    assert!(!is_text_file(None));
}

#[test]
fn test_get_file_extension() {
    assert_eq!(get_file_extension("src/main.RS").as_deref(), Some("rs"));
    assert_eq!(get_file_extension("archive.tar.gz").as_deref(), Some("gz"));
    assert_eq!(get_file_extension("/tmp/.hidden").as_deref(), None);
    assert_eq!(get_file_extension("Makefile").as_deref(), None);
}

#[test]
fn test_mode_to_string() {
    assert_eq!(mode_to_string(0o644, false, false), "-rw-r--r--");
    assert_eq!(mode_to_string(0o755, true, false), "drwxr-xr-x");
    assert_eq!(mode_to_string(0o777, false, true), "lrwxrwxrwx");
}

#[test]
fn test_validate_valid_shortcuts() {
    assert!(validate("CommandOrControl+Shift+S").is_ok());
    assert!(validate("Alt+F4").is_ok());
    assert!(validate("Ctrl+C").is_ok());
    assert!(validate("Super+Space").is_ok());
    assert!(validate("Shift+A").is_ok());
}

#[test]
fn test_validate_empty_shortcut() {
    let result = validate("");
    assert!(result.is_err());
    match result {
        Err(ShortcutError::InvalidFormat(msg)) => {
            assert!(msg.contains("不能为空"));
        }
        _ => panic!("Expected InvalidFormat error"),
    }
}

#[test]
fn test_validate_invalid_shortcuts() {
    assert!(validate("InvalidKey").is_err());
    assert!(validate("+++").is_err());
    assert!(validate("Ctrl++").is_err());
}

#[test]
fn test_shortcut_registry() {
    let mut registry = ShortcutRegistry::new();
    assert!(!is_registered(&registry));
    assert!(get_current(&registry).is_none());
    registry.mark_registered(&"Ctrl+Shift+S".to_string());
    assert!(is_registered(&registry));
    assert_eq!(get_current(&registry).as_deref(), Some("Ctrl+Shift+S"));
    registry.mark_unregistered();
    assert!(!is_registered(&registry));
}

#[test]
fn test_chunk_text() {
    let chunks = chunk_text("hello world", 5);
    assert_eq!(chunks, vec!["hello".to_string(), " worl".to_string(), "d".to_string()]);
    assert!(chunk_text("", 5).is_empty());
}

#[test]
fn test_stop_flags() {
    let mut flags = StopFlags::new();
    let session = "s1".to_string();
    assert!(!flags.stop_generation(&session));
    flags.begin(&session);
    assert!(!flags.should_stop(&session));
    assert!(flags.stop_generation(&session));
    assert!(flags.should_stop(&session));
    flags.finish(&session);
    assert!(!flags.stop_generation(&session));
}

#[test]
fn test_connection_response() {
    let ok = ConnectionResponse::ok();
    assert!(ok.success);
    assert!(ok.error.is_none());
    let err = ConnectionResponse::err("no such connection".to_string());
    assert!(!err.success);
    assert_eq!(err.error.as_deref(), Some("no such connection"));
}

#[test]
fn test_alias_config_key() {
    assert_eq!(get_alias_config_key("gemini_api_key"), "gemini");
    assert_eq!(get_alias_config_key("kiro"), "kiro");
}

#[test]
fn test_enabled_model_ids() {
    let models = vec![
        ModelInfo { id: "m1".to_string(), enabled: true },
        ModelInfo { id: "m2".to_string(), enabled: false },
        ModelInfo { id: "m3".to_string(), enabled: true },
    ];
    assert_eq!(enabled_model_ids(&models), vec!["m1".to_string(), "m3".to_string()]);
}
