use sprite_ecs::cache::{Cache, MemoryCache};
use sprite_ecs::config::{Application, Configurable};
use sprite_ecs::crypto::{base64_encode, CryptoError, Encryptable, Message, SimpleKey};
use sprite_ecs::events::EventEmitter;
use sprite_ecs::logging::{level_name, log_line, LogLevel};
use sprite_ecs::processing::{NumberProcessor, Processable, TextProcessor};
use sprite_ecs::repository::User;
use sprite_ecs::serialization::Serializable;
use sprite_ecs::text::to_decimal;
use sprite_ecs::validation::{has_char, Email, EmailError, Validator};
use sprite_ecs::widgets::{Button, Drawable, Image};

#[test]
fn email_with_at_and_dot_is_valid() {
    let email = Email("user@example.com".to_string());
    assert_eq!(email.validate(), Ok(()));
    assert!(email.is_valid());
}

#[test]
fn email_faults_come_in_order() {
    assert_eq!(Email(String::new()).validate(), Err(EmailError::Empty));
    assert_eq!(Email("invalid-email".to_string()).validate(), Err(EmailError::NoAtSymbol));
    assert_eq!(Email("invalid.email".to_string()).validate(), Err(EmailError::NoAtSymbol));
    assert_eq!(Email("user@example".to_string()).validate(), Err(EmailError::InvalidFormat));
    assert!(!Email("user@example".to_string()).is_valid());
    assert!(Email("@.".to_string()).is_valid());
}

#[test]
fn has_char_finds_any_position() {
    assert!(has_char("a@b", '@'));
    assert!(has_char("@", '@'));
    assert!(has_char("ab.", '.'));
    assert!(!has_char("", '@'));
    assert!(!has_char("abc", '@'));
    assert!(has_char("h\u{e9}llo w\u{f6}rld.", '.'));
}

#[test]
fn text_processor_uppercases() {
    assert_eq!(TextProcessor.process("hello".to_string()), Ok("HELLO".to_string()));
    assert_eq!(TextProcessor.process("stra\u{df}e".to_string()), Ok("STRASSE".to_string()));
    assert_eq!(TextProcessor.process(String::new()), Err("Empty input".to_string()));
}

#[test]
fn number_processor_doubles() {
    assert_eq!(NumberProcessor.process(5), Ok(10));
    assert_eq!(NumberProcessor.process(0), Ok(0));
    assert_eq!(NumberProcessor.process(i32::MAX / 2), Ok(i32::MAX - 1));
    assert_eq!(NumberProcessor.process(-3), Err("Negative number".to_string()));
}

#[test]
fn batches_keep_order_and_failures() {
    let texts = vec!["hello".to_string(), "world".to_string(), String::new()];
    assert_eq!(
        TextProcessor.process_batch(texts),
        vec![Ok("HELLO".to_string()), Ok("WORLD".to_string()), Err("Empty input".to_string())]
    );
    assert_eq!(
        NumberProcessor.process_batch(vec![5, -3, 10, 0]),
        vec![Ok(10), Err("Negative number".to_string()), Ok(20), Ok(0)]
    );
    assert!(NumberProcessor.process_batch(Vec::new()).is_empty());
}

#[test]
fn base64_stand_in_counts_bytes() {
    assert_eq!(base64_encode(&[]), "base64_encoded_0_bytes");
    assert_eq!(base64_encode(&[1, 2, 3]), "base64_encoded_3_bytes");
    assert_eq!(base64_encode(&[0; 14]), "base64_encoded_14_bytes");
    assert_eq!(base64_encode(&[7; 1205]), "base64_encoded_1205_bytes");
}

#[test]
fn message_is_masked_with_first_key_byte() {
    let message = Message("AB".to_string());
    let key = SimpleKey("mykey".to_string());
    assert_eq!(message.encrypt(&key), Ok(vec![b'A' ^ b'm', b'B' ^ b'm']));
    assert_eq!(message.encrypt(&SimpleKey(String::new())), Ok(vec![b'A', b'B']));
    assert_eq!(message.encrypt_to_string(&key), Ok("base64_encoded_2_bytes".to_string()));
}

#[test]
fn decrypt_undoes_encrypt() {
    let key = SimpleKey("mykey".to_string());
    for text in ["Secret Message", "", "gr\u{fc}\u{df}e \u{2603}"] {
        let encrypted = Message(text.to_string()).encrypt(&key).unwrap();
        let decrypted: Result<Message, CryptoError> = Message::decrypt(&encrypted, &key);
        assert_eq!(decrypted.unwrap().0, text);
    }
}

#[test]
fn decrypt_replaces_invalid_bytes() {
    let key = SimpleKey(String::new());
    let decrypted = Message::decrypt(&[b'a', 0xff, b'b'], &key).unwrap();
    assert_eq!(decrypted.0, "a\u{fffd}b");
    let masked = Message::decrypt(&[b'a' ^ b'k', b'b' ^ b'k'], &SimpleKey("k".to_string())).unwrap();
    assert_eq!(masked.0, "ab");
}

#[test]
fn cache_stores_and_forgets() {
    let mut cache: MemoryCache<u64, String> = MemoryCache::new();
    assert!(!cache.contains_key(&1));
    cache.put(1, "John Doe".to_string());
    cache.put(2, "Jane Smith".to_string());
    cache.put(1, "John Roe".to_string());
    assert!(cache.contains_key(&1));
    assert_eq!(cache.get(&1), Some(&"John Roe".to_string()));
    assert_eq!(cache.get(&3), None);
    assert_eq!(cache.remove(&1), Some("John Roe".to_string()));
    assert_eq!(cache.remove(&1), None);
    assert_eq!(cache.get(&1), None);
    assert!(cache.contains_key(&2));
    cache.clear();
    assert!(!cache.contains_key(&2));
}

#[test]
fn cache_takes_text_keys() {
    let mut cache: MemoryCache<String, String> = MemoryCache::new();
    cache.put("user:1".to_string(), "John Doe".to_string());
    assert!(cache.contains_key(&"user:1".to_string()));
    assert_eq!(cache.get(&"user:3".to_string()), None);
}

#[test]
fn settings_are_set_read_and_loaded() {
    let mut app = Application::new();
    assert_eq!(app.get_config("port"), None);
    app.set_config("app_name", "MyApp".to_string());
    app.set_config("version", "1.0.0".to_string());
    assert_eq!(app.get_config_or_default("app_name", "Unknown"), "MyApp");
    assert_eq!(app.get_config_or_default("port", "3000"), "3000");
    app.set_config("port", "1234".to_string());
    assert_eq!(app.load_from_file("config.json"), Ok(()));
    assert_eq!(app.get_config_or_default("debug", "false"), "true");
    assert_eq!(app.get_config_or_default("port", "3000"), "8080");
    assert_eq!(app.get_config("app_name"), Some(&"MyApp".to_string()));
}

#[test]
fn emitter_keeps_its_name() {
    let emitter: EventEmitter<i32> = EventEmitter::new("SystemEvents");
    assert_eq!(emitter.name(), "SystemEvents");
    let other: EventEmitter<&'static str> = EventEmitter::new("");
    assert_eq!(other.name(), "");
}

#[test]
fn log_lines_name_the_level() {
    assert_eq!(log_line(LogLevel::Info, "Application started"), "[Info] Application started\n");
    assert_eq!(log_line(LogLevel::Warn, ""), "[Warn] \n");
    assert_eq!(log_line(LogLevel::Error, "x"), "[Error] x\n");
    assert_eq!(level_name(LogLevel::Warn), "Warn");
}

#[test]
fn numbers_are_written_in_decimal() {
    assert_eq!(to_decimal(0), "0");
    assert_eq!(to_decimal(7), "7");
    assert_eq!(to_decimal(10), "10");
    assert_eq!(to_decimal(1205), "1205");
    assert_eq!(to_decimal(9_876_543_210), "9876543210");
    assert_eq!(to_decimal(u64::MAX), "18446744073709551615");
}

#[test]
fn user_is_written_as_json() {
    let user = User { name: "John Doe".to_string(), age: 30 };
    assert_eq!(user.to_json(), "{\"name\": \"John Doe\", \"age\": 30}");
    assert_eq!(user.to_bytes(), user.to_json().into_bytes());
    assert_eq!(user.to_bytes().len(), 31);
    let empty = User { name: String::new(), age: 0 };
    assert_eq!(empty.to_json(), "{\"name\": \"\", \"age\": 0}");
}

#[test]
fn parsed_user_is_always_the_same() {
    let parsed = User::from_json("{\"name\": \"Jane\", \"age\": 25}").unwrap();
    assert_eq!((parsed.name.as_str(), parsed.age), ("Parsed User", 25));
    let other = User::from_json("").unwrap();
    assert_eq!((other.name.as_str(), other.age), ("Parsed User", 25));
}

#[test]
fn widgets_say_how_they_are_drawn() {
    let mut button = Button { text: "Click Me".to_string(), color: "blue".to_string() };
    assert_eq!(button.draw(), "Drawing button: Click Me (blue)");
    button.set_color("red");
    assert_eq!(button.draw(), "Drawing button: Click Me (red)");
    let mut image = Image { path: "/path/to/image.png".to_string(), color: "transparent".to_string() };
    assert_eq!(image.draw(), "Drawing image: /path/to/image.png (transparent)");
    image.set_color("sepia");
    assert_eq!(image.draw(), "Drawing image: /path/to/image.png (sepia)");
    assert_eq!(image.path, "/path/to/image.png");
}
