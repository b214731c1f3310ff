use necromanzer::log::{Color, Log};

const WHITE: Color = Color { r: 255, g: 255, b: 255, a: 255 };
const RED: Color = Color { r: 255, g: 0, b: 0, a: 255 };

#[test]
fn log_keeps_the_five_newest_messages() {
    let mut log = Log::new();
    assert!(!log.same_message(&"one".to_string()));
    for m in ["one", "two", "three", "four", "five", "six", "seven"] {
        log.log(m, WHITE);
    }
    assert_eq!(Log::TEXTS_LIMIT, log.texts.len());
    let texts: Vec<&str> = log.texts.iter().map(|t| t.text.as_str()).collect();
    assert_eq!(vec!["seven", "six", "five", "four", "three"], texts);
    log.log("eight", RED);
    assert_eq!(RED, log.texts[0].color);
    assert_eq!(WHITE, log.texts[1].color);
    assert!(log.same_message(&"eight".to_string()));
    assert!(!log.same_message(&"seven".to_string()));
    log.clear();
    assert!(log.texts.is_empty());
    assert!(!log.same_message(&"eight".to_string()));
}
