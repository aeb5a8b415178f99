use thenbot::uwu::uwu;
use thenbot::uwu::owo;
use thenbot::uwu::uvu;
use thenbot::uwu::uwuify;
use thenbot::uwu::uwu_embed;
use thenbot::uwu::level_description;
use thenbot::uwu::UwuLevel;

const SOURCE: &str = "Hello World! This is the string to owo! Kinda cute, isn't it?";

#[test]
fn uwuify_answers_hehe() {
    assert_eq!(uwuify(), "hehe");
}

#[test]
fn level_descriptions_name_the_level() {
    assert_eq!(level_description(UwuLevel::Owo), "type: Owo");
    assert_eq!(level_description(UwuLevel::Uwu), "type: Uwu");
    assert_eq!(level_description(UwuLevel::Uvu), "type: Uvu");
}

#[test]
fn uwu_embed_shows_both_texts() {
    let r = uwu_embed("hello", "hewwo".to_string(), UwuLevel::Uwu);
    assert_eq!(r.name, "hello");
    assert_eq!(r.value, "hewwo");
    assert_eq!(r.description, "type: Uwu");
}

#[test]
fn uwu_commands_owoify_the_text() {
    let r = uwu(SOURCE);
    assert_eq!(r.name, SOURCE);
    assert_eq!(r.description, "type: Owo");
    assert_ne!(r.value, SOURCE);
    assert!(!r.value.is_empty());
    let r = owo(SOURCE);
    assert_eq!(r.description, "type: Uwu");
    assert_ne!(r.value, SOURCE);
    let r = uvu(SOURCE);
    assert_eq!(r.description, "type: Uvu");
    assert_ne!(r.value, SOURCE);
}
