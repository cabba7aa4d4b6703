use weathr::ai_cat::{build_prompt, pulse_from_fields, pulse_retry_delay, scene_known, strip_markdown, CatMood};

#[test]
fn test_strip_markdown() {
    assert_eq!(strip_markdown("```json\n{\"a\":1}\n```"), "{\"a\":1}");
    assert_eq!(strip_markdown("{\"a\":1}"), "{\"a\":1}");
}

#[test]
fn test_mood_parse() {
    assert_eq!(CatMood::parse("Lazy"), Some(CatMood::Lazy));
    assert_eq!(CatMood::parse("weird"), None);
}

#[test]
fn mood_parse_ignores_case_and_spaces() {
    assert_eq!(CatMood::parse("  PLAYFUL\n"), Some(CatMood::Playful));
    assert_eq!(CatMood::parse("hunty"), Some(CatMood::Hunty));
    assert_eq!(CatMood::parse("Cozy "), Some(CatMood::Cozy));
    assert_eq!(CatMood::parse(""), None);
    assert_eq!(CatMood::from_keyword("Lazy"), None);
    assert_eq!(CatMood::from_keyword("lazy"), Some(CatMood::Lazy));
}

#[test]
fn strip_markdown_variants() {
    assert_eq!(strip_markdown("  ```\n{}\n```  "), "{}");
    assert_eq!(strip_markdown("```json{\"m\":2}"), "{\"m\":2}");
    assert_eq!(strip_markdown("{\"m\":3}```"), "{\"m\":3}");
    assert_eq!(strip_markdown(""), "");
}

#[test]
fn pulse_cleans_and_cuts_texts() {
    let p = pulse_from_fields("Lazy", "\"мур\" {мяу}", "q").unwrap();
    assert_eq!(p.mood, CatMood::Lazy);
    assert_eq!(p.thought, "мур мяу");
    assert_eq!(p.quote, "q");
    let long: String = std::iter::repeat('ж').take(100).collect();
    let p = pulse_from_fields("cozy", &long, &long).unwrap();
    assert_eq!(p.thought.chars().count(), 38);
    assert_eq!(p.quote.chars().count(), 64);
    assert!(pulse_from_fields("angry", "a", "b").is_none());
}

#[test]
fn pulse_schedule_and_scene() {
    assert_eq!(pulse_retry_delay(false, 3600), 60);
    assert_eq!(pulse_retry_delay(true, 100), 300);
    assert_eq!(pulse_retry_delay(true, 900), 900);
    assert!(scene_known("Москва", ""));
    assert!(scene_known("", "Ясно"));
    assert!(!scene_known("", ""));
}

#[test]
fn prompt_tells_the_cat_about_the_world() {
    let p = build_prompt("Москва", "21:30", "09.05", false, "Ясно", "12");
    assert!(p.starts_with(
        "Ты - рыжий кот, живущий во дворе дома на ASCII-скринсейвере в городе Москва. \
         Сейчас 21:30, 09.05, ночь. Погода: Ясно, 12°C. Ответь СТРОГО"
    ));
    assert!(p.contains("{\"mood\":\"одно из: playful, lazy, hunty, cozy\","));
    assert!(p.ends_with("без кавычек внутри\"}"));
    let day = build_prompt("Тверь", "12:00", "01.06", true, "Дождь", "-3");
    assert!(day.contains("в городе Тверь. Сейчас 12:00, 01.06, день. Погода: Дождь, -3°C."));
}
