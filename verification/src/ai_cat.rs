//! The cat's AI pulse: a cheap language model answers with the cat's mood,
//! a short thought and an aphorism for the banner. This module holds what
//! is done with the model's answer: unwrapping markdown, reading the mood,
//! cleaning the texts, and the retry schedule of the polling loop.

use vstd::prelude::*;
use crate::text;
use crate::text::{push_char, str_eq, strip_prefix, strip_suffix, to_lowercase, trim};

verus! {

/// The cat's mood: shifts the weights of its states.
#[derive(Debug, Clone, Copy, PartialEq, Eq, Structural)]
pub enum CatMood {
    Playful,
    Lazy,
    Hunty,
    Cozy,
}

/// The model's answer: mood, the cat's thought, the quote for the banner.
#[derive(Debug, Clone)]
pub struct AiPulse {
    pub mood: CatMood,
    pub thought: String,
    pub quote: String,
}

/// The mood named by an exact (already normalised) keyword.
pub open spec fn mood_of_keyword(k: Seq<char>) -> Option<CatMood> {
    if k == "playful"@ {
        Some(CatMood::Playful)
    } else if k == "lazy"@ {
        Some(CatMood::Lazy)
    } else if k == "hunty"@ {
        Some(CatMood::Hunty)
    } else if k == "cozy"@ {
        Some(CatMood::Cozy)
    } else {
        None
    }
}

/// What `CatMood::parse` answers for `s`: the keyword after trimming and
/// lower-casing.
pub open spec fn parse_mood_spec(s: Seq<char>) -> Option<CatMood> {
    mood_of_keyword(text::spec_to_lowercase(text::trim_seq(s)))
}

impl CatMood {
    /// The mood named exactly by `k` (lower case, no surrounding spaces).
    pub fn from_keyword(k: &str) -> (r: Option<CatMood>)
        ensures
            r == mood_of_keyword(k@),
    {
        if str_eq(k, "playful") {
            Some(CatMood::Playful)
        } else if str_eq(k, "lazy") {
            Some(CatMood::Lazy)
        } else if str_eq(k, "hunty") {
            Some(CatMood::Hunty)
        } else if str_eq(k, "cozy") {
            Some(CatMood::Cozy)
        } else {
            None
        }
    }

    /// Reads a mood from the model's answer, ignoring case and surrounding
    /// whitespace.
    pub fn parse(s: &str) -> (r: Option<CatMood>)
        ensures
            r == parse_mood_spec(s@),
    {
        let trimmed = trim(s);
        let lower = to_lowercase(trimmed);
        CatMood::from_keyword(lower.as_str())
    }
}

/// The answer with a markdown fence (```json ... ``` or ``` ... ```) removed.
pub open spec fn strip_markdown_spec(content: Seq<char>) -> Seq<char> {
    let trimmed = text::trim_seq(content);
    let without_open = match text::strip_prefix_seq(trimmed, "```json"@) {
        Some(rest) => rest,
        None => match text::strip_prefix_seq(trimmed, "```"@) {
            Some(rest) => rest,
            None => trimmed,
        },
    };
    let without_close = match text::strip_suffix_seq(without_open, "```"@) {
        Some(rest) => rest,
        None => without_open,
    };
    text::trim_seq(without_close)
}

/// Cuts the markdown wrapper ```json ... ``` if the model added one.
pub fn strip_markdown(content: &str) -> (r: &str)
    ensures
        r@ == strip_markdown_spec(content@),
{
    let trimmed = trim(content);
    let without_open = match strip_prefix(trimmed, "```json") {
        Some(rest) => rest,
        None => match strip_prefix(trimmed, "```") {
            Some(rest) => rest,
            None => trimmed,
        },
    };
    let without_close = match strip_suffix(without_open, "```") {
        Some(rest) => rest,
        None => without_open,
    };
    trim(without_close)
}

/// Characters the banner cannot show: quotes and braces.
pub open spec fn is_banned_char(c: char) -> bool {
    c == '"' || c == '{' || c == '}'
}

/// `s` with every banned character removed.
pub open spec fn drop_banned(s: Seq<char>) -> Seq<char>
    decreases s.len(),
{
    if s.len() == 0 {
        s
    } else if is_banned_char(s.last()) {
        drop_banned(s.drop_last())
    } else {
        drop_banned(s.drop_last()).push(s.last())
    }
}

/// The first `limit` characters of `s` (all of them if `s` is shorter),
/// without quotes and braces.
pub open spec fn clean_text_spec(s: Seq<char>, limit: nat) -> Seq<char> {
    drop_banned(if limit < s.len() { s.take(limit as int) } else { s })
}

proof fn lemma_drop_banned_props(s: Seq<char>)
    ensures
        drop_banned(s).len() <= s.len(),
        forall|k: int| 0 <= k < drop_banned(s).len() ==> !is_banned_char(#[trigger] drop_banned(s)[k]),
    decreases s.len(),
{
    if s.len() > 0 {
        lemma_drop_banned_props(s.drop_last());
    }
}

/// A cleaned text fits its limit and holds no quote or brace, so it can be
/// shown on the banner as is.
pub proof fn lemma_clean_text_fits_banner(s: Seq<char>, limit: nat)
    ensures
        clean_text_spec(s, limit).len() <= limit,
        forall|k: int|
            0 <= k < clean_text_spec(s, limit).len() ==> !is_banned_char(
                #[trigger] clean_text_spec(s, limit)[k],
            ),
{
    lemma_drop_banned_props(if limit < s.len() { s.take(limit as int) } else { s });
}

/// Keeps at most `limit` characters of `s` and removes `"`, `{` and `}`.
pub fn clean_text(s: &str, limit: usize) -> (r: String)
    ensures
        r@ == clean_text_spec(s@, limit as nat),
{
    let n = s.unicode_len();
    let end = if limit < n { limit } else { n };
    let mut r = String::new();
    let mut i: usize = 0;
    while i < end
        invariant
            n == s@.len(),
            end <= n,
            end == (if limit < n { limit } else { n }),
            i <= end,
            r@ == drop_banned(s@.take(i as int)),
        decreases end - i,
    {
        let c = s.get_char(i);
        assert(s@.take(i as int + 1).drop_last() =~= s@.take(i as int));
        if !(c == '"' || c == '{' || c == '}') {
            push_char(&mut r, c);
        }
        i = i + 1;
    }
    assert(s@.take(end as int) =~= (if limit < n { s@.take(limit as int) } else { s@ }));
    r
}

/// Longest thought kept from the model's answer.
pub const THOUGHT_LIMIT: usize = 38;

/// Longest quote kept from the model's answer.
pub const QUOTE_LIMIT: usize = 64;

/// Builds the pulse from the three fields of the model's JSON answer:
/// the texts are cut and cleaned, and an unknown mood discards the answer.
pub fn pulse_from_fields(mood: &str, thought: &str, quote: &str) -> (r: Option<AiPulse>)
    ensures
        r is Some <==> parse_mood_spec(mood@) is Some,
        r matches Some(p) ==> {
            &&& Some(p.mood) == parse_mood_spec(mood@)
            &&& p.thought@ == clean_text_spec(thought@, THOUGHT_LIMIT as nat)
            &&& p.quote@ == clean_text_spec(quote@, QUOTE_LIMIT as nat)
        },
{
    let thought = clean_text(thought, THOUGHT_LIMIT);
    let quote = clean_text(quote, QUOTE_LIMIT);
    match CatMood::parse(mood) {
        Some(m) => Some(AiPulse { mood: m, thought, quote }),
        None => None,
    }
}

/// The scene is worth asking about once the city or the weather is known.
pub fn scene_known(city: &str, condition: &str) -> (r: bool)
    ensures
        r == (city@.len() > 0 || condition@.len() > 0),
{
    city.unicode_len() > 0 || condition.unicode_len() > 0
}

/// Seconds until the next question: a failed request is retried after a
/// minute, a successful one waits for the poll period but at least 5 minutes.
pub fn pulse_retry_delay(ok: bool, poll_secs: u64) -> (r: u64)
    ensures
        ok ==> r == (if poll_secs < 300 { 300 } else { poll_secs }),
        !ok ==> r == 60,
{
    if ok {
        if poll_secs < 300 {
            300
        } else {
            poll_secs
        }
    } else {
        60
    }
}

/// What the cat is told about the world before it answers.
pub open spec fn prompt_spec(
    city: Seq<char>,
    time: Seq<char>,
    date: Seq<char>,
    is_day: bool,
    condition: Seq<char>,
    temperature: Seq<char>,
) -> Seq<char> {
    "Ты - рыжий кот, живущий во дворе дома на ASCII-скринсейвере в городе "@ + city
        + ". Сейчас "@ + time + ", "@ + date + ", "@ + (if is_day {
        "день"@
    } else {
        "ночь"@
    }) + ". Погода: "@ + condition + ", "@ + temperature
        + "°C. Ответь СТРОГО одним JSON-объектом без пояснений и markdown: {\"mood\":\"одно из: playful, lazy, hunty, cozy\",\"thought\":\"короткая мысль кота от первого лица, до 35 символов, по-русски, без кавычек внутри\",\"quote\":\"короткий житейский афоризм до 60 символов по-русски, без кавычек внутри\"}"@
}

/// The prompt for the model: the cat's city, the local time ("HH:MM") and
/// date ("DD.MM"), day or night, the weather and the temperature in whole
/// degrees, and the answer's required JSON form.
pub fn build_prompt(
    city: &str,
    time: &str,
    date: &str,
    is_day: bool,
    condition: &str,
    temperature: &str,
) -> (r: String)
    ensures
        r@ == prompt_spec(city@, time@, date@, is_day, condition@, temperature@),
{
    let mut r = String::from_str(
        "Ты - рыжий кот, живущий во дворе дома на ASCII-скринсейвере в городе ",
    );
    r.append(city);
    r.append(". Сейчас ");
    r.append(time);
    r.append(", ");
    r.append(date);
    r.append(", ");
    r.append(
        if is_day {
            "день"
        } else {
            "ночь"
        },
    );
    r.append(". Погода: ");
    r.append(condition);
    r.append(", ");
    r.append(temperature);
    r.append(
        "°C. Ответь СТРОГО одним JSON-объектом без пояснений и markdown: {\"mood\":\"одно из: playful, lazy, hunty, cozy\",\"thought\":\"короткая мысль кота от первого лица, до 35 символов, по-русски, без кавычек внутри\",\"quote\":\"короткий житейский афоризм до 60 символов по-русски, без кавычек внутри\"}",
    );
    r
}

} // verus!
