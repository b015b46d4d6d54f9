use hermit_bot::services::{get_meme, joke_reply, meme_reply, JokeApi, MemeApi, JOKE_API, MEME_API};

fn meme(url: &str, preview: &[&str]) -> MemeApi {
    MemeApi {
        title: "a meme".to_string(),
        url: url.to_string(),
        preview: preview.iter().map(|p| p.to_string()).collect(),
    }
}

#[test]
fn meme_shows_the_largest_preview() {
    let m = meme("https://i.redd.it/full.png", &["https://p/small", "https://p/medium", "https://p/large"]);
    assert_eq!(m.image_url(), "https://p/large");
}

#[test]
fn meme_without_preview_shows_the_picture() {
    let m = meme("https://i.redd.it/full.png", &[]);
    assert_eq!(m.image_url(), "https://i.redd.it/full.png");
}

#[test]
fn get_meme_passes_errors_on() {
    let fetched: Result<MemeApi, String> = Err("no network".to_string());
    assert_eq!(get_meme(fetched), Err("no network".to_string()));
    let fetched: Result<MemeApi, String> = Ok(meme("u", &["p"]));
    assert_eq!(get_meme(fetched), Ok("p".to_string()));
}

#[test]
fn service_addresses() {
    assert_eq!(JOKE_API, "https://v2.jokeapi.dev/joke/Any?format=json&type=single&lang=en&amount=1");
    assert_eq!(MEME_API, "https://meme-api.com/gimme");
}

#[test]
fn joke_holds_its_fields() {
    let j = JokeApi { id: 3, category: "Pun".to_string(), joke: "A pun.".to_string() };
    let k = j.clone();
    assert_eq!(k.id, 3);
    assert_eq!(k.category, "Pun");
    assert_eq!(k.joke, "A pun.");
}

#[test]
fn joke_says_the_joke_or_nothing() {
    let j = JokeApi { id: 1, category: "Misc".to_string(), joke: "Why?".to_string() };
    assert_eq!(joke_reply::<String>(Ok(j)), Some("Why?".to_string()));
    assert_eq!(joke_reply::<String>(Err("down".to_string())), None);
}

#[test]
fn meme_shows_the_picture_or_nothing() {
    assert_eq!(meme_reply::<String>(Ok("https://p".to_string())), Some("https://p".to_string()));
    assert_eq!(meme_reply::<String>(Err("down".to_string())), None);
}
