//! The joke and meme web services: where they are, what they answer, and
//! which picture of a meme the bot shows.
use vstd::prelude::*;

verus! {

/// The JokeAPI request for one single-part joke in English, as JSON.
pub const JOKE_API: &'static str = "https://v2.jokeapi.dev/joke/Any?format=json&type=single&lang=en&amount=1";

/// The meme service's request for one random meme, as JSON.
pub const MEME_API: &'static str = "https://meme-api.com/gimme";

/// A joke as JokeAPI answers it.
#[derive(Debug, Clone)]
pub struct JokeApi {
    pub id: usize,
    pub category: String,
    pub joke: String,
}

/// A meme as the meme service answers it: its title, the URL of the full
/// picture, and URLs of previews from the smallest to the largest.
#[derive(Debug, Clone)]
pub struct MemeApi {
    pub title: String,
    pub url: String,
    pub preview: Vec<String>,
}

/// The picture the bot shows for a meme: the last (largest) preview when
/// there is one, the full picture otherwise.
pub open spec fn meme_image_of(meme: MemeApi) -> Seq<char> {
    if meme.preview@.len() > 0 {
        meme.preview@.last()@
    } else {
        meme.url@
    }
}

impl MemeApi {
    /// The picture the bot shows for this meme.
    pub fn image_url(self) -> (r: String)
        ensures
            r@ == meme_image_of(self),
            self.preview@.len() > 0 ==> r@ == self.preview@[self.preview@.len() - 1]@,
            self.preview@.len() == 0 ==> r@ == self.url@,
    {
        let mut meme = self;
        match meme.preview.pop() {
            Some(url) => url,
            None => meme.url,
        }
    }
}

/// A preview added after all others is the one shown, however many
/// previews came before it.
pub proof fn lemma_added_preview_is_shown(before: MemeApi, after: MemeApi, added: String)
    requires
        after.preview@ == before.preview@.push(added),
    ensures
        meme_image_of(after) == added@,
{
}

/// A meme without previews shows its full picture.
pub proof fn lemma_no_preview_shows_picture(meme: MemeApi)
    requires
        meme.preview@.len() == 0,
    ensures
        meme_image_of(meme) == meme.url@,
{
}

/// The picture to show for what the meme service answered: the meme's
/// picture when it answered with a meme, its error unchanged otherwise.
pub fn get_meme<E>(fetched: Result<MemeApi, E>) -> (r: Result<String, E>)
    ensures
        match fetched {
            Ok(meme) => r matches Ok(url) && url@ == meme_image_of(meme) && (meme.preview@.len() > 0
                ==> url@ == meme.preview@[meme.preview@.len() - 1]@) && (meme.preview@.len() == 0
                ==> url@ == meme.url@),
            Err(e) => r matches Err(e2) && e2 == e,
        },
{
    match fetched {
        Ok(meme) => Ok(meme.image_url()),
        Err(e) => Err(e),
    }
}

/// What `joke` says after asking JokeAPI: the joke when it answered with
/// one, nothing when the request failed (the failure is only logged).
pub fn joke_reply<E>(fetched: Result<JokeApi, E>) -> (r: Option<String>)
    ensures
        match fetched {
            Ok(j) => r == Some(j.joke),
            Err(_) => r is None,
        },
{
    match fetched {
        Ok(j) => Some(j.joke),
        Err(_) => None,
    }
}

/// What `meme` shows after asking for a meme's picture: the picture when
/// there is one, nothing when the request failed (the failure is only logged).
pub fn meme_reply<E>(fetched: Result<String, E>) -> (r: Option<String>)
    ensures
        match fetched {
            Ok(url) => r == Some(url),
            Err(_) => r is None,
        },
{
    match fetched {
        Ok(url) => Some(url),
        Err(_) => None,
    }
}

} // verus!
