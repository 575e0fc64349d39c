//! Random references and bookmarks, for tests and demonstrations.

use crate::bookmark::YtBookMark;
use crate::error::DomainError;
use crate::parts::url_parse;
use crate::youtube_url::{canonical_url, validate, verdict_view, YoutubeUrl};
use fake::{Fake, Faker, StringFaker};
use rand::rngs::StdRng;
use vstd::prelude::*;

verus! {

/// `rand::rngs::StdRng`, the random source that the generators draw from. A
/// caller seeds it to get the same values again.
#[verifier::external_type_specification]
#[verifier::external_body]
pub struct ExStdRng(StdRng);

/// The length of a generated video id.
pub const ID_LEN: usize = 11;

/// The symbols of a generated video id: digits, letters of either case, and
/// the underscore.
pub open spec fn is_id_char(c: char) -> bool {
    ||| '0' <= c <= '9'
    ||| 'a' <= c <= 'z'
    ||| 'A' <= c <= 'Z'
    ||| c == '_'
}

/// The bytes from `first` to `last`, ascending.
pub open spec fn byte_range(first: u8, last: u8) -> Seq<u8> {
    Seq::new((last - first + 1) as nat, |i: int| (first + i) as u8)
}

/// The symbols of a generated video id as bytes, in the order in which the
/// generator indexes them.
pub open spec fn id_charset() -> Seq<u8> {
    byte_range('0' as u8, '9' as u8) + byte_range('a' as u8, 'z' as u8) + byte_range(
        'A' as u8,
        'Z' as u8,
    ) + seq!['_' as u8]
}

/// The characters whose codes are the bytes of `bytes`, in order.
pub open spec fn chars_of(bytes: Seq<u8>) -> Seq<char> {
    Seq::new(bytes.len(), |j: int| bytes[j] as char)
}

/// What holds of every generated video id.
pub open spec fn is_generated_id(id: Seq<char>) -> bool {
    &&& id.len() == ID_LEN
    &&& forall|i: int| 0 <= i < id.len() ==> is_id_char(#[trigger] id[i])
}

/// The charset holds every symbol of a video id, and nothing else.
pub proof fn lemma_id_charset_is_the_alphabet()
    ensures
        forall|c: char| chars_of(id_charset()).contains(c) <==> is_id_char(c),
{
    let symbols = chars_of(id_charset());
    assert forall|c: char| is_id_char(c) implies symbols.contains(c) by {
        let j = if '0' <= c <= '9' {
            c as int - '0' as int
        } else if 'a' <= c <= 'z' {
            10 + c as int - 'a' as int
        } else if 'A' <= c <= 'Z' {
            36 + c as int - 'A' as int
        } else {
            62
        };
        assert(symbols[j] == c);
    }
}

/// Appends the bytes from `first` to `last` to `set`.
fn push_byte_range(set: &mut Vec<u8>, first: u8, last: u8)
    requires
        first <= last,
    ensures
        final(set)@ == old(set)@ + byte_range(first, last),
{
    let mut b: u8 = first;
    while b < last
        invariant
            first <= b <= last,
            set@ == old(set)@ + byte_range(first, last).take(b - first),
        decreases last - b,
    {
        set.push(b);
        b = b + 1;
    }
    set.push(b);
}

/// Builds the charset that video ids are drawn from.
pub fn id_charset_bytes() -> (set: Vec<u8>)
    ensures
        set@ == id_charset(),
{
    let mut set: Vec<u8> = Vec::new();
    push_byte_range(&mut set, '0' as u8, '9' as u8);
    push_byte_range(&mut set, 'a' as u8, 'z' as u8);
    push_byte_range(&mut set, 'A' as u8, 'Z' as u8);
    set.push('_' as u8);
    set
}

/// Calls `fake::StringFaker::with(charset, len)` and draws one `String` from
/// it with `fake::Fake::fake_with_rng`.
///
/// The faker picks `len` bytes of `charset`, each at a position that `rng`
/// chooses, and turns each byte into the character with that code. Of an
/// empty charset it makes the empty string. Which positions are picked is
/// not stated, and nothing is stated of `rng` afterwards.
#[verifier::external_body]
fn fake_string(charset: Vec<u8>, len: usize, rng: &mut StdRng) -> (text: String)
    ensures
        text@.len() == (if charset@.len() > 0 {
            len as nat
        } else {
            0
        }),
        forall|i: int| 0 <= i < text@.len() ==> chars_of(charset@).contains(#[trigger] text@[i]),
{
    StringFaker::with(charset, len).fake_with_rng::<String, StdRng>(rng)
}

/// Draws a list of strings from `fake::Faker` with `fake::Fake::fake_with_rng`.
/// Nothing is stated of the list.
#[verifier::external_body]
fn fake_tags(rng: &mut StdRng) -> (tags: Vec<String>) {
    Faker.fake_with_rng::<Vec<String>, StdRng>(rng)
}

/// Draws a video id from `rng`.
pub fn generate_video_id(rng: &mut StdRng) -> (id: String)
    ensures
        is_generated_id(id@),
{
    let charset = id_charset_bytes();
    proof {
        lemma_id_charset_is_the_alphabet();
    }
    fake_string(charset, ID_LEN, rng)
}

impl YoutubeUrl {
    /// Spells out the canonical URL of the video `id` and validates it.
    pub fn from_video_id(id: &str) -> (verdict: Result<YoutubeUrl, DomainError>)
        ensures
            verdict_view(verdict) == validate(url_parse(canonical_url(id@))),
    {
        let mut text = String::from_str("https://www.youtube.com/watch?v=");
        text.append(id);
        YoutubeUrl::try_from(text)
    }

    /// Draws a video id from `rng` and validates its canonical URL. Whatever
    /// id was drawn, the outcome is the verdict on that URL.
    pub fn dummy_with_rng(rng: &mut StdRng) -> (verdict: Result<YoutubeUrl, DomainError>)
        ensures
            exists|id: Seq<char>|
                #[trigger] is_generated_id(id) && verdict_view(verdict) == validate(
                    url_parse(canonical_url(id)),
                ),
    {
        let id = generate_video_id(rng);
        YoutubeUrl::from_video_id(id.as_str())
    }
}

impl YtBookMark {
    /// Draws a reference as [`YoutubeUrl::dummy_with_rng`] does, then a list
    /// of tags, and puts them together. A refused reference is passed on.
    pub fn dummy_with_rng(rng: &mut StdRng) -> (created: Result<YtBookMark, DomainError>)
        ensures
            exists|id: Seq<char>|
                #[trigger] is_generated_id(id) && validate(url_parse(canonical_url(id))) == (
                match created {
                    Ok(bookmark) => Ok::<Seq<char>, DomainError>(bookmark@.video_id),
                    Err(e) => Err(e),
                }),
    {
        match YoutubeUrl::dummy_with_rng(rng) {
            Ok(url) => Ok(YtBookMark { url, tags: fake_tags(rng) }),
            Err(e) => Err(e),
        }
    }
}

} // verus!
