//! What is sent out for a response. A response may carry an image, written
//! as `{{IMAGE|` and base64 text and `}}`; the image is taken out of the text
//! and sent beside it where the destination can show one.

use crate::bot::Bot;
use crate::models::Source;
use vstd::prelude::*;

verus! {

/// The pattern of an image inside a response.
pub const IMAGE_PATTERN: &'static str = "\\{\\{IMAGE\\|(.*?)}}";

/// What a chat that shows no images is told instead.
pub const NO_IMAGE_NOTE: &'static str = " (only works in discord)";

#[verifier::external_type_specification]
#[verifier::external_body]
pub struct ExDecodeError(base64::DecodeError);

/// What the first match of a pattern in a text gives: the text before the
/// match, the first group of the match, and the text behind the match.
pub uninterp spec fn first_capture(pattern: Seq<char>, text: Seq<char>) -> Option<
    (Seq<char>, Seq<char>, Seq<char>),
>;

/// The bytes that a base64 text stands for, if it is one.
pub uninterp spec fn base64_decoded(input: Seq<char>) -> Option<Seq<u8>>;

/// The three texts of a capture.
pub open spec fn capture_view(found: Option<(String, String, String)>) -> Option<
    (Seq<char>, Seq<char>, Seq<char>),
> {
    match found {
        Some((before, group, after)) => Some((before@, group@, after@)),
        None => None,
    }
}

/// `regex::Regex::new` and `regex::Regex::captures`: the first match of
/// `pattern` in `text`, as the text before it, its first group and the text
/// behind it. There is none where nothing matches, where the pattern is no
/// regular expression, or where it has no first group. The result is named,
/// not spelled out.
#[verifier::external_body]
fn capture(pattern: &str, text: &str) -> (r: Option<(String, String, String)>)
    ensures
        capture_view(r) == first_capture(pattern@, text@),
{
    let found = regex::Regex::new(pattern).ok()?.captures(text)?;
    let all = found.get(0)?;
    let group = found.get(1)?;
    Some(
        (
            text[..all.start()].to_string(),
            group.as_str().to_string(),
            text[all.end()..].to_string(),
        ),
    )
}

/// `base64::decode`: the bytes that the text stands for in the standard
/// alphabet, or the error that says why it stands for none. The result is
/// named, not spelled out.
#[verifier::external_body]
fn decode(input: &str) -> (r: Result<Vec<u8>, base64::DecodeError>)
    ensures
        match base64_decoded(input@) {
            Some(bytes) => r is Ok && r->Ok_0@ == bytes,
            None => r is Err,
        },
{
    base64::decode(input)
}

/// What is to be sent, and how.
#[derive(Debug, PartialEq, Eq)]
pub enum Delivery {
    /// Nothing is sent.
    Nothing,
    /// The text is printed on the console.
    Print(String),
    /// The text is said in the chat that shows no images.
    Chat(String),
    /// The text is posted, with the image beside it if there is one.
    Post(String, Option<Vec<u8>>),
}

/// A delivery as plain values.
pub enum DeliveryView {
    Nothing,
    Print(Seq<char>),
    Chat(Seq<char>),
    Post(Seq<char>, Option<Seq<u8>>),
}

impl View for Delivery {
    type V = DeliveryView;

    open spec fn view(&self) -> DeliveryView {
        match self {
            Delivery::Nothing => DeliveryView::Nothing,
            Delivery::Print(text) => DeliveryView::Print(text@),
            Delivery::Chat(text) => DeliveryView::Chat(text@),
            Delivery::Post(text, image) => DeliveryView::Post(
                text@,
                match image {
                    Some(bytes) => Some(bytes@),
                    None => None,
                },
            ),
        }
    }
}

/// The response without its image: the text around the match, or all of it
/// where no image was found.
pub open spec fn shown_text(text: Seq<char>, found: Option<(Seq<char>, Seq<char>, Seq<char>)>) -> Seq<
    char,
> {
    match found {
        Some(parts) => parts.0 + parts.2,
        None => text,
    }
}

/// The base64 text of the image, where one was found.
pub open spec fn image_text(found: Option<(Seq<char>, Seq<char>, Seq<char>)>) -> Option<
    Seq<char>,
> {
    match found {
        Some(parts) => Some(parts.1),
        None => None,
    }
}

/// How `text` goes out to `source`, with the image `image` where there is
/// one. The console gets the text; the chat that shows no images gets the
/// text, and a note where an image was left out; the other chat gets both.
pub open spec fn delivery_of(source: Source, text: Seq<char>, image: Option<Seq<u8>>) -> DeliveryView {
    match source {
        Source::Unknown => DeliveryView::Nothing,
        Source::Admin => DeliveryView::Print(text),
        Source::Twitch => if image is Some {
            DeliveryView::Chat(text + NO_IMAGE_NOTE@)
        } else {
            DeliveryView::Chat(text)
        },
        Source::Discord => DeliveryView::Post(text, image),
    }
}

/// What goes out for the response `text` to `source`.
pub open spec fn sent(source: Source, text: Seq<char>) -> DeliveryView {
    let found = first_capture(IMAGE_PATTERN@, text);
    let image = match image_text(found) {
        Some(encoded) => base64_decoded(encoded),
        None => None,
    };
    delivery_of(source, shown_text(text, found), image)
}

/// Takes the image out of a response, given what the search for it found:
/// the text that is left, and the base64 text of the image.
pub fn strip_image(text: &str, found: Option<(String, String, String)>) -> (r: (
    String,
    Option<String>,
))
    ensures
        r.0@ == shown_text(text@, capture_view(found)),
        match r.1 {
            Some(encoded) => image_text(capture_view(found)) == Some(encoded@),
            None => image_text(capture_view(found)) is None,
        },
{
    match found {
        Some((before, group, after)) => {
            let mut shown = before;
            shown.append(after.as_str());
            (shown, Some(group))
        },
        None => (text.to_string(), None),
    }
}

/// How `text` goes out to `source`, with the image where there is one.
pub fn deliver(source: Source, text: String, image: Option<Vec<u8>>) -> (r: Delivery)
    ensures
        r@ == delivery_of(
            source,
            text@,
            match image {
                Some(bytes) => Some(bytes@),
                None => None,
            },
        ),
{
    match source {
        Source::Unknown => Delivery::Nothing,
        Source::Admin => Delivery::Print(text),
        Source::Twitch => match image {
            Some(_) => {
                let mut text = text;
                text.append(NO_IMAGE_NOTE);
                Delivery::Chat(text)
            },
            None => Delivery::Chat(text),
        },
        Source::Discord => Delivery::Post(text, image),
    }
}

impl Bot {
    /// What goes out for the response `text` to `source`: the image, if the
    /// response carries one, is taken out of the text and decoded; one that
    /// cannot be decoded is dropped.
    pub fn send_message(&self, source: Source, text: &str) -> (r: Delivery)
        ensures
            r@ == sent(source, text@),
    {
        let found = capture(IMAGE_PATTERN, text);
        let (shown, encoded) = strip_image(text, found);
        let image = match encoded {
            Some(encoded) => match decode(encoded.as_str()) {
                Ok(bytes) => Some(bytes),
                Err(_) => None,
            },
            None => None,
        };
        deliver(source, shown, image)
    }
}

} // verus!
