use stovbot::bot::Bot;
use stovbot::delivery::{deliver, strip_image, Delivery};
use stovbot::models::Source;

fn bot() -> Bot {
    Bot::new(Vec::new(), Vec::new()).0
}

#[test]
fn plain_text_goes_out_as_it_is() {
    let bot = bot();
    assert_eq!(bot.send_message(Source::Admin, "hello"), Delivery::Print("hello".to_string()));
    assert_eq!(bot.send_message(Source::Twitch, "hello"), Delivery::Chat("hello".to_string()));
    assert_eq!(
        bot.send_message(Source::Discord, "hello"),
        Delivery::Post("hello".to_string(), None)
    );
    assert_eq!(bot.send_message(Source::Unknown, "hello"), Delivery::Nothing);
}

#[test]
fn image_is_taken_out_and_decoded() {
    let bot = bot();
    let text = "@foo {{IMAGE|aGVsbG8gd29ybGQ=}} enjoy";
    assert_eq!(
        bot.send_message(Source::Discord, text),
        Delivery::Post("@foo  enjoy".to_string(), Some(b"hello world".to_vec()))
    );
    assert_eq!(
        bot.send_message(Source::Twitch, text),
        Delivery::Chat("@foo  enjoy (only works in discord)".to_string())
    );
    assert_eq!(
        bot.send_message(Source::Admin, text),
        Delivery::Print("@foo  enjoy".to_string())
    );
}

#[test]
fn first_image_ends_at_the_first_closing_braces() {
    let bot = bot();
    assert_eq!(
        bot.send_message(Source::Discord, "a{{IMAGE|QQ==}}b{{IMAGE|Qg==}}c}}"),
        Delivery::Post("ab{{IMAGE|Qg==}}c}}".to_string(), Some(b"A".to_vec()))
    );
    assert_eq!(
        bot.send_message(Source::Discord, "{{IMAGE|}}"),
        Delivery::Post("".to_string(), Some(Vec::new()))
    );
}

#[test]
fn image_that_cannot_be_decoded_is_dropped() {
    let bot = bot();
    assert_eq!(
        bot.send_message(Source::Discord, "a{{IMAGE|not base64!}}b"),
        Delivery::Post("ab".to_string(), None)
    );
    assert_eq!(
        bot.send_message(Source::Twitch, "a{{IMAGE|not base64!}}b"),
        Delivery::Chat("ab".to_string())
    );
}

#[test]
fn unfinished_image_is_text() {
    let bot = bot();
    assert_eq!(
        bot.send_message(Source::Admin, "a{{IMAGE|QQ==}"),
        Delivery::Print("a{{IMAGE|QQ==}".to_string())
    );
    assert_eq!(
        bot.send_message(Source::Admin, "a{{IMAGE|Q\nQ==}}"),
        Delivery::Print("a{{IMAGE|Q\nQ==}}".to_string())
    );
}

#[test]
fn strip_and_deliver_work_on_what_was_found() {
    let found = Some(("a".to_string(), "QQ==".to_string(), "b".to_string()));
    assert_eq!(
        strip_image("a{{IMAGE|QQ==}}b", found),
        ("ab".to_string(), Some("QQ==".to_string()))
    );
    assert_eq!(strip_image("plain", None), ("plain".to_string(), None));
    assert_eq!(
        deliver(Source::Twitch, "t".to_string(), Some(vec![1])),
        Delivery::Chat("t (only works in discord)".to_string())
    );
    assert_eq!(
        deliver(Source::Discord, "t".to_string(), Some(vec![1])),
        Delivery::Post("t".to_string(), Some(vec![1]))
    );
}
