use web_hook::clock::UtcInstant;
use web_hook::escape::escape_line_breaks;
use web_hook::pages::log::action;
use web_hook::pages::log::action_reply;
use web_hook::pages::log::assemble_log_write;
use web_hook::pages::log::types::PathParams;
use web_hook::pages::log::types::QueryParams;
use web_hook::pages::log::write_log_line;
use web_hook::text::same_text;
use web_hook::AppData;
use web_hook::AuthorizedUrl;
use web_hook::ErrorKind;

// Sun, 11 Sep 2022 18:34:48 UTC
const SEPTEMBER: i64 = 1_662_921_288_000_000_000;

fn config() -> AppData {
    AppData {
        dir: String::from("./logs/web_hook_test"),
        secret: String::from("12345"),
        ua: String::from("foobar"),
    }
}

fn path() -> PathParams {
    PathParams {
        bucket: String::from("sms"),
        device_id: String::from("100"),
    }
}

fn query(cat: Option<&str>, from: Option<&str>) -> QueryParams {
    QueryParams {
        cat: cat.map(String::from),
        from: from.map(String::from),
    }
}

#[test]
fn line_feed_becomes_two_bars() {
    assert_eq!(escape_line_breaks("中文\n你好"), "中文||你好");
}

#[test]
fn carriage_return_and_line_feed_become_four_bars() {
    assert_eq!(escape_line_breaks("a\r\nb"), "a||||b");
    assert_eq!(escape_line_breaks("\r"), "||");
    assert_eq!(escape_line_breaks("\n\n"), "||||");
}

#[test]
fn text_without_line_breaks_is_kept() {
    for text in ["", "plain", "tab\there", "a||b", "$1 \\n [\\r\\n]"] {
        assert_eq!(escape_line_breaks(text), text);
    }
}

#[test]
fn escaped_text_has_no_line_break() {
    let escaped = escape_line_breaks("one\ntwo\r\nthree\rfour\n");
    assert_eq!(escaped, "one||two||||three||four||");
    assert!(!escaped.contains('\n'));
    assert!(!escaped.contains('\r'));
}

#[test]
fn day_and_stamp_of_an_instant() {
    let now = UtcInstant { nanos: SEPTEMBER };
    assert_eq!(now.day(), "20220911");
    assert_eq!(now.stamp(), "2022-09-11T18:34:48+00:00");
}

#[test]
fn stamp_shows_fractions_of_a_second() {
    assert_eq!(
        UtcInstant { nanos: SEPTEMBER + 123_456_789 }.stamp(),
        "2022-09-11T18:34:48.123456789+00:00"
    );
    assert_eq!(
        UtcInstant { nanos: SEPTEMBER + 500_000_000 }.stamp(),
        "2022-09-11T18:34:48.500+00:00"
    );
    assert_eq!(
        UtcInstant { nanos: SEPTEMBER + 26_490_000 }.stamp(),
        "2022-09-11T18:34:48.026490+00:00"
    );
}

#[test]
fn instants_around_the_epoch() {
    assert_eq!(UtcInstant { nanos: 0 }.day(), "19700101");
    assert_eq!(UtcInstant { nanos: 0 }.stamp(), "1970-01-01T00:00:00+00:00");
    assert_eq!(UtcInstant { nanos: -1 }.day(), "19691231");
    assert_eq!(
        UtcInstant { nanos: -1 }.stamp(),
        "1969-12-31T23:59:59.999999999+00:00"
    );
    assert_eq!(UtcInstant { nanos: i64::MAX }.day(), "22620411");
    assert_eq!(UtcInstant { nanos: i64::MIN }.day(), "16770921");
}

#[test]
fn append_is_put_together_from_its_parts() {
    let write = assemble_log_write(
        "./logs/web_hook_test",
        "sms",
        "100",
        "text",
        "13500009999",
        "中文||你好",
        "20220911",
        "2022-09-11T18:34:48+00:00",
    );
    assert_eq!(write.dir, "./logs/web_hook_test/sms/100");
    assert_eq!(write.file, "./logs/web_hook_test/sms/100/20220911.log");
    assert_eq!(
        write.line,
        "[2022-09-11T18:34:48+00:00]\t100|sms\t####\ttext\t13500009999\t中文||你好\n"
    );
}

#[test]
fn payload_with_line_breaks_is_one_line() {
    let now = UtcInstant { nanos: SEPTEMBER };
    for body in ["first\nsecond", "first\r\nsecond", "\n", "\r\n\r\n"] {
        let write = write_log_line("root", "b", "d", "c", "f", body, now);
        assert!(write.line.ends_with('\n'));
        assert_eq!(write.line.matches('\n').count(), 1);
        assert_eq!(write.line.matches('\r').count(), 0);
        assert_eq!(write.line.lines().count(), 1);
    }
    let write = write_log_line("root", "b", "d", "c", "f", "first\r\nsecond", now);
    assert_eq!(
        write.line,
        "[2022-09-11T18:34:48+00:00]\td|b\t####\tc\tf\tfirst||||second\n"
    );
}

#[test]
fn only_the_payload_is_escaped() {
    let now = UtcInstant { nanos: SEPTEMBER };
    let write = write_log_line("root", "b", "d", "a\nb", "f", "x", now);
    assert_eq!(write.line.matches('\n').count(), 2);
}

#[test]
fn file_is_named_after_the_day_of_the_stamp() {
    let before = write_log_line("r", "b", "d", "c", "f", "x", UtcInstant { nanos: -1 });
    let after = write_log_line("r", "b", "d", "c", "f", "x", UtcInstant { nanos: 0 });
    assert_eq!(before.dir, "r/b/d");
    assert_eq!(after.dir, "r/b/d");
    assert_eq!(before.file, "r/b/d/19691231.log");
    assert_eq!(after.file, "r/b/d/19700101.log");
    assert!(before.line.starts_with("[1969-12-31T23:59:59.999999999+00:00]\t"));
    assert!(after.line.starts_with("[1970-01-01T00:00:00+00:00]\t"));
}

#[test]
fn accepted_payload_becomes_one_append() {
    let now = UtcInstant { nanos: SEPTEMBER };
    let res = action(
        &config(),
        &path(),
        &query(Some("text"), Some("13500009999")),
        "中文\n你好".as_bytes(),
        Ok(AuthorizedUrl),
        now,
    );
    let write = res.expect("an append");
    assert_eq!(write.dir, "./logs/web_hook_test/sms/100");
    assert_eq!(write.file, "./logs/web_hook_test/sms/100/20220911.log");
    assert_eq!(
        write.line,
        "[2022-09-11T18:34:48+00:00]\t100|sms\t####\ttext\t13500009999\t中文||你好\n"
    );
    assert_eq!(action_reply(true), Ok(String::from("ok")));
}

#[test]
fn category_and_sender_default_to_unknown() {
    let now = UtcInstant { nanos: SEPTEMBER };
    let write = action(&config(), &path(), &query(None, None), b"ping", Ok(AuthorizedUrl), now)
        .expect("an append");
    assert_eq!(
        write.line,
        "[2022-09-11T18:34:48+00:00]\t100|sms\t####\tunknown\tunknown\tping\n"
    );
    let write = action(&config(), &path(), &query(Some("text"), None), b"ping", Ok(AuthorizedUrl), now)
        .expect("an append");
    assert_eq!(
        write.line,
        "[2022-09-11T18:34:48+00:00]\t100|sms\t####\ttext\tunknown\tping\n"
    );
}

#[test]
fn empty_body_is_refused_and_nothing_is_appended() {
    let now = UtcInstant { nanos: SEPTEMBER };
    let res = action(&config(), &path(), &query(None, None), b"", Ok(AuthorizedUrl), now);
    let kind = res.expect_err("no append");
    assert_eq!(kind, ErrorKind::EmptyBody);
    assert_eq!(kind.status(), 400);
    assert_eq!(kind.message(), "missing body");
}

#[test]
fn body_that_is_not_utf8_is_malformed() {
    let now = UtcInstant { nanos: SEPTEMBER };
    for bytes in [&[0xff_u8][..], &[b'a', 0xc3][..], &[0xed, 0xa0, 0x80][..]] {
        let res = action(&config(), &path(), &query(None, None), bytes, Ok(AuthorizedUrl), now);
        assert_eq!(res.expect_err("no append"), ErrorKind::MalformedBody);
    }
}

#[test]
fn unauthorized_request_keeps_its_error() {
    let now = UtcInstant { nanos: SEPTEMBER };
    for kind in [
        ErrorKind::MissingCredential,
        ErrorKind::ClientMismatch,
        ErrorKind::TokenMismatch,
    ] {
        let res = action(&config(), &path(), &query(None, None), b"ping", Err(kind), now);
        assert_eq!(res.expect_err("no append"), kind);
        let res = action(&config(), &path(), &query(None, None), b"", Err(kind), now);
        assert_eq!(res.expect_err("no append"), kind);
    }
}

#[test]
fn failed_append_is_a_server_error() {
    let res = action_reply(false);
    assert_eq!(res, Err(ErrorKind::IOFailure));
    assert_eq!(ErrorKind::IOFailure.status(), 500);
}

#[test]
fn texts_are_equal_when_their_bytes_are() {
    assert!(same_text("", ""));
    assert!(same_text("foobar", "foobar"));
    assert!(same_text("中文", "中文"));
    assert!(!same_text("foobar", "foobaz"));
    assert!(!same_text("foobar", "fooba"));
    assert!(!same_text("", "a"));
    assert!(!same_text("Foobar", "foobar"));
}
