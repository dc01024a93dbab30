//! The log endpoint: one request, one line in the file of its bucket, device
//! and day.
//!
//! The file is `{root}/{bucket}/{device_id}/{YYYYMMDD}.log`. A line is the
//! stamp in brackets, `device_id|bucket`, the marker `####`, the category, the
//! sender and the escaped payload, separated by tabs and closed by a line
//! feed. Nothing is written here: the caller gets the directory to make, the
//! file to open for appending and the line to write in one piece.

use crate::clock::UtcInstant;
use crate::escape::escape_line_breaks;
use crate::escape::escaped;
use crate::escape::is_single_line;
use crate::escape::lemma_escaped_on_one_line;
use crate::escape::on_one_line;
use crate::pages::log::types::PathParams;
use crate::pages::log::types::PathParamsView;
use crate::pages::log::types::QueryParams;
use crate::pages::log::types::QueryParamsView;
use crate::text::text_of_utf8;
use crate::AppData;
use crate::AuthorizedUrl;
use crate::ErrorKind;
use vstd::prelude::*;
use vstd::string::StringExecFns;
use vstd::utf8::decode_utf8;
use vstd::utf8::encode_utf8_decode_utf8;
use vstd::utf8::valid_utf8;

pub mod types;

verus! {

/// Category and sender of a request that names none.
pub const UNKNOWN: &'static str = "unknown";

/// Body of the response to a request whose line was written.
pub const DONE: &'static str = "ok";

/// One append to a log file: the directory to create if it is missing, the
/// file in it to open for appending, and the line to write, line feed
/// included.
#[derive(Debug)]
pub struct LogWrite {
    pub dir: String,
    pub file: String,
    pub line: String,
}

/// Mathematical content of a [`LogWrite`].
pub ghost struct LogWriteView {
    pub dir: Seq<char>,
    pub file: Seq<char>,
    pub line: Seq<char>,
}

impl View for LogWrite {
    type V = LogWriteView;

    open spec fn view(&self) -> LogWriteView {
        LogWriteView { dir: self.dir@, file: self.file@, line: self.line@ }
    }
}

/// Directory of a device's log files: `root/bucket/device_id`.
pub open spec fn log_dir(root: Seq<char>, bucket: Seq<char>, device_id: Seq<char>) -> Seq<char> {
    root + "/"@ + bucket + "/"@ + device_id
}

/// Log file of one day in a directory: `dir/day.log`.
pub open spec fn log_file(dir: Seq<char>, day: Seq<char>) -> Seq<char> {
    dir + "/"@ + day + ".log"@
}

/// Everything of a log line but the line feed that closes it.
pub open spec fn log_record(
    stamp: Seq<char>,
    device_id: Seq<char>,
    bucket: Seq<char>,
    cat: Seq<char>,
    from: Seq<char>,
    data: Seq<char>,
) -> Seq<char> {
    "["@ + stamp + "]\t"@ + device_id + "|"@ + bucket + "\t####\t"@ + cat + "\t"@ + from + "\t"@
        + data
}

/// A log line: the record and one line feed.
pub open spec fn log_line(
    stamp: Seq<char>,
    device_id: Seq<char>,
    bucket: Seq<char>,
    cat: Seq<char>,
    from: Seq<char>,
    data: Seq<char>,
) -> Seq<char> {
    log_record(stamp, device_id, bucket, cat, from, data) + "\n"@
}

/// The append for a payload that is already escaped and an instant that is
/// already written out as day and stamp.
pub open spec fn log_write(
    root: Seq<char>,
    bucket: Seq<char>,
    device_id: Seq<char>,
    cat: Seq<char>,
    from: Seq<char>,
    data: Seq<char>,
    day: Seq<char>,
    stamp: Seq<char>,
) -> LogWriteView {
    LogWriteView {
        dir: log_dir(root, bucket, device_id),
        file: log_file(log_dir(root, bucket, device_id), day),
        line: log_line(stamp, device_id, bucket, cat, from, data),
    }
}

/// The text of an optional parameter, `unknown` where it is absent.
pub open spec fn or_unknown(value: Option<Seq<char>>) -> Seq<char> {
    match value {
        Some(v) => v,
        None => UNKNOWN@,
    }
}

/// What the log endpoint decides. The error of the guard passes through; a
/// body that is not UTF-8 is malformed; an empty body is refused; anything
/// else becomes the append of its escaped text, under the category and the
/// sender of the query string. Of the configuration only the root directory
/// enters: no append and no answer depends on the secret.
pub open spec fn action_outcome(
    root: Seq<char>,
    path: PathParamsView,
    query: QueryParamsView,
    bytes: Seq<u8>,
    authed: Result<AuthorizedUrl, ErrorKind>,
    day: Seq<char>,
    stamp: Seq<char>,
) -> Result<LogWriteView, ErrorKind> {
    match authed {
        Err(e) => Err(e),
        Ok(_) => if !valid_utf8(bytes) {
            Err(ErrorKind::MalformedBody)
        } else if decode_utf8(bytes).len() == 0 {
            Err(ErrorKind::EmptyBody)
        } else {
            Ok(
                log_write(
                    root,
                    path.bucket,
                    path.device_id,
                    or_unknown(query.cat),
                    or_unknown(query.from),
                    escaped(decode_utf8(bytes)),
                    day,
                    stamp,
                ),
            )
        },
    }
}

/// Puts an append together from its parts: a payload that is already escaped,
/// and the day and the stamp of its instant.
pub fn assemble_log_write(
    dir: &str,
    bucket: &str,
    device_id: &str,
    cat: &str,
    from: &str,
    data: &str,
    day: &str,
    stamp: &str,
) -> (write: LogWrite)
    ensures
        write@ == log_write(dir@, bucket@, device_id@, cat@, from@, data@, day@, stamp@),
{
    let mut log_path = String::from_str(dir);
    log_path.append("/");
    log_path.append(bucket);
    log_path.append("/");
    log_path.append(device_id);

    let mut log_file = log_path.clone();
    log_file.append("/");
    log_file.append(day);
    log_file.append(".log");

    let mut line = String::from_str("[");
    assert(line@ =~= "["@);
    line.append(stamp);
    line.append("]\t");
    line.append(device_id);
    line.append("|");
    line.append(bucket);
    line.append("\t####\t");
    line.append(cat);
    line.append("\t");
    line.append(from);
    line.append("\t");
    line.append(data);
    line.append("\n");

    LogWrite { dir: log_path, file: log_file, line }
}

/// The append of one payload at one instant: its line breaks escaped, its
/// file named after the day of the instant, its line stamped with the same
/// instant. An empty payload is never logged: the endpoint refuses it before
/// it gets here.
pub fn write_log_line(
    dir: &str,
    bucket: &str,
    device_id: &str,
    cat: &str,
    from: &str,
    body: &str,
    now: UtcInstant,
) -> (write: LogWrite)
    requires
        body@.len() > 0,
    ensures
        write@ == log_write(
            dir@,
            bucket@,
            device_id@,
            cat@,
            from@,
            escaped(body@),
            now.day_text(),
            now.stamp_text(),
        ),
        on_one_line(device_id@) && on_one_line(bucket@) && on_one_line(cat@) && on_one_line(from@)
            ==> is_single_line(write@.line),
{
    let day = now.day();
    let stamp = now.stamp();
    let data = escape_line_breaks(body);
    proof {
        if on_one_line(device_id@) && on_one_line(bucket@) && on_one_line(cat@) && on_one_line(
            from@,
        ) {
            lemma_log_line_is_single(stamp@, device_id@, bucket@, cat@, from@, body@);
        }
    }
    assemble_log_write(
        dir,
        bucket,
        device_id,
        cat,
        from,
        data.as_str(),
        day.as_str(),
        stamp.as_str(),
    )
}

/// `POST /log/{bucket}/{device_id}`, up to the write: the append to carry
/// out, or the error to answer with.
pub fn action(
    app_data: &AppData,
    path: &PathParams,
    query: &QueryParams,
    bytes: &[u8],
    authed: Result<AuthorizedUrl, ErrorKind>,
    now: UtcInstant,
) -> (res: Result<LogWrite, ErrorKind>)
    ensures
        ({
            let outcome = action_outcome(
                app_data@.dir,
                path@,
                query@,
                bytes@,
                authed,
                now.day_text(),
                now.stamp_text(),
            );
            match res {
                Ok(write) => outcome == Ok::<LogWriteView, ErrorKind>(write@),
                Err(e) => outcome == Err::<LogWriteView, ErrorKind>(e),
            }
        }),
{
    match authed {
        Ok(_) => match text_of_utf8(bytes) {
            Some(text) => {
                proof {
                    encode_utf8_decode_utf8(text@);
                }
                if text.is_empty() {
                    return Err(ErrorKind::EmptyBody);
                }
                let cat = match &query.cat {
                    Some(c) => c.as_str(),
                    None => UNKNOWN,
                };
                let from = match &query.from {
                    Some(f) => f.as_str(),
                    None => UNKNOWN,
                };
                Ok(
                    write_log_line(
                        app_data.dir.as_str(),
                        path.bucket.as_str(),
                        path.device_id.as_str(),
                        cat,
                        from,
                        text,
                        now,
                    ),
                )
            },
            None => Err(ErrorKind::MalformedBody),
        },
        Err(e) => Err(e),
    }
}

/// The log endpoint's answer once the append was tried: `ok` where the line
/// was written, an I/O failure where the directory or the file refused.
pub fn action_reply(written: bool) -> (res: Result<String, ErrorKind>)
    ensures
        written ==> (res matches Ok(body) && body@ == DONE@),
        !written ==> (res matches Err(e) && e == ErrorKind::IOFailure),
{
    if written {
        Ok(String::from_str(DONE))
    } else {
        Err(ErrorKind::IOFailure)
    }
}

/// An escaped payload stays on the line it is written to: where the other
/// fields hold no line break, the line is one physical line, whatever the
/// payload holds.
pub proof fn lemma_log_line_is_single(
    stamp: Seq<char>,
    device_id: Seq<char>,
    bucket: Seq<char>,
    cat: Seq<char>,
    from: Seq<char>,
    payload: Seq<char>,
)
    requires
        on_one_line(stamp),
        on_one_line(device_id),
        on_one_line(bucket),
        on_one_line(cat),
        on_one_line(from),
    ensures
        is_single_line(log_line(stamp, device_id, bucket, cat, from, escaped(payload))),
{
    reveal_strlit("[");
    reveal_strlit("]\t");
    reveal_strlit("|");
    reveal_strlit("\t####\t");
    reveal_strlit("\t");
    reveal_strlit("\n");
    lemma_escaped_on_one_line(payload);
    let record = log_record(stamp, device_id, bucket, cat, from, escaped(payload));
    let line = log_line(stamp, device_id, bucket, cat, from, escaped(payload));
    assert(on_one_line(record));
    assert(line =~= record.push('\n'));
    assert(line.drop_last() =~= record);
}

} // verus!
