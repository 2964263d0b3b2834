//! The dispatcher's decisions for one changed file: which strategy its
//! leading bytes select, and what is reported once the upload has ended.

use vstd::prelude::*;
use vstd::string::*;
use crate::event::WatchedPath;
use crate::record::{LogRecord, Severity};
use crate::signature::{classification_of, classify, FormatClassification};
use crate::text::{render_signature, signature_text};
use crate::upload::{
    compressed_view, gzip, gzip_result, is_archive_request, is_text_request, outcome_of,
    outcome_of_reply, uncompressed, Client, Reply, Strategy, UploadOutcome, UploadRequest,
    GZIP_LEVEL,
};

verus! {

/// What came of opening the file and reading its first four bytes.
#[derive(Clone, Debug, PartialEq, Eq)]
pub enum PrefixRead {
    /// The file could not be opened, and why.
    OpenFailed(String),
    /// The file holds fewer than four bytes or could not be read, and why.
    ReadFailed(String),
    /// The first four bytes.
    Prefix([u8; 4]),
}

/// What the dispatcher reports for one file: the outcome and its log record.
#[derive(Debug, PartialEq, Eq)]
pub struct Report {
    pub outcome: UploadOutcome,
    pub record: LogRecord,
}

/// The strategy that a read selects, or the reason why the file is not
/// uploaded.
pub open spec fn routing_of(path: Seq<char>, read: PrefixRead) -> Result<Strategy, Seq<char>> {
    match read {
        PrefixRead::OpenFailed(cause) => Err("unable to open: "@ + path + ": "@ + cause@),
        PrefixRead::ReadFailed(cause) => Err("unable to read: "@ + path + ": "@ + cause@),
        PrefixRead::Prefix(prefix) => match classification_of(prefix) {
            FormatClassification::Archive => Ok(Strategy::Archive),
            FormatClassification::CompressedText => Ok(Strategy::CompressedText),
            FormatClassification::Unrecognized(found) => Err(
                "unexpected file signature: "@ + signature_text(found) + " - "@ + path,
            ),
        },
    }
}

/// The words that say which upload failed.
pub open spec fn strategy_label(strategy: Strategy) -> Seq<char> {
    match strategy {
        Strategy::Archive => "unable to upload zip: "@,
        Strategy::CompressedText => "unable to upload txt: "@,
    }
}

/// The outcome of a dispatch: an upload's own outcome, a failure with the
/// strategy and the path put before its reason.
pub open spec fn dispatched_outcome(
    path: Seq<char>,
    strategy: Strategy,
    uploaded: Option<Seq<char>>,
) -> Option<Seq<char>> {
    match uploaded {
        None => None,
        Some(reason) => Some(strategy_label(strategy) + path + ": "@ + reason),
    }
}

/// The record that an outcome leaves in the log.
pub open spec fn record_severity(outcome: Option<Seq<char>>) -> Severity {
    match outcome {
        None => Severity::Info,
        Some(_) => Severity::Warn,
    }
}

/// The message that an outcome leaves in the log.
pub open spec fn record_message(path: Seq<char>, outcome: Option<Seq<char>>) -> Seq<char> {
    match outcome {
        None => "successfully uploaded "@ + path,
        Some(reason) => reason,
    }
}

/// Whether a report is the one that a dispatch with the given outcome leaves.
pub open spec fn is_report_of(report: Report, path: Seq<char>, outcome: Option<Seq<char>>) -> bool {
    &&& report.outcome@ == outcome
    &&& report.record.severity == record_severity(outcome)
    &&& report.record.message@ == record_message(path, outcome)
}

/// The reason of an upload whose file could not be opened again.
pub open spec fn unopened(cause: Seq<char>) -> Seq<char> {
    "unable to open: "@ + cause
}

fn unreadable(label: &str, path: &WatchedPath, cause: &String) -> (reason: String)
    ensures
        reason@ == label@ + path.display@ + ": "@ + cause@,
{
    let mut reason = String::from_str(label);
    reason.append(path.display.as_str());
    reason.append(": ");
    reason.append(cause.as_str());
    reason
}

/// Selects the upload strategy for a file from what reading its first four
/// bytes gave. A file that cannot be read, or whose signature is neither of
/// the two known ones, is not uploaded: the error says why, and for an unknown
/// signature it holds the four bytes.
pub fn route(path: &WatchedPath, read: PrefixRead) -> (routed: Result<Strategy, String>)
    ensures
        match routed {
            Ok(strategy) => routing_of(path.display@, read) == Ok::<Strategy, Seq<char>>(strategy),
            Err(reason) => routing_of(path.display@, read) == Err::<Strategy, Seq<char>>(reason@),
        },
        routed is Ok <==> (read matches PrefixRead::Prefix(prefix) && !(classification_of(
            prefix,
        ) is Unrecognized)),
{
    match read {
        PrefixRead::OpenFailed(cause) => Err(unreadable("unable to open: ", path, &cause)),
        PrefixRead::ReadFailed(cause) => Err(unreadable("unable to read: ", path, &cause)),
        PrefixRead::Prefix(prefix) => match classify(prefix) {
            FormatClassification::Archive => Ok(Strategy::Archive),
            FormatClassification::CompressedText => Ok(Strategy::CompressedText),
            FormatClassification::Unrecognized(found) => {
                let mut reason = String::from_str("unexpected file signature: ");
                let rendered = render_signature(found);
                reason.append(rendered.as_str());
                reason.append(" - ");
                reason.append(path.display.as_str());
                Err(reason)
            },
        },
    }
}

/// Reports a file that was not uploaded: the outcome is a failure with the
/// given reason, logged as a warning.
pub fn abandon(reason: String) -> (report: Report)
    ensures
        report.outcome@ == Some(reason@),
        report.record.severity == Severity::Warn,
        report.record.message@ == reason@,
{
    let message = reason.clone();
    Report {
        outcome: UploadOutcome::Failure(reason),
        record: LogRecord { severity: Severity::Warn, message },
    }
}

/// Reports an upload that has ended. A success is logged at info level; a
/// failure gets the strategy and the path put before its reason and is logged
/// as a warning with that whole text.
pub fn conclude(path: &WatchedPath, strategy: Strategy, uploaded: UploadOutcome) -> (report: Report)
    ensures
        report.outcome@ == dispatched_outcome(path.display@, strategy, uploaded@),
        report.record.severity == record_severity(report.outcome@),
        report.record.message@ == record_message(path.display@, report.outcome@),
{
    match uploaded {
        UploadOutcome::Success => {
            let mut message = String::from_str("successfully uploaded ");
            message.append(path.display.as_str());
            Report {
                outcome: UploadOutcome::Success,
                record: LogRecord { severity: Severity::Info, message },
            }
        },
        UploadOutcome::Failure(cause) => {
            let mut reason = match strategy {
                Strategy::Archive => String::from_str("unable to upload zip: "),
                Strategy::CompressedText => String::from_str("unable to upload txt: "),
            };
            reason.append(path.display.as_str());
            reason.append(": ");
            reason.append(cause.as_str());
            abandon(reason)
        },
    }
}

fn not_opened(path: &WatchedPath, strategy: Strategy, cause: &String) -> (report: Report)
    ensures
        is_report_of(
            report,
            path.display@,
            dispatched_outcome(path.display@, strategy, Some(unopened(cause@))),
        ),
{
    let mut reason = String::from_str("unable to open: ");
    reason.append(cause.as_str());
    conclude(path, strategy, UploadOutcome::Failure(reason))
}

/// First step of a dispatch: the file's leading bytes have been read, or
/// could not be. Either a strategy is selected, and the file is then opened
/// for it, or the dispatch ends here with a warning and no request is made.
pub fn on_prefix(path: &WatchedPath, read: PrefixRead) -> (next: Result<Strategy, Report>)
    ensures
        match next {
            Ok(strategy) => routing_of(path.display@, read) == Ok::<Strategy, Seq<char>>(strategy),
            Err(report) => routing_of(path.display@, read) matches Err(reason) && is_report_of(
                report,
                path.display@,
                Some(reason),
            ),
        },
{
    match route(path, read) {
        Ok(strategy) => Ok(strategy),
        Err(reason) => Err(abandon(reason)),
    }
}

/// Second step for an archive: the file has been opened and its size asked
/// for. An opened file is posted as it is, with its size, or with zero where
/// the size is not known; a file that could not be opened ends the dispatch.
pub fn on_archive_opened(
    client: &Client,
    path: &WatchedPath,
    opened: Result<Option<u64>, String>,
) -> (next: Result<UploadRequest, Report>)
    ensures
        match opened {
            Ok(size) => next matches Ok(request) && is_archive_request(
                request,
                *client,
                match size {
                    Some(n) => n,
                    None => 0,
                },
            ),
            Err(cause) => next matches Err(report) && is_report_of(
                report,
                path.display@,
                dispatched_outcome(path.display@, Strategy::Archive, Some(unopened(cause@))),
            ),
        },
{
    match opened {
        Ok(size) => Ok(client.archive_request(size)),
        Err(cause) => Err(not_opened(path, Strategy::Archive, &cause)),
    }
}

/// What the second step for a text save gives for a given result of the
/// compression: the request that carries the stream, or the report of an
/// upload that could not be compressed.
pub open spec fn text_step_matches(
    next: Result<UploadRequest, Report>,
    client: Client,
    path: Seq<char>,
    compressed: Result<Seq<u8>, Seq<char>>,
) -> bool {
    match compressed {
        Ok(stream) => next matches Ok(request) && is_text_request(request, client, stream),
        Err(cause) => next matches Err(report) && is_report_of(
            report,
            path,
            dispatched_outcome(path, Strategy::CompressedText, Some(uncompressed(cause))),
        ),
    }
}

/// Second step for a text save, once compression has been tried: the
/// compressed bytes are posted, and a failure of the encoder ends the
/// dispatch with a warning.
pub fn on_text_compressed(
    client: &Client,
    path: &WatchedPath,
    compressed: Result<Vec<u8>, String>,
) -> (next: Result<UploadRequest, Report>)
    ensures
        text_step_matches(next, *client, path.display@, compressed_view(compressed)),
{
    match client.text_request_from(compressed) {
        Ok(request) => Ok(request),
        Err(reason) => Err(conclude(path, Strategy::CompressedText, UploadOutcome::Failure(reason))),
    }
}

/// Second step for a text save: the whole file has been read, or could not
/// be. What was read is compressed at the fixed level: where the encoder
/// gives a stream, it is posted, and where the encoder fails, the dispatch
/// ends with a warning that holds what the encoder said. A file that could
/// not be read ends the dispatch too.
pub fn on_text_read(client: &Client, path: &WatchedPath, content: Result<Vec<u8>, String>) -> (next:
    Result<UploadRequest, Report>)
    ensures
        match content {
            Ok(bytes) => text_step_matches(
                next,
                *client,
                path.display@,
                gzip_result(bytes@, GZIP_LEVEL),
            ),
            Err(cause) => next matches Err(report) && is_report_of(
                report,
                path.display@,
                dispatched_outcome(path.display@, Strategy::CompressedText, Some(unopened(cause@))),
            ),
        },
{
    match content {
        Ok(bytes) => on_text_compressed(client, path, gzip(bytes.as_slice(), GZIP_LEVEL)),
        Err(cause) => Err(not_opened(path, Strategy::CompressedText, &cause)),
    }
}

/// Last step of a dispatch: the server has answered. A status from 200 to
/// 299 is a success; with any other the body's text is the reason, reported
/// with the strategy and the path before it.
pub fn on_reply(path: &WatchedPath, strategy: Strategy, reply: Reply) -> (report: Report)
    ensures
        is_report_of(
            report,
            path.display@,
            dispatched_outcome(path.display@, strategy, outcome_of_reply(reply)),
        ),
        report.outcome is Success <==> 200 <= reply.status <= 299,
{
    conclude(path, strategy, outcome_of(reply))
}

} // verus!
