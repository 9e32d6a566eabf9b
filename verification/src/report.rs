//! What is printed when a transfer has ended: the summary panel of a
//! successful upload, or the error of a failed one.
//!
//! Titles and labels are styled with the `kdam` crate, which adds colour
//! codes only where colours have been switched on for the process. What is
//! laid out is therefore stated for either case.

use crate::error::TransferError;
use crate::panel::{box_width, layout_panel, panel};
use vstd::prelude::*;
use vstd::string::*;

verus! {

/// The address under which uploaded files are offered for download.
pub const DOWNLOAD_BASE_URL: &'static str = "https://streamshare.wireway.ch";

/// The download reference of a file: `<base-url>/download/<identifier>`.
pub open spec fn download_reference(base_url: Seq<char>, identifier: Seq<char>) -> Seq<char> {
    base_url + "/download/"@ + identifier
}

/// Builds the download reference of the file that the service calls
/// `identifier`.
pub fn download_url(base_url: &str, identifier: &str) -> (url: String)
    ensures
        url@ == download_reference(base_url@, identifier@),
{
    let mut url = base_url.to_owned();
    url.append("/download/");
    url.append(identifier);
    url
}

/// The styles that the reports use.
pub open spec fn is_known_style(style: Seq<char>) -> bool {
    style == "bold green"@ || style == "bold yellow"@ || style == "bold red"@
}

/// The escape sequence that switches one of those styles on.
pub open spec fn style_code(style: Seq<char>) -> Seq<char> {
    if style == "bold green"@ {
        "\x1b[32;1m"@
    } else if style == "bold yellow"@ {
        "\x1b[33;1m"@
    } else if style == "bold red"@ {
        "\x1b[31;1m"@
    } else {
        Seq::empty()
    }
}

/// The escape sequence that switches all styles off.
pub open spec fn reset_code() -> Seq<char> {
    "\x1b[0m"@
}

/// Whether `styled` is `text` in `style`: the text between the style's code
/// and the reset code, or, where colours are off, the text alone.
pub open spec fn is_styled(styled: Seq<char>, text: Seq<char>, style: Seq<char>) -> bool {
    styled == text || styled == style_code(style) + text + reset_code()
}

/// Calls `colorize` of `kdam::term::Colorizer`. Trusted: for the three
/// styles above the result is the text unchanged while colours are off for
/// the process, and else the text between the code of the style and the
/// reset code. Which of the two it is depends on the process, so neither is
/// promised.
#[verifier::external_body]
fn colorize(text: &str, style: &str) -> (styled: String)
    requires
        is_known_style(style@),
    ensures
        is_styled(styled@, text@, style@),
{
    kdam::term::Colorizer::colorize(text, style)
}

/// The title and the labels of the summary panel, as they are printed.
#[derive(Clone, Debug, PartialEq, Eq)]
pub struct SummaryLabels {
    pub title: String,
    pub url: String,
    pub identifier: String,
    pub deletion_token: String,
}

impl SummaryLabels {
    /// Whether these are the labels of the summary without any styling.
    pub open spec fn are_plain(self) -> bool {
        &&& self.title@ == "Upload Complete!"@
        &&& self.url@ == "URL:"@
        &&& self.identifier@ == "File ID:"@
        &&& self.deletion_token@ == "Deletion Token:"@
    }

    /// Whether these are the labels of the summary in their styles, each
    /// with or without its colour codes.
    pub open spec fn are_styled(self) -> bool {
        &&& is_styled(self.title@, "Upload Complete!"@, "bold green"@)
        &&& is_styled(self.url@, "URL:"@, "bold yellow"@)
        &&& is_styled(self.identifier@, "File ID:"@, "bold yellow"@)
        &&& is_styled(self.deletion_token@, "Deletion Token:"@, "bold yellow"@)
    }

    /// The labels without styling.
    pub fn plain() -> (labels: SummaryLabels)
        ensures
            labels.are_plain(),
            labels.are_styled(),
    {
        SummaryLabels {
            title: "Upload Complete!".to_owned(),
            url: "URL:".to_owned(),
            identifier: "File ID:".to_owned(),
            deletion_token: "Deletion Token:".to_owned(),
        }
    }

    /// The labels in their styles: the title in bold green, the others in
    /// bold yellow.
    pub fn styled() -> (labels: SummaryLabels)
        ensures
            labels.are_styled(),
    {
        SummaryLabels {
            title: colorize("Upload Complete!", "bold green"),
            url: colorize("URL:", "bold yellow"),
            identifier: colorize("File ID:", "bold yellow"),
            deletion_token: colorize("Deletion Token:", "bold yellow"),
        }
    }
}

/// A label and what it names, with a space between them.
pub open spec fn labelled(label: Seq<char>, content: Seq<char>) -> Seq<char> {
    label + seq![' '] + content
}

/// The body of the summary: the download reference, the identifier and the
/// deletion token, each behind its label and each as the service issued it.
pub open spec fn summary_body(
    labels: SummaryLabels,
    base_url: Seq<char>,
    identifier: Seq<char>,
    deletion_token: Seq<char>,
) -> Seq<Seq<char>> {
    seq![
        labelled(labels.url@, download_reference(base_url, identifier)),
        labelled(labels.identifier@, identifier),
        labelled(labels.deletion_token@, deletion_token),
    ]
}

/// Whether `lines` is what is printed for a successful upload under the
/// given labels: the panel around title and body, or nothing where the panel
/// would be wider than a size can count.
pub open spec fn is_summary(
    lines: Option<Vec<String>>,
    labels: SummaryLabels,
    base_url: Seq<char>,
    identifier: Seq<char>,
    deletion_token: Seq<char>,
) -> bool {
    let body = summary_body(labels, base_url, identifier, deletion_token);
    match lines {
        Some(lines) => {
            &&& box_width(labels.title@, body) <= usize::MAX
            &&& lines.deep_view() == panel(labels.title@, body)
        },
        None => box_width(labels.title@, body) > usize::MAX,
    }
}

/// A label and what it names, with a space between them.
fn label_line(label: &str, content: &str) -> (line: String)
    ensures
        line@ == labelled(label@, content@),
{
    let mut line = label.to_owned();
    proof {
        reveal_strlit(" ");
    }
    line.append(" ");
    line.append(content);
    assert(line@ =~= labelled(label@, content@));
    line
}

/// Lays out the summary of a successful upload under the given labels.
pub fn summary_panel(
    labels: &SummaryLabels,
    base_url: &str,
    identifier: &str,
    deletion_token: &str,
) -> (lines: Option<Vec<String>>)
    ensures
        is_summary(lines, *labels, base_url@, identifier@, deletion_token@),
{
    let url = download_url(base_url, identifier);
    let mut body: Vec<String> = Vec::new();
    body.push(label_line(labels.url.as_str(), url.as_str()));
    body.push(label_line(labels.identifier.as_str(), identifier));
    body.push(label_line(labels.deletion_token.as_str(), deletion_token));
    assert(body.deep_view() =~= summary_body(*labels, base_url@, identifier@, deletion_token@));
    layout_panel(labels.title.as_str(), &body)
}

/// What is printed for a successful upload: the summary panel under the
/// styled labels, holding the download reference, the identifier and the
/// deletion token.
pub fn render_success(base_url: &str, identifier: &str, deletion_token: &str) -> (lines: Option<
    Vec<String>,
>)
    ensures
        exists|labels: SummaryLabels| #[trigger]
            labels.are_styled() && is_summary(
                lines,
                labels,
                base_url@,
                identifier@,
                deletion_token@,
            ),
{
    let labels = SummaryLabels::styled();
    summary_panel(&labels, base_url, identifier, deletion_token)
}

/// The line that reports an error, before styling: the message as it
/// stands, behind `Error: `.
pub open spec fn failure_text(message: Seq<char>) -> Seq<char> {
    "Error: "@ + message
}

/// What is printed for a failed upload: the message of the error, as it
/// came, behind `Error: ` and in bold red.
pub fn render_failure(error: &TransferError) -> (line: String)
    ensures
        is_styled(line@, failure_text(error@.message()), "bold red"@),
{
    let mut text = "Error: ".to_owned();
    let message = error.message();
    text.append(message.as_str());
    colorize(text.as_str(), "bold red")
}

} // verus!
