use toss::error::TransferError;
use toss::report::{render_failure, render_success, SummaryLabels};

#[test]
fn colours_switched_on() {
    kdam::term::init(true);

    let labels = SummaryLabels::styled();
    assert_eq!(labels.title, "\u{1b}[32;1mUpload Complete!\u{1b}[0m");
    assert_eq!(labels.url, "\u{1b}[33;1mURL:\u{1b}[0m");
    assert_eq!(labels.identifier, "\u{1b}[33;1mFile ID:\u{1b}[0m");
    assert_eq!(labels.deletion_token, "\u{1b}[33;1mDeletion Token:\u{1b}[0m");

    assert_eq!(
        render_failure(&TransferError::TransportError("boom".to_string())),
        "\u{1b}[31;1mError: boom\u{1b}[0m"
    );

    let lines = render_success("https://streamshare.wireway.ch", "X", "Y").unwrap();
    let stroke = "─".repeat(48);
    assert_eq!(
        lines,
        vec![
            "".to_string(),
            format!("┌{}┐", stroke),
            format!(
                "│{}\u{1b}[32;1mUpload Complete!\u{1b}[0m{}│",
                " ".repeat(16),
                " ".repeat(16)
            ),
            format!("├{}┤", stroke),
            "│ \u{1b}[33;1mURL:\u{1b}[0m https://streamshare.wireway.ch/download/X │".to_string(),
            format!("│ \u{1b}[33;1mFile ID:\u{1b}[0m X{} │", " ".repeat(36)),
            format!("│ \u{1b}[33;1mDeletion Token:\u{1b}[0m Y{} │", " ".repeat(29)),
            format!("└{}┘", stroke),
            "".to_string(),
        ]
    );
}
