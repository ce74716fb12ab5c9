//! The failures that a cycle of the pipeline, or the chat side, can report.

use vstd::prelude::*;
use vstd::string::*;

verus! {

/// A failure inside the fetch, extract and persist pipeline. Each variant
/// carries the detail that the failing step reported.
#[derive(Debug, PartialEq, Eq)]
pub enum SipError {
    /// Reading or writing the persisted store failed.
    StorageError(String),
    /// The page could not be retrieved.
    FetchError(String),
    /// A structural query did not compile.
    SelectorError(String),
    /// The response body was not text.
    TextParseError(String),
    /// A category container is absent from the page.
    PostError(String),
    /// A required field is absent from one announcement.
    PostParseError(String),
    /// The log directory could not be prepared.
    FileSystemError(String),
}

/// A pipeline failure as plain mathematical values: the variant and its detail.
pub enum SipErrorView {
    StorageError(Seq<char>),
    FetchError(Seq<char>),
    SelectorError(Seq<char>),
    TextParseError(Seq<char>),
    PostError(Seq<char>),
    PostParseError(Seq<char>),
    FileSystemError(Seq<char>),
}

impl SipErrorView {
    /// The detail carried by the error, whatever its variant.
    pub open spec fn detail(self) -> Seq<char> {
        match self {
            SipErrorView::StorageError(m) => m,
            SipErrorView::FetchError(m) => m,
            SipErrorView::SelectorError(m) => m,
            SipErrorView::TextParseError(m) => m,
            SipErrorView::PostError(m) => m,
            SipErrorView::PostParseError(m) => m,
            SipErrorView::FileSystemError(m) => m,
        }
    }

    /// The fixed words that introduce the detail when the error is shown.
    pub open spec fn label(self) -> Seq<char> {
        match self {
            SipErrorView::StorageError(_) => "Storage error: "@,
            SipErrorView::FetchError(_) => "Fetch error: "@,
            SipErrorView::SelectorError(_) => "Selector error: "@,
            SipErrorView::TextParseError(_) => "Text parse error: "@,
            SipErrorView::PostError(_) => "Post error: "@,
            SipErrorView::PostParseError(_) => "Post parse error: "@,
            SipErrorView::FileSystemError(_) => "File system error: "@,
        }
    }

    /// The error as shown to a reader: its label followed by its detail.
    pub open spec fn text(self) -> Seq<char> {
        self.label() + self.detail()
    }
}

impl View for SipError {
    type V = SipErrorView;

    open spec fn view(&self) -> SipErrorView {
        match self {
            SipError::StorageError(m) => SipErrorView::StorageError(m@),
            SipError::FetchError(m) => SipErrorView::FetchError(m@),
            SipError::SelectorError(m) => SipErrorView::SelectorError(m@),
            SipError::TextParseError(m) => SipErrorView::TextParseError(m@),
            SipError::PostError(m) => SipErrorView::PostError(m@),
            SipError::PostParseError(m) => SipErrorView::PostParseError(m@),
            SipError::FileSystemError(m) => SipErrorView::FileSystemError(m@),
        }
    }
}

impl SipError {
    /// Renders the error as one line of text.
    pub fn to_text(&self) -> (r: String)
        ensures
            r@ == self@.text(),
    {
        match self {
            SipError::StorageError(m) => String::from_str("Storage error: ").concat(m.as_str()),
            SipError::FetchError(m) => String::from_str("Fetch error: ").concat(m.as_str()),
            SipError::SelectorError(m) => String::from_str("Selector error: ").concat(m.as_str()),
            SipError::TextParseError(m) => String::from_str("Text parse error: ").concat(
                m.as_str(),
            ),
            SipError::PostError(m) => String::from_str("Post error: ").concat(m.as_str()),
            SipError::PostParseError(m) => String::from_str("Post parse error: ").concat(
                m.as_str(),
            ),
            SipError::FileSystemError(m) => String::from_str("File system error: ").concat(
                m.as_str(),
            ),
        }
    }
}

/// A failure on the chat side, where endpoints are registered and removed.
#[derive(Debug, PartialEq, Eq)]
pub enum DiscordError {
    /// The application's own record could not be read.
    DiscordAppInfoError(String),
    /// The client could not be built.
    DiscordBuilderError(String),
    /// An endpoint could not be listed, created or deleted.
    DiscordWebhookError(String),
    /// A message could not be sent.
    DiscordMessageError(String),
}

impl DiscordError {
    /// The detail carried by the error, whatever its variant.
    pub open spec fn detail(self) -> Seq<char> {
        match self {
            DiscordError::DiscordAppInfoError(m) => m@,
            DiscordError::DiscordBuilderError(m) => m@,
            DiscordError::DiscordWebhookError(m) => m@,
            DiscordError::DiscordMessageError(m) => m@,
        }
    }

    /// The fixed words that introduce the detail when the error is shown.
    pub open spec fn label(self) -> Seq<char> {
        match self {
            DiscordError::DiscordAppInfoError(_) => "Discord app info error: "@,
            DiscordError::DiscordBuilderError(_) => "Discord builder error: "@,
            DiscordError::DiscordWebhookError(_) => "Webhook error: "@,
            DiscordError::DiscordMessageError(_) => "Message error: "@,
        }
    }

    /// The error as shown to a reader: its label followed by its detail.
    pub open spec fn text(self) -> Seq<char> {
        self.label() + self.detail()
    }

    /// Renders the error as one line of text.
    pub fn to_text(&self) -> (r: String)
        ensures
            r@ == self.text(),
    {
        match self {
            DiscordError::DiscordAppInfoError(m) => String::from_str(
                "Discord app info error: ",
            ).concat(m.as_str()),
            DiscordError::DiscordBuilderError(m) => String::from_str(
                "Discord builder error: ",
            ).concat(m.as_str()),
            DiscordError::DiscordWebhookError(m) => String::from_str("Webhook error: ").concat(
                m.as_str(),
            ),
            DiscordError::DiscordMessageError(m) => String::from_str("Message error: ").concat(
                m.as_str(),
            ),
        }
    }
}

} // verus!
