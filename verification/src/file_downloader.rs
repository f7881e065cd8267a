//! Fetching a file over HTTP: what the response must be, and the progress of
//! the body as it arrives.

use vstd::prelude::*;
use crate::error::{DeployError, ErrorView};
use crate::progress_reporter::ProgressEvent;
use crate::text::concat;

verus! {

/// What the head of an HTTP response says.
#[derive(Debug)]
pub struct ResponseHead {
    /// Whether the status is one of success.
    pub success: bool,
    /// The status, as shown to the user.
    pub status: String,
    /// The body of a response without success, as text.
    pub message: String,
    /// The length the response announces for its body.
    pub content_length: Option<u64>,
}

/// What the user is told when the server answers without success.
pub open spec fn rejection(
    url: Seq<char>,
    target_file: Seq<char>,
    status: Seq<char>,
    message: Seq<char>,
) -> Seq<char> {
    "Failed to download file from "@ + url + " to "@ + target_file + ". Response status: "@ + status
        + ", Response message: "@ + message
}

/// What the user is told when the response does not announce its length.
pub open spec fn missing_length() -> Seq<char> {
    "Content-Length header is missing when downloading file"@
}

/// The progress of one download: `downloaded_size` of `total_size` bytes are
/// on disk.
#[derive(Debug)]
pub struct FileDownloader {
    pub total_size: usize,
    pub downloaded_size: usize,
}

impl FileDownloader {
    pub fn new(total_size: usize) -> (downloader: Self)
        ensures
            downloader.total_size == total_size,
            downloader.downloaded_size == 0,
    {
        FileDownloader { total_size, downloaded_size: 0 }
    }

    /// Starts the download of `url` to `target_file` from the head of the
    /// response.
    ///
    /// Fails with [`DeployError::FlowExecutionFailed`] where the status is not
    /// one of success, and where it is but no length is announced.
    pub fn download_file(url: &str, target_file: &str, response: &ResponseHead) -> (result: Result<
        Self,
        DeployError,
    >)
        ensures
            match result {
                Ok(downloader) => {
                    &&& response.success
                    &&& response.content_length matches Some(length) && downloader.total_size == length as usize
                    &&& downloader.downloaded_size == 0
                },
                Err(error) => if !response.success {
                    error@ == ErrorView::FlowExecutionFailed(
                        rejection(url@, target_file@, response.status@, response.message@),
                    )
                } else {
                    response.content_length is None && error@ == ErrorView::FlowExecutionFailed(
                        missing_length(),
                    )
                },
            },
    {
        if !response.success {
            let mut text = concat("Failed to download file from ", url);
            text.append(" to ");
            text.append(target_file);
            text.append(". Response status: ");
            text.append(response.status.as_str());
            text.append(", Response message: ");
            text.append(response.message.as_str());
            return Err(DeployError::FlowExecutionFailed(text));
        }
        match response.content_length {
            Some(length) => Ok(FileDownloader::new(#[verifier::truncate] (length as usize))),
            None => Err(
                DeployError::FlowExecutionFailed(
                    "Content-Length header is missing when downloading file".to_owned(),
                ),
            ),
        }
    }

    /// Records that `length` more bytes are on disk and gives the
    /// notification to report for them.
    pub fn chunk_received(&mut self, length: usize) -> (event: ProgressEvent)
        requires
            old(self).downloaded_size + length <= usize::MAX,
        ensures
            final(self).total_size == old(self).total_size,
            final(self).downloaded_size == old(self).downloaded_size + length,
            event.total_size == old(self).total_size,
            event.processed_size == final(self).downloaded_size,
    {
        self.downloaded_size = self.downloaded_size + length;
        ProgressEvent::new(self.total_size, self.downloaded_size)
    }
}

} // verus!
