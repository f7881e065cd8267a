//! The failures a session or a flow run can end in.

use vstd::prelude::*;
use crate::text::concat;

verus! {

/// `tera::Error`, the failure of a rendering. Nothing of its inside is
/// visible here.
#[verifier::external_type_specification]
#[verifier::external_body]
pub struct ExTemplateFailure(tera::Error);

/// Why an operation failed.
///
/// Transport and I/O failures happen outside the library; they are carried as
/// the text their source gave them.
#[derive(Debug)]
pub enum DeployError {
    /// A local file operation failed.
    Io(String),
    /// The SSH transport or protocol failed.
    SshError(String),
    /// The file-transfer subsystem failed.
    SftpError(String),
    /// The user interface refused an event.
    TauriError(String),
    /// An HTTP request failed.
    RequestError(String),
    /// A template could not be rendered.
    TemplateError(tera::Error),
    /// The server rejected the password.
    AuthenticationFailed,
    /// The channel closed without an exit status.
    CommandExecutionTimeout,
    /// The command exited with a status other than zero.
    CommandExecutionFailed(String),
    /// A flow could not go on.
    FlowExecutionFailed(String),
    /// A path has no directory or no file name.
    InvalidPath,
    /// A path has no file name to carry over.
    InvalidFilename(String),
}

/// A [`DeployError`] with its texts as sequences of characters.
pub enum ErrorView {
    Io(Seq<char>),
    SshError(Seq<char>),
    SftpError(Seq<char>),
    TauriError(Seq<char>),
    RequestError(Seq<char>),
    TemplateError(tera::Error),
    AuthenticationFailed,
    CommandExecutionTimeout,
    CommandExecutionFailed(Seq<char>),
    FlowExecutionFailed(Seq<char>),
    InvalidPath,
    InvalidFilename(Seq<char>),
}

impl View for DeployError {
    type V = ErrorView;

    open spec fn view(&self) -> ErrorView {
        match self {
            DeployError::Io(detail) => ErrorView::Io(detail@),
            DeployError::SshError(detail) => ErrorView::SshError(detail@),
            DeployError::SftpError(detail) => ErrorView::SftpError(detail@),
            DeployError::TauriError(detail) => ErrorView::TauriError(detail@),
            DeployError::RequestError(detail) => ErrorView::RequestError(detail@),
            DeployError::TemplateError(cause) => ErrorView::TemplateError(*cause),
            DeployError::AuthenticationFailed => ErrorView::AuthenticationFailed,
            DeployError::CommandExecutionTimeout => ErrorView::CommandExecutionTimeout,
            DeployError::CommandExecutionFailed(detail) => ErrorView::CommandExecutionFailed(detail@),
            DeployError::FlowExecutionFailed(detail) => ErrorView::FlowExecutionFailed(detail@),
            DeployError::InvalidPath => ErrorView::InvalidPath,
            DeployError::InvalidFilename(name) => ErrorView::InvalidFilename(name@),
        }
    }
}

/// A result that carries a text, with the text and the error by their views.
pub open spec fn text_result(result: Result<String, DeployError>) -> Result<Seq<char>, ErrorView> {
    match result {
        Ok(text) => Ok(text@),
        Err(error) => Err(error@),
    }
}

/// A result that carries nothing, with the error by its view.
pub open spec fn unit_result(result: Result<(), DeployError>) -> Result<(), ErrorView> {
    match result {
        Ok(_) => Ok(()),
        Err(error) => Err(error@),
    }
}

/// The description that `tera::Error`'s `Display` writes of a failure.
pub uninterp spec fn template_failure_text(cause: tera::Error) -> Seq<char>;

/// `tera::Error`'s `Display`, through `to_string`: the failure's own
/// description. The contract only names the result.
#[verifier::external_body]
fn describe_template_failure(cause: &tera::Error) -> (text: String)
    ensures
        text@ == template_failure_text(*cause),
{
    cause.to_string()
}

impl DeployError {
    /// The message shown to the user.
    pub fn message(&self) -> (text: String)
        ensures
            match self@ {
                ErrorView::Io(detail) => text@ == detail,
                ErrorView::SshError(detail) => text@ == detail,
                ErrorView::SftpError(detail) => text@ == detail,
                ErrorView::TauriError(detail) => text@ == detail,
                ErrorView::RequestError(detail) => text@ == detail,
                ErrorView::TemplateError(cause) => text@ == template_failure_text(cause),
                ErrorView::AuthenticationFailed => text@ == "服务器认证失败"@,
                ErrorView::CommandExecutionTimeout => text@ == "命令执行超时"@,
                ErrorView::CommandExecutionFailed(detail) => text@ == "命令执行失败: "@ + detail,
                ErrorView::FlowExecutionFailed(detail) => text@ == "流程执行失败: "@ + detail,
                ErrorView::InvalidPath => text@ == "无效的路径"@,
                ErrorView::InvalidFilename(name) => text@ == "无效的文件名: "@ + name,
            },
    {
        match self {
            DeployError::Io(detail) => detail.clone(),
            DeployError::SshError(detail) => detail.clone(),
            DeployError::SftpError(detail) => detail.clone(),
            DeployError::TauriError(detail) => detail.clone(),
            DeployError::RequestError(detail) => detail.clone(),
            DeployError::TemplateError(cause) => describe_template_failure(cause),
            DeployError::AuthenticationFailed => "服务器认证失败".to_owned(),
            DeployError::CommandExecutionTimeout => "命令执行超时".to_owned(),
            DeployError::CommandExecutionFailed(detail) => concat("命令执行失败: ", detail.as_str()),
            DeployError::FlowExecutionFailed(detail) => concat("流程执行失败: ", detail.as_str()),
            DeployError::InvalidPath => "无效的路径".to_owned(),
            DeployError::InvalidFilename(name) => concat("无效的文件名: ", name.as_str()),
        }
    }
}

} // verus!
