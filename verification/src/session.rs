//! What a session decides: how the messages of an exec channel add up to the
//! outcome of a command, and what a file transfer asks of the remote side.
//!
//! The connection itself belongs to the caller, which feeds each message it
//! receives to a [`CommandExecution`].

use vstd::prelude::*;
use crate::error::{DeployError, ErrorView, text_result, unit_result};
use crate::text::{concat, decode_lossy, join_path, joined_path, utf8_lossy};

verus! {

/// The seconds of inactivity after which the transport may close a session.
pub const INACTIVITY_TIMEOUT_SECS: u64 = 300;

/// One message of an exec channel, as far as a command's outcome depends on it.
#[derive(Debug)]
pub enum ChannelMessage {
    /// A piece of the command's standard output.
    Data(Vec<u8>),
    /// A piece of another stream of the command, such as its standard error.
    ExtendedData(Vec<u8>),
    /// The command's exit status.
    ExitStatus(u32),
    /// The command was ended by a signal; the text is the message sent with it.
    ExitSignal(String),
    /// Any other message.
    Other,
}

/// A [`ChannelMessage`] with its contents as sequences.
pub enum MessageView {
    Data(Seq<u8>),
    ExtendedData(Seq<u8>),
    ExitStatus(u32),
    ExitSignal(Seq<char>),
    Other,
}

impl View for ChannelMessage {
    type V = MessageView;

    open spec fn view(&self) -> MessageView {
        match self {
            ChannelMessage::Data(data) => MessageView::Data(data@),
            ChannelMessage::ExtendedData(data) => MessageView::ExtendedData(data@),
            ChannelMessage::ExitStatus(status) => MessageView::ExitStatus(*status),
            ChannelMessage::ExitSignal(text) => MessageView::ExitSignal(text@),
            ChannelMessage::Other => MessageView::Other,
        }
    }
}

/// What one exec channel has delivered so far.
#[derive(Debug)]
pub struct CommandExecution {
    /// The exit status, once the channel has sent one.
    pub exit_status: Option<u32>,
    /// The latest description of a failure: a signal's message or error output.
    pub failure: Option<String>,
    /// The standard output kept so far.
    pub output: Vec<u8>,
}

/// A [`CommandExecution`] with its contents as sequences.
pub struct ExecutionView {
    pub exit_status: Option<u32>,
    pub failure: Option<Seq<char>>,
    pub output: Seq<u8>,
}

impl View for CommandExecution {
    type V = ExecutionView;

    open spec fn view(&self) -> ExecutionView {
        ExecutionView {
            exit_status: self.exit_status,
            failure: match self.failure {
                Some(text) => Some(text@),
                None => None,
            },
            output: self.output@,
        }
    }
}

/// The state of a channel that has delivered nothing.
pub open spec fn nothing_received() -> ExecutionView {
    ExecutionView { exit_status: None, failure: None, output: Seq::empty() }
}

/// The state after a message where nothing but the exit status is of interest.
pub open spec fn status_recorded(state: ExecutionView, message: MessageView) -> ExecutionView {
    match message {
        MessageView::ExitStatus(status) => ExecutionView { exit_status: Some(status), ..state },
        _ => state,
    }
}

/// The state after a message where standard output is forwarded, not kept.
pub open spec fn streamed(state: ExecutionView, message: MessageView) -> ExecutionView {
    match message {
        MessageView::ExitSignal(text) => ExecutionView { failure: Some(text), ..state },
        MessageView::ExtendedData(data) => ExecutionView { failure: Some(utf8_lossy(data)), ..state },
        _ => status_recorded(state, message),
    }
}

/// The state after a message where standard output is kept.
pub open spec fn recorded(state: ExecutionView, message: MessageView) -> ExecutionView {
    match message {
        MessageView::Data(data) => ExecutionView { output: state.output + data, ..state },
        _ => streamed(state, message),
    }
}

/// The text to forward for a message: the decoded content of standard output.
pub open spec fn forwarded(message: MessageView) -> Option<Seq<char>> {
    match message {
        MessageView::Data(data) => Some(utf8_lossy(data)),
        _ => None,
    }
}

/// Why a command without a zero exit status failed.
pub open spec fn failure_of(state: ExecutionView) -> ErrorView {
    match state.exit_status {
        None => ErrorView::CommandExecutionTimeout,
        Some(_) => ErrorView::CommandExecutionFailed(
            match state.failure {
                Some(text) => text,
                None => "unknown"@,
            },
        ),
    }
}

/// The outcome of a command whose channel has closed: its decoded output where
/// the exit status is zero, a failure otherwise.
pub open spec fn outcome(state: ExecutionView) -> Result<Seq<char>, ErrorView> {
    if state.exit_status == Some(0u32) {
        Ok(utf8_lossy(state.output))
    } else {
        Err(failure_of(state))
    }
}

impl CommandExecution {
    /// The state of a channel that has delivered nothing.
    pub fn new() -> (execution: Self)
        ensures
            execution@ == nothing_received(),
    {
        CommandExecution { exit_status: None, failure: None, output: Vec::new() }
    }

    /// Takes in one message of a command whose output is kept.
    pub fn record(&mut self, message: ChannelMessage)
        ensures
            final(self)@ == recorded(old(self)@, message@),
    {
        match message {
            ChannelMessage::Data(mut data) => {
                self.output.append(&mut data);
            },
            ChannelMessage::ExtendedData(data) => {
                self.failure = Some(decode_lossy(data.as_slice()));
            },
            ChannelMessage::ExitStatus(status) => {
                self.exit_status = Some(status);
            },
            ChannelMessage::ExitSignal(text) => {
                self.failure = Some(text);
            },
            ChannelMessage::Other => {},
        }
    }

    /// Takes in one message of a command whose output is passed on as it
    /// arrives, and gives the text to pass on for it.
    pub fn record_streaming(&mut self, message: ChannelMessage) -> (chunk: Option<String>)
        ensures
            final(self)@ == streamed(old(self)@, message@),
            match chunk {
                Some(text) => forwarded(message@) == Some(text@),
                None => forwarded(message@) is None,
            },
    {
        match message {
            ChannelMessage::Data(data) => Some(decode_lossy(data.as_slice())),
            ChannelMessage::ExtendedData(data) => {
                self.failure = Some(decode_lossy(data.as_slice()));
                None
            },
            ChannelMessage::ExitStatus(status) => {
                self.exit_status = Some(status);
                None
            },
            ChannelMessage::ExitSignal(text) => {
                self.failure = Some(text);
                None
            },
            ChannelMessage::Other => None,
        }
    }

    /// Takes in one message of a command that is run for its exit status only.
    pub fn record_status(&mut self, message: ChannelMessage)
        ensures
            final(self)@ == status_recorded(old(self)@, message@),
    {
        if let ChannelMessage::ExitStatus(status) = message {
            self.exit_status = Some(status);
        }
    }

    /// The failure of a command that did not exit with status zero.
    fn failure(self) -> (error: DeployError)
        ensures
            error@ == failure_of(self@),
    {
        match self.exit_status {
            None => DeployError::CommandExecutionTimeout,
            Some(_) => match self.failure {
                Some(text) => DeployError::CommandExecutionFailed(text),
                None => DeployError::CommandExecutionFailed("unknown".to_owned()),
            },
        }
    }

    /// The outcome of a buffered command once its channel has closed: the
    /// decoded output if the exit status is zero,
    /// [`DeployError::CommandExecutionTimeout`] if there is no exit status, and
    /// [`DeployError::CommandExecutionFailed`] otherwise.
    pub fn execute_command(self) -> (result: Result<String, DeployError>)
        ensures
            text_result(result) == outcome(self@),
    {
        match self.exit_status {
            Some(0) => Ok(decode_lossy(self.output.as_slice())),
            _ => Err(self.failure()),
        }
    }

    /// The outcome of a streamed command once its channel has closed: success
    /// exactly when the exit status is zero.
    pub fn execute_command_stream(self) -> (result: Result<(), DeployError>)
        ensures
            self@.exit_status == Some(0u32) ==> result is Ok,
            self@.exit_status != Some(0u32) ==> unit_result(result) == Err::<(), ErrorView>(
                failure_of(self@),
            ),
    {
        match self.exit_status {
            Some(0) => Ok(()),
            _ => Err(self.failure()),
        }
    }

    /// The answer of a command run as a test once its channel has closed:
    /// whether it exited with status zero, or
    /// [`DeployError::CommandExecutionTimeout`] if there is no exit status.
    pub fn test_command(self) -> (result: Result<bool, DeployError>)
        ensures
            match self@.exit_status {
                Some(status) => result == Ok::<bool, DeployError>(status == 0),
                None => (result matches Err(error) && error@ == ErrorView::CommandExecutionTimeout),
            },
    {
        match self.exit_status {
            Some(status) => Ok(status == 0),
            None => Err(DeployError::CommandExecutionTimeout),
        }
    }
}

/// The state of a channel after a sequence of messages of a buffered command.
pub open spec fn replayed(messages: Seq<MessageView>) -> ExecutionView
    decreases messages.len(),
{
    if messages.len() == 0 {
        nothing_received()
    } else {
        recorded(replayed(messages.drop_last()), messages.last())
    }
}

/// The exit status a sequence of messages ends with: that of its last exit
/// status message, if it has one.
pub open spec fn final_exit_status(messages: Seq<MessageView>) -> Option<u32>
    decreases messages.len(),
{
    if messages.len() == 0 {
        None
    } else if let MessageView::ExitStatus(status) = messages.last() {
        Some(status)
    } else {
        final_exit_status(messages.drop_last())
    }
}

/// The standard output in a sequence of messages, in the order received.
pub open spec fn standard_output(messages: Seq<MessageView>) -> Seq<u8>
    decreases messages.len(),
{
    if messages.len() == 0 {
        Seq::empty()
    } else if let MessageView::Data(data) = messages.last() {
        standard_output(messages.drop_last()) + data
    } else {
        standard_output(messages.drop_last())
    }
}

/// A command succeeds exactly when the last exit status its channel sent is
/// zero, and then with all its standard output, decoded; with no exit status it
/// fails as timed out, and with any other as failed. Nothing else is possible.
pub proof fn outcome_follows_exit_status(messages: Seq<MessageView>)
    ensures
        replayed(messages).exit_status == final_exit_status(messages),
        replayed(messages).output == standard_output(messages),
        final_exit_status(messages) == Some(0u32) ==> outcome(replayed(messages)) == Ok::<
            Seq<char>,
            ErrorView,
        >(utf8_lossy(standard_output(messages))),
        final_exit_status(messages) is None ==> outcome(replayed(messages)) == Err::<
            Seq<char>,
            ErrorView,
        >(ErrorView::CommandExecutionTimeout),
        final_exit_status(messages) matches Some(status) && status != 0 ==> outcome(
            replayed(messages),
        ) matches Err(ErrorView::CommandExecutionFailed(_)),
    decreases messages.len(),
{
    if messages.len() > 0 {
        outcome_follows_exit_status(messages.drop_last());
    }
}

/// The state of a channel after a sequence of messages of a streamed command.
pub open spec fn replayed_streaming(messages: Seq<MessageView>) -> ExecutionView
    decreases messages.len(),
{
    if messages.len() == 0 {
        nothing_received()
    } else {
        streamed(replayed_streaming(messages.drop_last()), messages.last())
    }
}

/// The state of a channel after a sequence of messages of a command that is
/// run for its exit status only.
pub open spec fn replayed_status(messages: Seq<MessageView>) -> ExecutionView
    decreases messages.len(),
{
    if messages.len() == 0 {
        nothing_received()
    } else {
        status_recorded(replayed_status(messages.drop_last()), messages.last())
    }
}

/// However a command is run, the exit status that decides its outcome is the
/// last one its channel sent; a streamed command keeps none of its output,
/// and a command run as a test keeps neither output nor a failure's
/// description.
pub proof fn exit_status_is_the_last_sent(messages: Seq<MessageView>)
    ensures
        replayed(messages).exit_status == final_exit_status(messages),
        replayed_streaming(messages).exit_status == final_exit_status(messages),
        replayed_status(messages).exit_status == final_exit_status(messages),
        replayed_streaming(messages).failure == replayed(messages).failure,
        replayed_streaming(messages).output == Seq::<u8>::empty(),
        replayed_status(messages).output == Seq::<u8>::empty(),
        replayed_status(messages).failure is None,
    decreases messages.len(),
{
    if messages.len() > 0 {
        exit_status_is_the_last_sent(messages.drop_last());
    }
}

/// What a file transfer asks of the remote side before any byte is written.
#[derive(Debug)]
pub struct TransferTarget {
    /// The command that makes sure the directory exists.
    pub prepare_command: String,
    /// The path of the remote file to create or truncate.
    pub remote_file: String,
}

/// The command that creates a remote directory with its missing parents.
pub open spec fn mkdir_command(dir: Seq<char>) -> Seq<char> {
    "mkdir -p "@ + dir
}

/// The preparation of a transfer of a file named `filename` into the remote
/// directory `dir`.
pub fn transfer_file(dir: &str, filename: &str) -> (target: TransferTarget)
    ensures
        target.prepare_command@ == mkdir_command(dir@),
        target.remote_file@ == joined_path(dir@, filename@),
{
    TransferTarget {
        prepare_command: concat("mkdir -p ", dir),
        remote_file: join_path(dir, filename),
    }
}

/// The decision of a connection attempt by the server's answer to the
/// password: [`DeployError::AuthenticationFailed`] exactly when it was rejected.
pub fn connect(password_accepted: bool) -> (result: Result<(), DeployError>)
    ensures
        password_accepted ==> result is Ok,
        !password_accepted ==> unit_result(result) == Err::<(), ErrorView>(
            ErrorView::AuthenticationFailed,
        ),
{
    if password_accepted {
        Ok(())
    } else {
        Err(DeployError::AuthenticationFailed)
    }
}

} // verus!
