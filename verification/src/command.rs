//! Service responsible for handling the commands of a [host](crate::host).
//!
//! A [`CommandService`] sends one command to the device and shows its output until the output is
//! complete. A CTRL C makes it ask the device to interrupt the command; `exit` closes the
//! connection.

use vstd::prelude::*;

use crate::host::{closed_with, HostError};
use crate::protocol::{DeviceMsg, HostMsg};
use crate::text::{
    is_white_space, law_trimming_removes_the_white_space_around, same_text, trim, trimmed,
};
use crate::tls;
use crate::transport::{IoError, SendError, TransportError};

verus! {

/// Runs one command of a host.
#[derive(Clone, Copy, Debug, PartialEq, Eq, Structural)]
pub enum CommandService {
    /// Waits until the connection is closed.
    Closing,
    /// Waits until the command is sent.
    Sending,
    /// Waits for output, or for a CTRL C.
    Waiting,
    /// Waits until output is written.
    Writing,
    /// Waits until the CTRL C is sent.
    Interrupting,
    /// Waits for the rest of the output after a CTRL C.
    Draining,
    /// Waits until output that arrived after a CTRL C is written.
    WritingRest,
    /// Is done.
    Returned,
}

/// What a [`CommandService`] is told.
#[derive(Debug)]
pub enum CommandEvent {
    /// The outcome of [`CommandAction::Close`].
    Closed(Result<(), HostError>),
    /// The outcome of [`CommandAction::Send`].
    Sent(Result<(), SendError>),
    /// The user typed CTRL C.
    CtrlC,
    /// The next message of the device, an error in its place, or the end of the messages.
    Received(Option<Result<DeviceMsg, HostError>>),
    /// The outcome of [`CommandAction::Write`].
    Written(Result<(), IoError>),
}

/// What a [`CommandService`] asks for.
#[derive(Debug)]
pub enum CommandAction {
    /// Close the connection.
    Close,
    /// Send a message to the device.
    Send(HostMsg),
    /// Wait for a message of the device or for a CTRL C.
    Wait,
    /// Wait for a message of the device.
    Drain,
    /// Write output to stdout.
    Write(Vec<u8>),
    /// End with this result.
    Return(Result<(), HostError>),
    /// Go on waiting: the event was not one that is waited for.
    Ignore,
}

/// Whether a command that was typed in closes the connection.
pub open spec fn is_exit(cmd: Seq<char>) -> bool {
    trim(cmd) == "exit"@
}

/// Tests whether a command closes the connection.
pub fn is_exit_command(cmd: &str) -> (r: bool)
    ensures
        r == is_exit(cmd@),
{
    same_text(trimmed(cmd), "exit")
}

/// What a message of the device comes to.
#[derive(Debug)]
pub enum MessageStep {
    /// No more messages arrive for the command.
    Stop,
    /// This output is to be written.
    Write(Vec<u8>),
}

/// What a message comes to, or the error in its place.
pub open spec fn message_step(msg: Result<DeviceMsg, HostError>) -> Result<MessageStep, HostError> {
    match msg {
        Ok(DeviceMsg::Output(out)) => Ok(MessageStep::Write(out)),
        Ok(_) => Ok(MessageStep::Stop),
        Err(err) => Err(err),
    }
}

/// What the next message comes to; the messages end with an error.
pub open spec fn incoming_step(msg: Option<Result<DeviceMsg, HostError>>) -> Result<
    MessageStep,
    HostError,
> {
    match msg {
        Some(msg) => message_step(msg),
        None => Err(HostError::UnexpectedEof),
    }
}

/// The first step of a command.
pub open spec fn command_start(cmd: String) -> (CommandService, CommandAction) {
    if is_exit(cmd@) {
        (CommandService::Closing, CommandAction::Close)
    } else {
        (CommandService::Sending, CommandAction::Send(HostMsg::Command { cmd }))
    }
}

/// The error of the host for a message that was not sent.
pub open spec fn send_failure(err: SendError) -> HostError {
    match err {
        SendError::Encode(err) => HostError::Serialize(err),
        SendError::Transport(err) => HostError::TungsteniteReadData(err),
    }
}

/// How a service goes on with what a message came to.
pub open spec fn stepped(step: Result<MessageStep, HostError>, writing: CommandService) -> (
    CommandService,
    CommandAction,
) {
    match step {
        Ok(MessageStep::Write(out)) => (writing, CommandAction::Write(out)),
        Ok(MessageStep::Stop) => (CommandService::Returned, CommandAction::Return(Ok(()))),
        Err(err) => (CommandService::Returned, CommandAction::Return(Err(err))),
    }
}

/// How a [`CommandService`] goes on: its next state, and what it asks for.
pub open spec fn command_next(service: CommandService, event: CommandEvent) -> (
    CommandService,
    CommandAction,
) {
    match (service, event) {
        (CommandService::Closing, CommandEvent::Closed(Ok(()))) => (
            CommandService::Returned,
            CommandAction::Return(Err(HostError::Exit)),
        ),
        (CommandService::Closing, CommandEvent::Closed(Err(err))) => (
            CommandService::Returned,
            CommandAction::Return(Err(err)),
        ),
        (CommandService::Sending, CommandEvent::Sent(Ok(()))) => (
            CommandService::Waiting,
            CommandAction::Wait,
        ),
        (CommandService::Sending, CommandEvent::Sent(Err(err))) => (
            CommandService::Returned,
            CommandAction::Return(Err(send_failure(err))),
        ),
        (CommandService::Waiting, CommandEvent::CtrlC) => (
            CommandService::Interrupting,
            CommandAction::Send(HostMsg::Ctrlc),
        ),
        (CommandService::Waiting, CommandEvent::Received(msg)) => stepped(
            incoming_step(msg),
            CommandService::Writing,
        ),
        (CommandService::Interrupting, CommandEvent::Sent(Err(SendError::Encode(err)))) => (
            CommandService::Returned,
            CommandAction::Return(Err(HostError::Serialize(err))),
        ),
        (CommandService::Interrupting, CommandEvent::Sent(_)) => (
            CommandService::Draining,
            CommandAction::Drain,
        ),
        (CommandService::Draining, CommandEvent::Received(None)) => (
            CommandService::Returned,
            CommandAction::Return(Ok(())),
        ),
        (CommandService::Draining, CommandEvent::Received(Some(msg))) => stepped(
            message_step(msg),
            CommandService::WritingRest,
        ),
        (CommandService::Writing, CommandEvent::Written(Ok(()))) => (
            CommandService::Waiting,
            CommandAction::Wait,
        ),
        (CommandService::WritingRest, CommandEvent::Written(Ok(()))) => (
            CommandService::Draining,
            CommandAction::Drain,
        ),
        (CommandService::Writing | CommandService::WritingRest, CommandEvent::Written(Err(err))) =>
        (CommandService::Returned, CommandAction::Return(Err(HostError::IOWrite(err)))),
        _ => (service, CommandAction::Ignore),
    }
}

/// The result of a command for the host, given the result of its execution.
pub open spec fn host_result(result: Result<(), HostError>) -> Result<(), HostError> {
    match result {
        Ok(()) => Ok(()),
        Err(err) => match closed_with(err) {
            Ok(_) => Ok(()),
            Err(err) => Err(err),
        },
    }
}

impl CommandService {
    /// Starts a command.
    pub fn call(cmd: String) -> (r: (CommandService, CommandAction))
        ensures
            r == command_start(cmd),
    {
        if is_exit_command(cmd.as_str()) {
            (CommandService::Closing, CommandAction::Close)
        } else {
            (CommandService::Sending, CommandAction::Send(HostMsg::Command { cmd }))
        }
    }

    /// Takes a message of the device: output is to be written, anything else ends the command.
    pub fn handle_msg_variants(msg: Result<DeviceMsg, HostError>) -> (r: Result<
        MessageStep,
        HostError,
    >)
        ensures
            r == message_step(msg),
    {
        match msg {
            Ok(DeviceMsg::Eof) => Ok(MessageStep::Stop),
            Ok(DeviceMsg::Failure(_)) => Ok(MessageStep::Stop),
            Ok(DeviceMsg::Output(out)) => Ok(MessageStep::Write(out)),
            Err(err) => Err(err),
        }
    }

    /// Takes the next message of the device, where the end of the messages is an error.
    pub fn handle_incoming_msg(msg: Option<Result<DeviceMsg, HostError>>) -> (r: Result<
        MessageStep,
        HostError,
    >)
        ensures
            r == incoming_step(msg),
    {
        match msg {
            Some(msg) => Self::handle_msg_variants(msg),
            None => Err(HostError::UnexpectedEof),
        }
    }

    fn take_step(&mut self, step: Result<MessageStep, HostError>, writing: CommandService) -> (r:
        CommandAction)
        ensures
            (*final(self), r) == stepped(step, writing),
    {
        match step {
            Ok(MessageStep::Write(out)) => {
                *self = writing;
                CommandAction::Write(out)
            },
            Ok(MessageStep::Stop) => {
                *self = CommandService::Returned;
                CommandAction::Return(Ok(()))
            },
            Err(err) => {
                *self = CommandService::Returned;
                CommandAction::Return(Err(err))
            },
        }
    }

    /// Takes an event.
    pub fn impl_handle_command(&mut self, event: CommandEvent) -> (r: CommandAction)
        ensures
            (*final(self), r) == command_next(*old(self), event),
    {
        match (*self, event) {
            (CommandService::Closing, CommandEvent::Closed(Ok(()))) => {
                *self = CommandService::Returned;
                CommandAction::Return(Err(HostError::Exit))
            },
            (CommandService::Closing, CommandEvent::Closed(Err(err))) => {
                *self = CommandService::Returned;
                CommandAction::Return(Err(err))
            },
            (CommandService::Sending, CommandEvent::Sent(Ok(()))) => {
                *self = CommandService::Waiting;
                CommandAction::Wait
            },
            (CommandService::Sending, CommandEvent::Sent(Err(SendError::Encode(err)))) => {
                *self = CommandService::Returned;
                CommandAction::Return(Err(HostError::Serialize(err)))
            },
            (CommandService::Sending, CommandEvent::Sent(Err(SendError::Transport(err)))) => {
                *self = CommandService::Returned;
                CommandAction::Return(Err(HostError::TungsteniteReadData(err)))
            },
            (CommandService::Waiting, CommandEvent::CtrlC) => {
                *self = CommandService::Interrupting;
                CommandAction::Send(HostMsg::Ctrlc)
            },
            (CommandService::Waiting, CommandEvent::Received(msg)) => {
                let step = Self::handle_incoming_msg(msg);
                self.take_step(step, CommandService::Writing)
            },
            (CommandService::Interrupting, CommandEvent::Sent(Err(SendError::Encode(err)))) => {
                *self = CommandService::Returned;
                CommandAction::Return(Err(HostError::Serialize(err)))
            },
            (CommandService::Interrupting, CommandEvent::Sent(_)) => {
                *self = CommandService::Draining;
                CommandAction::Drain
            },
            (CommandService::Draining, CommandEvent::Received(None)) => {
                *self = CommandService::Returned;
                CommandAction::Return(Ok(()))
            },
            (CommandService::Draining, CommandEvent::Received(Some(msg))) => {
                let step = Self::handle_msg_variants(msg);
                self.take_step(step, CommandService::WritingRest)
            },
            (CommandService::Writing, CommandEvent::Written(Ok(()))) => {
                *self = CommandService::Waiting;
                CommandAction::Wait
            },
            (CommandService::WritingRest, CommandEvent::Written(Ok(()))) => {
                *self = CommandService::Draining;
                CommandAction::Drain
            },
            (
                CommandService::Writing
                | CommandService::WritingRest,
                CommandEvent::Written(Err(err)),
            ) => {
                *self = CommandService::Returned;
                CommandAction::Return(Err(HostError::IOWrite(err)))
            },
            _ => CommandAction::Ignore,
        }
    }

    /// The result of a command for the host, given the result of its execution: an error that
    /// only concerns the connection ends the connection and not the host.
    pub fn handle_command(result: Result<(), HostError>) -> (r: Result<(), HostError>)
        ensures
            r == host_result(result),
    {
        match result {
            Ok(()) => Ok(()),
            Err(err) => match err.handle_close() {
                Ok(_) => Ok(()),
                Err(err) => Err(err),
            },
        }
    }
}

/// A command closes the connection if and only if it is the word `exit`, with any white space
/// around it: any other word, however long, does not.
pub proof fn law_exit_command(front: Seq<char>, word: Seq<char>, back: Seq<char>)
    requires
        forall|i: int| 0 <= i < front.len() ==> is_white_space(#[trigger] front[i]),
        forall|i: int| 0 <= i < back.len() ==> is_white_space(#[trigger] back[i]),
        word.len() > 0 ==> !is_white_space(word[0]) && !is_white_space(word.last()),
    ensures
        is_exit(front + word + back) <==> word == seq!['e', 'x', 'i', 't'],
{
    reveal_strlit("exit");
    assert("exit"@ =~= seq!['e', 'x', 'i', 't']);
    law_trimming_removes_the_white_space_around(front, word, back);
}

/// A command is sent to the device exactly as it was typed in, unless it closes the connection.
pub proof fn law_command_is_sent_as_it_is(cmd: String, msg: HostMsg)
    ensures
        command_start(cmd).1 == CommandAction::Send(msg) <==> !is_exit(cmd@) && msg
            == (HostMsg::Command { cmd }),
        command_start(cmd).1 is Close <==> is_exit(cmd@),
        command_start(cmd).0 == if is_exit(cmd@) {
            CommandService::Closing
        } else {
            CommandService::Sending
        },
{
}

/// What a message of the device comes to: output is written, all of it; the end of the output and
/// a failure stop the command; an error is an error; and so is the end of the messages.
pub proof fn law_messages_of_the_device(
    msg: Result<DeviceMsg, HostError>,
    out: Vec<u8>,
    err: HostError,
)
    ensures
        message_step(msg) == Ok::<MessageStep, HostError>(MessageStep::Write(out)) <==> msg == Ok::<
            DeviceMsg,
            HostError,
        >(DeviceMsg::Output(out)),
        message_step(msg) == Ok::<MessageStep, HostError>(MessageStep::Stop) <==> (
        msg matches Ok(m) && (m is Eof || m is Failure)),
        message_step(msg) == Err::<MessageStep, HostError>(err) <==> msg == Err::<
            DeviceMsg,
            HostError,
        >(err),
        incoming_step(Some(msg)) == message_step(msg),
        incoming_step(None) == Err::<MessageStep, HostError>(HostError::UnexpectedEof),
{
}

/// What a command does with what it is told. It writes exactly the output that it receives; it
/// sends a CTRL C exactly where one is typed in while it waits; it ends well exactly with the last
/// message for it, or with the end of the messages after a CTRL C; and it ends with the errors
/// that it is told, and with no others.
pub proof fn law_command_does_what_it_is_told(
    service: CommandService,
    event: CommandEvent,
    msg: HostMsg,
    out: Vec<u8>,
    err: HostError,
)
    ensures
        ({
            let (next, action) = command_next(service, event);
            let listening = service == CommandService::Waiting || service
                == CommandService::Draining;
            let writing = service == CommandService::Writing || service
                == CommandService::WritingRest;
            &&& action == CommandAction::Send(msg) <==> service == CommandService::Waiting && event
                is CtrlC && msg == HostMsg::Ctrlc
            &&& action == CommandAction::Write(out) <==> listening && event
                == CommandEvent::Received(Some(Ok(DeviceMsg::Output(out))))
            &&& action is Wait <==> {
                ||| service == CommandService::Sending && (event matches CommandEvent::Sent(Ok(_)))
                ||| service == CommandService::Writing && (event matches CommandEvent::Written(
                    Ok(_),
                ))
            }
            &&& action is Drain <==> {
                ||| service == CommandService::Interrupting && event is Sent && !(
                event matches CommandEvent::Sent(Err(SendError::Encode(_))))
                ||| service == CommandService::WritingRest && (event matches CommandEvent::Written(
                    Ok(_),
                ))
            }
            &&& !(action is Close)
            &&& (action matches CommandAction::Return(Ok(_))) <==> {
                ||| listening && (event matches CommandEvent::Received(Some(Ok(m))) && (m is Eof
                    || m is Failure))
                ||| service == CommandService::Draining && event == CommandEvent::Received(None)
            }
            &&& action == CommandAction::Return(Err(err)) <==> {
                ||| service == CommandService::Closing && (event matches CommandEvent::Closed(Ok(_))
                    && err == HostError::Exit)
                ||| service == CommandService::Closing && event == CommandEvent::Closed(Err(err))
                ||| (service == CommandService::Sending || service == CommandService::Interrupting)
                    && (event matches CommandEvent::Sent(Err(SendError::Encode(e))) && err
                    == HostError::Serialize(e))
                ||| service == CommandService::Sending && (event matches CommandEvent::Sent(
                    Err(SendError::Transport(e)),
                ) && err == HostError::TungsteniteReadData(e))
                ||| listening && event == CommandEvent::Received(Some(Err(err)))
                ||| service == CommandService::Waiting && event == CommandEvent::Received(None)
                    && err == HostError::UnexpectedEof
                ||| writing && (event matches CommandEvent::Written(Err(e)) && err
                    == HostError::IOWrite(e))
            }
            &&& next == match action {
                CommandAction::Close => CommandService::Closing,
                CommandAction::Send(_) => CommandService::Interrupting,
                CommandAction::Wait => CommandService::Waiting,
                CommandAction::Drain => CommandService::Draining,
                CommandAction::Write(_) => if service == CommandService::Waiting {
                    CommandService::Writing
                } else {
                    CommandService::WritingRest
                },
                CommandAction::Return(_) => CommandService::Returned,
                CommandAction::Ignore => service,
            }
        }),
{
}

/// What a command means for the host: an error that only concerns the connection either is
/// forgotten or asks for the next device, and any other error stays what it is.
pub proof fn law_result_of_a_command(err: HostError)
    ensures
        ({
            let result = host_result(Err(err));
            let discarded = err matches HostError::Tls(tls::Error::AcceptTls(_));
            let over = {
                ||| err == HostError::Exit
                ||| err is TungsteniteReadData
                ||| (err matches HostError::WebSocketConnect(e) && (e
                    == TransportError::ResetWithoutClosingHandshake || (
                e matches TransportError::Io(io) && io.kind is UnexpectedEof)))
            };
            &&& host_result(Ok(())) is Ok
            &&& result is Ok <==> discarded
            &&& over ==> result == Err::<(), HostError>(HostError::Exit)
            &&& !discarded && !over ==> result == Err::<(), HostError>(err)
        }),
{
}

} // verus!
