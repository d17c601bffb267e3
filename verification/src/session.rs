//! What holds of a whole connection between a host and a device.
//!
//! A [`Session`] puts the two tasks of a device together with what they share: the queue of
//! messages, the flag that stops the output of a command, and whether a process is running. The
//! last laws follow the output of one command from the device to the terminal of the host.

use vstd::prelude::*;

use crate::command::{
    command_next, command_start, host_result, is_exit, CommandAction, CommandEvent, CommandService,
};
use crate::device::{
    connection_next, message_next, ConnectionAction, ConnectionEvent, ConnectionTask, MessageEvent,
    MessageRequest, MessageTask, OutputEvent,
};
use crate::host::{listen_next, HostError, ListenAction, ListenEvent, ListenLoop};
use crate::protocol::{DeviceMsg, HostMsg, Reply};
use crate::shell::ShellError;
use crate::transport::{peer_is_gone, SendError, TransportError};

verus! {

/// The state of a device that serves a host.
pub struct Session {
    /// The task that receives the messages of the host.
    pub connection: ConnectionTask,
    /// The task that executes the commands.
    pub task: MessageTask,
    /// The messages that were passed on and not taken yet.
    pub queue: Seq<HostMsg>,
    /// The flag that stops the output of the current command.
    pub stop: bool,
    /// Whether there is a current process.
    pub running: bool,
}

/// What happens in a session: one of the tasks is told something.
pub enum SessionEvent {
    /// To the task that receives the messages of the host.
    Connection(ConnectionEvent),
    /// To the task that executes the commands.
    Task(MessageEvent),
}

/// The session that starts when a device connects with a host.
pub open spec fn new_session() -> Session {
    Session {
        connection: ConnectionTask::Receiving,
        task: MessageTask::Receiving,
        queue: Seq::empty(),
        stop: false,
        running: false,
    }
}

/// Whether an event can happen: the task waits for it, a message is taken from the front of the
/// queue, the messages end only once all of them are taken, an interrupt finds a process if and
/// only if one is running, and output is not read any more if and only if the stop flag is set.
pub open spec fn can_happen(session: Session, event: SessionEvent) -> bool {
    match event {
        SessionEvent::Connection(event) => {
            &&& connection_next(session.connection, event, session.stop).1 !is Ignore
            &&& event matches ConnectionEvent::Interrupted(res) ==> (session.running <==> !(
            res matches Err(ShellError::NoCommand)))
        },
        SessionEvent::Task(event) => {
            &&& message_next(session.task, event).1 !is Ignore
            &&& event matches MessageEvent::Received(Some(msg)) ==> session.queue.len() > 0 && msg
                == session.queue[0]
            &&& event matches MessageEvent::Received(None) ==> session.queue.len() == 0
            &&& event matches MessageEvent::Output(out) ==> (session.stop <==> out is Stopped)
        },
    }
}

/// The session after an event.
pub open spec fn session_next(session: Session, event: SessionEvent) -> Session {
    match event {
        SessionEvent::Connection(event) => {
            let (connection, action, stop) = connection_next(
                session.connection,
                event,
                session.stop,
            );
            Session {
                connection,
                queue: match action {
                    ConnectionAction::Queue(msg) => session.queue.push(msg),
                    _ => session.queue,
                },
                stop,
                running: session.running && !(event is Interrupted),
                ..session
            }
        },
        SessionEvent::Task(event) => {
            let (task, _) = message_next(session.task, event);
            Session {
                task,
                queue: if event matches MessageEvent::Received(Some(_)) {
                    session.queue.skip(1)
                } else {
                    session.queue
                },
                stop: session.stop && !(event matches MessageEvent::Output(OutputEvent::Stopped)),
                running: match event {
                    MessageEvent::Executed(Ok(())) => true,
                    MessageEvent::Emptied => false,
                    _ => session.running,
                },
                ..session
            }
        },
    }
}

/// The session after a series of events.
pub open spec fn session_after(events: Seq<SessionEvent>) -> Session
    decreases events.len(),
{
    if events.len() == 0 {
        new_session()
    } else {
        session_next(session_after(events.drop_last()), events.last())
    }
}

/// Whether the events can happen one after the other, from the start of a session.
pub open spec fn can_all_happen(events: Seq<SessionEvent>) -> bool
    decreases events.len(),
{
    events.len() == 0 || (can_all_happen(events.drop_last()) && can_happen(
        session_after(events.drop_last()),
        events.last(),
    ))
}

/// The messages of the host that arrived, in order, without the CTRL C.
pub open spec fn arrived(events: Seq<SessionEvent>) -> Seq<HostMsg>
    decreases events.len(),
{
    if events.len() == 0 {
        Seq::empty()
    } else {
        let before = arrived(events.drop_last());
        match events.last() {
            SessionEvent::Connection(ConnectionEvent::Received(Some(Ok(msg)))) => if msg
                == HostMsg::Ctrlc {
                before
            } else {
                before.push(msg)
            },
            _ => before,
        }
    }
}

/// The messages that the task that executes the commands took, in order.
pub open spec fn taken(events: Seq<SessionEvent>) -> Seq<HostMsg>
    decreases events.len(),
{
    if events.len() == 0 {
        Seq::empty()
    } else {
        let before = taken(events.drop_last());
        match events.last() {
            SessionEvent::Task(MessageEvent::Received(Some(msg))) => before.push(msg),
            _ => before,
        }
    }
}

/// The messages of a host are handled in the order in which they arrive, none is lost and none is
/// handled twice: those that were taken, followed by those that wait, are those that arrived.
pub proof fn law_messages_are_handled_in_order(events: Seq<SessionEvent>)
    requires
        can_all_happen(events),
    ensures
        taken(events) + session_after(events).queue == arrived(events),
    decreases events.len(),
{
    if events.len() > 0 {
        let before = events.drop_last();
        law_messages_are_handled_in_order(before);
        let session = session_after(before);
        match events.last() {
            SessionEvent::Connection(event) => {
                assert(taken(events) == taken(before));
                let action = connection_next(session.connection, event, session.stop).1;
                if let ConnectionAction::Queue(msg) = action {
                    assert(taken(events) + session.queue.push(msg) =~= (taken(before)
                        + session.queue).push(msg));
                }
            },
            SessionEvent::Task(event) => {
                assert(arrived(events) == arrived(before));
                if let MessageEvent::Received(Some(msg)) = event {
                    assert(taken(before).push(msg) + session.queue.skip(1) =~= taken(before)
                        + session.queue);
                }
            },
        }
    } else {
        assert(taken(events) + session_after(events).queue =~= arrived(events));
    }
}

proof fn lemma_ctrl_c_is_not_queued(events: Seq<SessionEvent>)
    requires
        can_all_happen(events),
    ensures
        !session_after(events).queue.contains(HostMsg::Ctrlc),
    decreases events.len(),
{
    if events.len() > 0 {
        let before = events.drop_last();
        lemma_ctrl_c_is_not_queued(before);
        let old_queue = session_after(before).queue;
        let queue = session_after(events).queue;
        if queue.contains(HostMsg::Ctrlc) {
            let i = choose|i: int| 0 <= i < queue.len() && queue[i] == HostMsg::Ctrlc;
            if queue.len() <= old_queue.len() && queue != old_queue {
                assert(old_queue[i + 1] == HostMsg::Ctrlc);
            } else {
                assert(old_queue[i] == HostMsg::Ctrlc);
            }
        }
    }
}

/// The task that executes the commands is never told of a CTRL C, which is what it requires.
pub proof fn law_ctrl_c_is_not_passed_on(events: Seq<SessionEvent>, event: MessageEvent)
    requires
        can_all_happen(events),
        can_happen(session_after(events), SessionEvent::Task(event)),
    ensures
        !(event matches MessageEvent::Received(Some(msg)) && msg == HostMsg::Ctrlc),
{
    lemma_ctrl_c_is_not_queued(events);
    if let MessageEvent::Received(Some(msg)) = event {
        assert(session_after(events).queue.contains(session_after(events).queue[0]));
    }
}

/// Once the stop flag is set, the output of the current command is over: the only thing that can
/// happen to a task that reads it is that it stops. It forgets the process and tells the host that
/// the output is complete; the flag is used up.
pub proof fn law_interrupt_ends_the_output(session: Session, event: MessageEvent)
    requires
        session.task == MessageTask::Streaming,
        session.stop,
        can_happen(session, SessionEvent::Task(event)),
    ensures
        message_next(session.task, event) == (MessageTask::Emptying, MessageRequest::Empty),
        !session_next(session, SessionEvent::Task(event)).stop,
        message_next(MessageTask::Emptying, MessageEvent::Emptied) == (
            MessageTask::SendingEof,
            MessageRequest::Send(Reply::Eof),
        ),
{
}

/// A CTRL C sets the stop flag where a process is running, and closes the connection where none
/// is.
pub proof fn law_ctrl_c_without_a_command_closes(
    session: Session,
    result: Result<(), ShellError>,
)
    requires
        session.connection == ConnectionTask::Interrupting,
        can_happen(session, SessionEvent::Connection(ConnectionEvent::Interrupted(result))),
    ensures
        ({
            let event = ConnectionEvent::Interrupted(result);
            let after = session_next(session, SessionEvent::Connection(event));
            &&& !session.running ==> connection_next(session.connection, event, session.stop).1
                is Close
            &&& result is Ok ==> session.running && after.stop && after.connection
                == ConnectionTask::Receiving
            &&& !after.running
        }),
{
}

/// Whether a task may hold a process: one that reads the output of a command, has not forgotten
/// its process yet, or is done.
pub open spec fn may_run(task: MessageTask) -> bool {
    ||| task == MessageTask::Streaming
    ||| task == MessageTask::SendingOutput
    ||| task == MessageTask::Emptying
    ||| task == MessageTask::Returned
}

/// A CTRL C reaches a process only while its command is being executed, and never one whose
/// output is complete: a task that waits for a command, or starts one, has no process, whatever
/// happened before.
pub proof fn law_finished_commands_are_not_interrupted(events: Seq<SessionEvent>)
    requires
        can_all_happen(events),
    ensures
        session_after(events).running ==> may_run(session_after(events).task),
    decreases events.len(),
{
    if events.len() > 0 {
        law_finished_commands_are_not_interrupted(events.drop_last());
    }
}

/// Whether the host sends a message, other than CTRL C, only when everything that it sent before
/// is handled.
pub open spec fn in_turn(events: Seq<SessionEvent>) -> bool
    decreases events.len(),
{
    events.len() == 0 || {
        let session = session_after(events.drop_last());
        &&& in_turn(events.drop_last())
        &&& (events.last() matches SessionEvent::Connection(
            ConnectionEvent::Received(Some(Ok(msg))),
        ) && msg != HostMsg::Ctrlc) ==> (session.queue.len() == 0 && session.task
            == MessageTask::Receiving)
    }
}

proof fn lemma_flag_in_turn(events: Seq<SessionEvent>)
    requires
        can_all_happen(events),
        in_turn(events),
    ensures
        ({
            let session = session_after(events);
            &&& session.queue.len() > 0 ==> session.queue.len() == 1 && session.task
                == MessageTask::Receiving && !session.stop
            &&& session.task == MessageTask::Executing ==> session.queue.len() == 0
                && !session.stop
        }),
    decreases events.len(),
{
    if events.len() > 0 {
        lemma_flag_in_turn(events.drop_last());
        law_finished_commands_are_not_interrupted(events.drop_last());
    }
}

/// A CTRL C stops the output of one command and not that of a later one: where the host waits for
/// the answer to a command before it sends the next one, no command starts with the stop flag set.
pub proof fn law_interrupt_concerns_one_command(events: Seq<SessionEvent>)
    requires
        can_all_happen(events),
        in_turn(events),
        session_after(events).task == MessageTask::Executing,
    ensures
        !session_after(events).stop,
{
    lemma_flag_in_turn(events);
}

/// What a [`MessageTask`] becomes by a series of events.
pub open spec fn task_after(task: MessageTask, events: Seq<MessageEvent>) -> MessageTask
    decreases events.len(),
{
    if events.len() == 0 {
        task
    } else {
        message_next(task_after(task, events.drop_last()), events.last()).0
    }
}

/// What a [`MessageTask`] asks for in the course of a series of events.
pub open spec fn task_requests(task: MessageTask, events: Seq<MessageEvent>) -> Seq<MessageRequest>
    decreases events.len(),
{
    if events.len() == 0 {
        Seq::empty()
    } else {
        task_requests(task, events.drop_last()).push(
            message_next(task_after(task, events.drop_last()), events.last()).1,
        )
    }
}

/// Whether a message is the last one that answers a command.
pub open spec fn is_last_reply(reply: Reply) -> bool {
    !(reply is Output)
}

/// How many commands were started.
pub open spec fn started(requests: Seq<MessageRequest>) -> nat
    decreases requests.len(),
{
    if requests.len() == 0 {
        0
    } else {
        started(requests.drop_last()) + if requests.last() is Execute {
            1nat
        } else {
            0nat
        }
    }
}

/// How many commands were answered in full.
pub open spec fn answered(requests: Seq<MessageRequest>) -> nat
    decreases requests.len(),
{
    if requests.len() == 0 {
        0
    } else {
        answered(requests.drop_last()) + if requests.last() matches MessageRequest::Send(reply)
            && is_last_reply(reply) {
            1nat
        } else {
            0nat
        }
    }
}

/// Whether a task has started a command and not answered it in full.
pub open spec fn in_progress(task: MessageTask) -> bool {
    ||| task == MessageTask::Executing
    ||| task == MessageTask::Streaming
    ||| task == MessageTask::SendingOutput
    ||| task == MessageTask::Emptying
}

/// Commands and answers alternate, whatever happens: a command is started only when all the
/// commands before it are answered in full, and a host is sent something only while exactly one
/// command is not.
pub proof fn law_commands_and_answers_alternate(events: Seq<MessageEvent>, event: MessageEvent)
    ensures
        ({
            let requests = task_requests(MessageTask::Receiving, events);
            let task = task_after(MessageTask::Receiving, events);
            let request = message_next(task, event).1;
            &&& answered(requests) <= started(requests) <= answered(requests) + 1
            &&& request is Execute ==> started(requests) == answered(requests)
            &&& request is Send ==> started(requests) == answered(requests) + 1
        }),
{
    lemma_progress(events);
}

proof fn lemma_progress(events: Seq<MessageEvent>)
    ensures
        ({
            let requests = task_requests(MessageTask::Receiving, events);
            let task = task_after(MessageTask::Receiving, events);
            &&& answered(requests) <= started(requests) <= answered(requests) + 1
            &&& task != MessageTask::Returned ==> started(requests) == answered(requests) + if
                in_progress(task) {
                1nat
            } else {
                0nat
            }
        }),
    decreases events.len(),
{
    if events.len() > 0 {
        lemma_progress(events.drop_last());
        let requests = task_requests(MessageTask::Receiving, events);
        assert(requests.drop_last() =~= task_requests(MessageTask::Receiving, events.drop_last()));
    }
}

/// The messages that a task sends to the host.
pub open spec fn replies(requests: Seq<MessageRequest>) -> Seq<Reply>
    decreases requests.len(),
{
    if requests.len() == 0 {
        Seq::empty()
    } else {
        let before = replies(requests.drop_last());
        match requests.last() {
            MessageRequest::Send(reply) => before.push(reply),
            _ => before,
        }
    }
}

/// What a task is told while a command writes `chunks`, and the host receives them.
pub open spec fn output_events(chunks: Seq<Vec<u8>>) -> Seq<MessageEvent>
    decreases chunks.len(),
{
    if chunks.len() == 0 {
        seq![MessageEvent::Executed(Ok(()))]
    } else {
        output_events(chunks.drop_last()).push(
            MessageEvent::Output(OutputEvent::Chunk(chunks.last())),
        ).push(MessageEvent::Sent(Ok(())))
    }
}

/// What a task is told in the course of a command that writes `chunks`, and whose output then
/// ends as `end` says.
pub open spec fn command_events(chunks: Seq<Vec<u8>>, end: OutputEvent) -> Seq<MessageEvent> {
    output_events(chunks).push(MessageEvent::Output(end)).push(MessageEvent::Emptied).push(
        MessageEvent::Sent(Ok(())),
    )
}

/// The messages that hand `chunks` to a host.
pub open spec fn outputs(chunks: Seq<Seq<u8>>) -> Seq<Reply> {
    Seq::new(chunks.len(), |i: int| Reply::Output(chunks[i]))
}

/// The contents of a list of buffers.
pub open spec fn contents(chunks: Seq<Vec<u8>>) -> Seq<Seq<u8>> {
    Seq::new(chunks.len(), |i: int| chunks[i]@)
}

proof fn lemma_task_push(task: MessageTask, events: Seq<MessageEvent>, event: MessageEvent)
    ensures
        task_after(task, events.push(event)) == message_next(task_after(task, events), event).0,
        replies(task_requests(task, events.push(event))) == match message_next(
            task_after(task, events),
            event,
        ).1 {
            MessageRequest::Send(reply) => replies(task_requests(task, events)).push(reply),
            _ => replies(task_requests(task, events)),
        },
{
    assert(events.push(event).drop_last() =~= events);
    let requests = task_requests(task, events.push(event));
    assert(requests.drop_last() =~= task_requests(task, events));
}

proof fn lemma_output_is_sent(chunks: Seq<Vec<u8>>)
    ensures
        task_after(MessageTask::Executing, output_events(chunks)) == MessageTask::Streaming,
        replies(task_requests(MessageTask::Executing, output_events(chunks))) == outputs(
            contents(chunks),
        ),
    decreases chunks.len(),
{
    let task = MessageTask::Executing;
    let none: Seq<MessageEvent> = Seq::empty();
    if chunks.len() == 0 {
        lemma_task_push(task, none, MessageEvent::Executed(Ok(())));
        assert(none.push(MessageEvent::Executed(Ok(()))) =~= output_events(chunks));
        assert(outputs(contents(chunks)) =~= Seq::empty());
        assert(task_requests(task, none) =~= Seq::empty());
    } else {
        let before = output_events(chunks.drop_last());
        let event = MessageEvent::Output(OutputEvent::Chunk(chunks.last()));
        lemma_output_is_sent(chunks.drop_last());
        lemma_task_push(task, before, event);
        lemma_task_push(task, before.push(event), MessageEvent::Sent(Ok(())));
        assert(outputs(contents(chunks)) =~= outputs(contents(chunks.drop_last())).push(
            Reply::Output(chunks.last()@),
        ));
    }
}

/// A command that is executed is answered with its output, piece by piece and in order, and then
/// with the end of the output; the task is then ready for the next command.
pub proof fn law_executed_command_is_answered(chunks: Seq<Vec<u8>>, end: OutputEvent)
    requires
        end is Finished || end is Stopped,
    ensures
        task_after(MessageTask::Executing, command_events(chunks, end)) == MessageTask::Receiving,
        replies(task_requests(MessageTask::Executing, command_events(chunks, end))) == outputs(
            contents(chunks),
        ).push(Reply::Eof),
{
    let task = MessageTask::Executing;
    let events = output_events(chunks);
    let ended = events.push(MessageEvent::Output(end));
    lemma_output_is_sent(chunks);
    lemma_task_push(task, events, MessageEvent::Output(end));
    lemma_task_push(task, ended, MessageEvent::Emptied);
    lemma_task_push(task, ended.push(MessageEvent::Emptied), MessageEvent::Sent(Ok(())));
}

/// A command that is not executed is answered with the error alone; the task is then ready for
/// the next command.
pub proof fn law_refused_command_is_answered(err: ShellError)
    ensures
        ({
            let events = seq![MessageEvent::Executed(Err(err)), MessageEvent::Sent(Ok(()))];
            &&& task_after(MessageTask::Executing, events) == MessageTask::Receiving
            &&& replies(task_requests(MessageTask::Executing, events)) == seq![
                Reply::Failure(err.text()),
            ]
        }),
{
    let task = MessageTask::Executing;
    let none: Seq<MessageEvent> = Seq::empty();
    let one = none.push(MessageEvent::Executed(Err(err)));
    lemma_task_push(task, none, MessageEvent::Executed(Err(err)));
    lemma_task_push(task, one, MessageEvent::Sent(Ok(())));
    assert(task_requests(task, none) =~= Seq::empty());
    assert(one.push(MessageEvent::Sent(Ok(()))) =~= seq![
        MessageEvent::Executed(Err(err)),
        MessageEvent::Sent(Ok(())),
    ]);
    assert(Seq::<Reply>::empty().push(Reply::Failure(err.text())) =~= seq![
        Reply::Failure(err.text()),
    ]);
}

/// What a [`CommandService`] becomes by a series of events.
pub open spec fn service_after(service: CommandService, events: Seq<CommandEvent>) -> CommandService
    decreases events.len(),
{
    if events.len() == 0 {
        service
    } else {
        command_next(service_after(service, events.drop_last()), events.last()).0
    }
}

/// What a [`CommandService`] asks for in the course of a series of events.
pub open spec fn service_actions(service: CommandService, events: Seq<CommandEvent>) -> Seq<
    CommandAction,
>
    decreases events.len(),
{
    if events.len() == 0 {
        Seq::empty()
    } else {
        service_actions(service, events.drop_last()).push(
            command_next(service_after(service, events.drop_last()), events.last()).1,
        )
    }
}

/// The output that a service writes to the terminal, in order.
pub open spec fn shown(actions: Seq<CommandAction>) -> Seq<Seq<u8>>
    decreases actions.len(),
{
    if actions.len() == 0 {
        Seq::empty()
    } else {
        let before = shown(actions.drop_last());
        match actions.last() {
            CommandAction::Write(out) => before.push(out@),
            _ => before,
        }
    }
}

/// What a service is told while messages arrive, and output is written.
pub open spec fn arriving(msgs: Seq<DeviceMsg>) -> Seq<CommandEvent>
    decreases msgs.len(),
{
    if msgs.len() == 0 {
        Seq::empty()
    } else {
        let events = arriving(msgs.drop_last()).push(CommandEvent::Received(Some(Ok(msgs.last()))));
        if msgs.last() is Output {
            events.push(CommandEvent::Written(Ok(())))
        } else {
            events
        }
    }
}

/// The contents of a list of messages.
pub open spec fn messages(msgs: Seq<DeviceMsg>) -> Seq<Reply> {
    Seq::new(msgs.len(), |i: int| msgs[i]@)
}

proof fn lemma_service_push(service: CommandService, events: Seq<CommandEvent>, event: CommandEvent)
    ensures
        service_after(service, events.push(event)) == command_next(
            service_after(service, events),
            event,
        ).0,
        service_actions(service, events.push(event)).last() == command_next(
            service_after(service, events),
            event,
        ).1,
        shown(service_actions(service, events.push(event))) == match command_next(
            service_after(service, events),
            event,
        ).1 {
            CommandAction::Write(out) => shown(service_actions(service, events)).push(out@),
            _ => shown(service_actions(service, events)),
        },
{
    assert(events.push(event).drop_last() =~= events);
    let actions = service_actions(service, events.push(event));
    assert(actions.drop_last() =~= service_actions(service, events));
}

proof fn lemma_output_is_shown(service: CommandService, msgs: Seq<DeviceMsg>, chunks: Seq<Seq<u8>>)
    requires
        service == CommandService::Waiting || service == CommandService::Draining,
        messages(msgs) == outputs(chunks),
    ensures
        service_after(service, arriving(msgs)) == service,
        shown(service_actions(service, arriving(msgs))) == chunks,
    decreases msgs.len(),
{
    assert(messages(msgs).len() == msgs.len());
    assert(outputs(chunks).len() == chunks.len());
    if msgs.len() == 0 {
        assert(service_actions(service, arriving(msgs)) =~= Seq::empty());
        assert(chunks =~= Seq::empty());
    } else {
        let msg = msgs.last();
        let before = arriving(msgs.drop_last());
        assert(messages(msgs).last() == msg@);
        assert(outputs(chunks).last() == Reply::Output(chunks.last()));
        assert(messages(msgs.drop_last()) =~= messages(msgs).drop_last());
        assert(outputs(chunks.drop_last()) =~= outputs(chunks).drop_last());
        lemma_output_is_shown(service, msgs.drop_last(), chunks.drop_last());
        lemma_service_push(service, before, CommandEvent::Received(Some(Ok(msg))));
        lemma_service_push(
            service,
            before.push(CommandEvent::Received(Some(Ok(msg)))),
            CommandEvent::Written(Ok(())),
        );
        assert(chunks =~= chunks.drop_last().push(chunks.last()));
    }
}

/// A host that waits for the output of a command, or for its rest after a CTRL C, shows exactly
/// the output that it is sent, in order, and is done with the command when, and only when, the
/// last message for it arrives.
pub proof fn law_output_is_shown(
    service: CommandService,
    msgs: Seq<DeviceMsg>,
    chunks: Seq<Seq<u8>>,
    last: DeviceMsg,
)
    requires
        service == CommandService::Waiting || service == CommandService::Draining,
        messages(msgs) == outputs(chunks),
        !(last is Output),
    ensures
        service_after(service, arriving(msgs)) == service,
        service_after(service, arriving(msgs.push(last))) == CommandService::Returned,
        service_actions(service, arriving(msgs.push(last))).last() == CommandAction::Return(Ok(())),
        shown(service_actions(service, arriving(msgs.push(last)))) == chunks,
{
    lemma_output_is_shown(service, msgs, chunks);
    assert(msgs.push(last).drop_last() =~= msgs);
    lemma_service_push(service, arriving(msgs), CommandEvent::Received(Some(Ok(last))));
}

/// A CTRL C that is typed in while a host waits for output is sent to the device, and nothing else
/// is; the host then waits for the rest of the output, also where the CTRL C could not be sent.
pub proof fn law_ctrl_c_is_sent(sent: Result<(), SendError>)
    requires
        !(sent matches Err(SendError::Encode(_))),
    ensures
        ({
            let events = seq![CommandEvent::CtrlC, CommandEvent::Sent(sent)];
            &&& service_after(CommandService::Waiting, events) == CommandService::Draining
            &&& service_actions(CommandService::Waiting, events) == seq![
                CommandAction::Send(HostMsg::Ctrlc),
                CommandAction::Drain,
            ]
        }),
{
    let events = seq![CommandEvent::CtrlC, CommandEvent::Sent(sent)];
    reveal_with_fuel(service_after, 3);
    reveal_with_fuel(service_actions, 3);
    assert(events.drop_last().last() == CommandEvent::CtrlC);
    assert(service_actions(CommandService::Waiting, events) =~= seq![
        CommandAction::Send(HostMsg::Ctrlc),
        CommandAction::Drain,
    ]);
}

/// What a host shows of a command is what the command wrote on the device: where `msgs` are the
/// messages that the device sends for a command that writes `chunks`, the host that waits for them
/// shows `chunks`, and is done with the last of the messages.
pub proof fn law_host_shows_what_the_device_executes(
    chunks: Seq<Vec<u8>>,
    end: OutputEvent,
    msgs: Seq<DeviceMsg>,
)
    requires
        end is Finished || end is Stopped,
        messages(msgs) == replies(
            task_requests(MessageTask::Executing, command_events(chunks, end)),
        ),
    ensures
        service_after(CommandService::Waiting, arriving(msgs)) == CommandService::Returned,
        service_actions(CommandService::Waiting, arriving(msgs)).last() == CommandAction::Return(
            Ok(()),
        ),
        shown(service_actions(CommandService::Waiting, arriving(msgs))) == contents(chunks),
{
    law_executed_command_is_answered(chunks, end);
    let sent = outputs(contents(chunks)).push(Reply::Eof);
    assert(messages(msgs) == sent);
    assert(messages(msgs).len() == sent.len());
    assert(messages(msgs.drop_last()) =~= sent.drop_last());
    assert(sent.drop_last() =~= outputs(contents(chunks)));
    assert(msgs.last()@ == sent.last()) by {
        assert(messages(msgs).last() == sent.last());
    }
    assert(msgs =~= msgs.drop_last().push(msgs.last()));
    law_output_is_shown(
        CommandService::Waiting,
        msgs.drop_last(),
        contents(chunks),
        msgs.last(),
    );
}

/// A host ends only with an error: that of accepting a device, of closing a connection, or of a
/// command, and never because a command closed its connection.
pub proof fn law_host_ends_only_with_an_error(state: ListenLoop, event: ListenEvent, err: HostError)
    requires
        listen_next(state, event).1 == ListenAction::Return(err),
    ensures
        ({
            ||| event == ListenEvent::Connected(Err(err))
            ||| event == ListenEvent::Closed(Err(err))
            ||| event == ListenEvent::Ran(Err(err)) && err != HostError::Exit
        }),
{
}

/// A host whose device is gone in the middle of a command waits for the next device.
pub proof fn law_lost_device_is_replaced(err: TransportError)
    ensures
        ({
            let ran = host_result(Err(HostError::TungsteniteReadData(err)));
            listen_next(ListenLoop::RunningCommand, ListenEvent::Ran(ran)) == (
                ListenLoop::Accepting,
                ListenAction::Accept,
            )
        }),
        peer_is_gone(err) ==> ({
            let ran = host_result(Err(HostError::WebSocketConnect(err)));
            listen_next(ListenLoop::RunningCommand, ListenEvent::Ran(ran)) == (
                ListenLoop::Accepting,
                ListenAction::Accept,
            )
        }),
{
}

/// The command `exit` closes the connection, without asking the device, and the host then waits
/// for the next device.
pub proof fn law_exit_waits_for_the_next_device(cmd: String)
    requires
        is_exit(cmd@),
    ensures
        command_start(cmd) == (CommandService::Closing, CommandAction::Close),
        command_next(CommandService::Closing, CommandEvent::Closed(Ok(()))).1
            == CommandAction::Return(Err(HostError::Exit)),
        listen_next(
            ListenLoop::RunningCommand,
            ListenEvent::Ran(host_result(Err(HostError::Exit))),
        ) == (ListenLoop::Accepting, ListenAction::Accept),
{
}

/// The texts of the commands among messages of a host, in order.
pub open spec fn commands(msgs: Seq<HostMsg>) -> Seq<Seq<char>>
    decreases msgs.len(),
{
    if msgs.len() == 0 {
        Seq::empty()
    } else {
        let before = commands(msgs.drop_last());
        match msgs.last() {
            HostMsg::Command { cmd } => before.push(cmd@),
            _ => before,
        }
    }
}

/// The texts that a device is asked to execute in the course of a session, in order.
pub open spec fn executed(events: Seq<SessionEvent>) -> Seq<Seq<char>>
    decreases events.len(),
{
    if events.len() == 0 {
        Seq::empty()
    } else {
        let before = executed(events.drop_last());
        match events.last() {
            SessionEvent::Task(event) => match message_next(
                session_after(events.drop_last()).task,
                event,
            ).1 {
                MessageRequest::Execute(cmd) => before.push(cmd),
                _ => before,
            },
            _ => before,
        }
    }
}

proof fn lemma_commands_push(msgs: Seq<HostMsg>, msg: HostMsg)
    ensures
        commands(msgs.push(msg)) == match msg {
            HostMsg::Command { cmd } => commands(msgs).push(cmd@),
            _ => commands(msgs),
        },
{
    assert(msgs.push(msg).drop_last() =~= msgs);
}

proof fn lemma_commands_concat(a: Seq<HostMsg>, b: Seq<HostMsg>)
    ensures
        commands(a + b) == commands(a) + commands(b),
    decreases b.len(),
{
    if b.len() == 0 {
        assert(a + b =~= a);
        assert(commands(a) + commands(b) =~= commands(a));
    } else {
        lemma_commands_concat(a, b.drop_last());
        assert((a + b).drop_last() =~= a + b.drop_last());
        assert((a + b).last() == b.last());
        assert(commands(a + b) =~= commands(a) + commands(b));
    }
}

/// A device executes exactly the commands that it takes, character for character, in order and in
/// number; and with those that still wait, these are exactly the commands that the host sent.
pub proof fn law_sent_commands_are_executed(events: Seq<SessionEvent>)
    requires
        can_all_happen(events),
    ensures
        executed(events) == commands(taken(events)),
        executed(events) + commands(session_after(events).queue) == commands(arrived(events)),
{
    lemma_taken_commands_are_executed(events);
    law_messages_are_handled_in_order(events);
    lemma_commands_concat(taken(events), session_after(events).queue);
}

proof fn lemma_taken_commands_are_executed(events: Seq<SessionEvent>)
    requires
        can_all_happen(events),
    ensures
        executed(events) == commands(taken(events)),
    decreases events.len(),
{
    if events.len() > 0 {
        let before = events.drop_last();
        lemma_taken_commands_are_executed(before);
        if let SessionEvent::Task(MessageEvent::Received(Some(msg))) = events.last() {
            lemma_commands_push(taken(before), msg);
        }
    }
}

/// What a [`ListenLoop`] becomes by a series of events.
pub open spec fn listening_after(events: Seq<ListenEvent>) -> ListenLoop
    decreases events.len(),
{
    if events.len() == 0 {
        ListenLoop::Accepting
    } else {
        listen_next(listening_after(events.drop_last()), events.last()).0
    }
}

/// The commands that a host runs on its devices in the course of a series of events, in order.
pub open spec fn run_commands(events: Seq<ListenEvent>) -> Seq<String>
    decreases events.len(),
{
    if events.len() == 0 {
        Seq::empty()
    } else {
        let before = run_commands(events.drop_last());
        match listen_next(listening_after(events.drop_last()), events.last()).1 {
            ListenAction::Run(cmd) => before.push(cmd),
            _ => before,
        }
    }
}

/// The lines that are typed in while a host waits for a command, in order, without the empty ones.
pub open spec fn typed_lines(events: Seq<ListenEvent>) -> Seq<String>
    decreases events.len(),
{
    if events.len() == 0 {
        Seq::empty()
    } else {
        let before = typed_lines(events.drop_last());
        match events.last() {
            ListenEvent::Line(Some(line)) => if listening_after(events.drop_last())
                == ListenLoop::AwaitingCommand && line@.len() > 0 {
                before.push(line)
            } else {
                before
            },
            _ => before,
        }
    }
}

/// A host runs exactly the lines that are typed in while it waits for a command, character for
/// character, in order and in number, except for the empty ones.
pub proof fn law_typed_lines_are_run(events: Seq<ListenEvent>)
    ensures
        run_commands(events) == typed_lines(events),
    decreases events.len(),
{
    if events.len() > 0 {
        law_typed_lines_are_run(events.drop_last());
    }
}

/// A host waits for a command exactly while a device is connected and no command is run on it: from
/// the moment when the device connects, or when a command is done, until a line or a CTRL C ends
/// the wait.
pub proof fn law_when_a_host_waits_for_commands(events: Seq<ListenEvent>, event: ListenEvent)
    ensures
        listening_after(events.push(event)) == ListenLoop::AwaitingCommand <==> {
            ||| listening_after(events) == ListenLoop::Accepting && (
            event matches ListenEvent::Connected(Ok(_)))
            ||| listening_after(events) == ListenLoop::RunningCommand && (
            event matches ListenEvent::Ran(Ok(_)))
            ||| listening_after(events) == ListenLoop::AwaitingCommand && !(event is CtrlC) && !(
            event matches ListenEvent::Line(Some(_)))
        },
{
    assert(events.push(event).drop_last() =~= events);
}

/// A line travels from the terminal of the host to the process on the device without a change: a
/// line that is typed in while the host waits for a command, and that is neither empty nor `exit`,
/// is run, sent, passed on, and asked to be executed as it is.
pub proof fn law_typed_line_is_executed(line: String, stop: bool)
    requires
        line@.len() > 0,
        !is_exit(line@),
    ensures
        listen_next(ListenLoop::AwaitingCommand, ListenEvent::Line(Some(line))) == (
            ListenLoop::RunningCommand,
            ListenAction::Run(line),
        ),
        command_start(line) == (
            CommandService::Sending,
            CommandAction::Send(HostMsg::Command { cmd: line }),
        ),
        connection_next(
            ConnectionTask::Receiving,
            ConnectionEvent::Received(Some(Ok(HostMsg::Command { cmd: line }))),
            stop,
        ) == (
            ConnectionTask::Queueing,
            ConnectionAction::Queue(HostMsg::Command { cmd: line }),
            false,
        ),
        message_next(
            MessageTask::Receiving,
            MessageEvent::Received(Some(HostMsg::Command { cmd: line })),
        ) == (MessageTask::Executing, MessageRequest::Execute(line@)),
{
}

} // verus!
