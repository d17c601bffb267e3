use std::collections::VecDeque;

use rust_remote_shell::command::{CommandAction, CommandEvent, CommandService};
use rust_remote_shell::device::{
    poll_stop, ConnectionAction, ConnectionEvent, ConnectionTask, MessageAction, MessageEvent,
    MessageTask, OutputEvent,
};
use rust_remote_shell::protocol::{DeviceMsg, HostMsg};
use rust_remote_shell::shell::{killed, CommandHandler, ShellError};

/// The device of a session: its two tasks, and what they share.
struct SimulatedDevice {
    connection: ConnectionTask,
    task: MessageTask,
    queue: VecDeque<HostMsg>,
    stop: bool,
    handler: CommandHandler<u32>,
    closed: bool,
}

impl SimulatedDevice {
    fn new() -> Self {
        SimulatedDevice {
            connection: ConnectionTask::new(),
            task: MessageTask::new(),
            queue: VecDeque::new(),
            stop: false,
            handler: CommandHandler::default(),
            closed: false,
        }
    }

    fn tell(&mut self, event: ConnectionEvent) -> ConnectionAction {
        let (action, stop) = self.connection.handle_connection(event, self.stop);
        self.stop = stop;
        action
    }

    /// Hands a message of the host to the device.
    fn receive(&mut self, msg: HostMsg) {
        match self.tell(ConnectionEvent::Received(Some(Ok(msg)))) {
            ConnectionAction::Queue(msg) => {
                self.queue.push_back(msg);
                self.tell(ConnectionEvent::Queued(Ok(())));
            }
            ConnectionAction::Interrupt => {
                let res = self.handler.ctrl_c().and_then(|_| killed(Ok(())));
                if let ConnectionAction::Close = self.tell(ConnectionEvent::Interrupted(res)) {
                    self.closed = true;
                }
            }
            other => panic!("unexpected {:?}", other),
        }
    }

    /// Runs the next command that waits; `chunks` is what it writes, and `interrupt` the number
    /// of chunks after which a CTRL C arrives.
    fn run(&mut self, chunks: &[&[u8]], interrupt: Option<usize>) -> Vec<DeviceMsg> {
        let mut sent = Vec::new();
        let mut written = 0;
        let msg = self.queue.pop_front();
        assert_ne!(msg, Some(HostMsg::Ctrlc));
        let mut event = MessageEvent::Received(msg);
        loop {
            event = match self.task.handle_host_msgs(event) {
                MessageAction::Execute(cmd) => {
                    let started = self.handler.execute(cmd);
                    let res = match started {
                        Ok(line) => self.handler.spawned(line.program, Ok(1)),
                        Err(err) => Err(err),
                    };
                    MessageEvent::Executed(res)
                }
                MessageAction::ReadOutput => {
                    if interrupt == Some(written) {
                        self.receive(HostMsg::Ctrlc);
                    }
                    let (stopped, stop) = poll_stop(self.stop);
                    self.stop = stop;
                    MessageEvent::Output(if stopped {
                        OutputEvent::Stopped
                    } else if written < chunks.len() {
                        written += 1;
                        OutputEvent::Chunk(chunks[written - 1].to_vec())
                    } else {
                        OutputEvent::Finished
                    })
                }
                MessageAction::Empty => {
                    self.handler.empty();
                    MessageEvent::Emptied
                }
                MessageAction::Send(msg) => {
                    sent.push(msg);
                    MessageEvent::Sent(Ok(()))
                }
                MessageAction::Receive => return sent,
                other => panic!("unexpected {:?}", other),
            };
        }
    }
}

/// What a host writes to its terminal for the given messages, and whether it is done.
fn show(msgs: Vec<DeviceMsg>) -> (Vec<Vec<u8>>, bool) {
    let mut service = CommandService::Waiting;
    let mut shown = Vec::new();
    for msg in msgs {
        match service.impl_handle_command(CommandEvent::Received(Some(Ok(msg)))) {
            CommandAction::Write(out) => {
                shown.push(out);
                service.impl_handle_command(CommandEvent::Written(Ok(())));
            }
            CommandAction::Return(res) => assert!(res.is_ok()),
            other => panic!("unexpected {:?}", other),
        }
    }
    (shown, service == CommandService::Returned)
}

fn command(cmd: &str) -> HostMsg {
    HostMsg::Command { cmd: cmd.to_string() }
}

#[test]
fn a_host_shows_what_a_device_executes() {
    let mut device = SimulatedDevice::new();
    device.receive(command("cat file\n"));
    let msgs = device.run(&[b"first", b"second"], None);
    assert_eq!(
        msgs,
        vec![
            DeviceMsg::Output(b"first".to_vec()),
            DeviceMsg::Output(b"second".to_vec()),
            DeviceMsg::Eof,
        ]
    );
    assert_eq!(show(msgs), (vec![b"first".to_vec(), b"second".to_vec()], true));
}

#[test]
fn commands_are_answered_in_order() {
    let mut device = SimulatedDevice::new();
    device.receive(command("a"));
    device.receive(command("'unbalanced"));
    device.receive(command("b"));
    assert_eq!(device.queue.len(), 3);
    assert_eq!(device.run(&[b"1"], None), vec![DeviceMsg::Output(b"1".to_vec()), DeviceMsg::Eof]);
    assert_eq!(
        device.run(&[], None),
        vec![DeviceMsg::Failure(ShellError::MalformedInput.message())]
    );
    assert_eq!(device.run(&[b"2"], None), vec![DeviceMsg::Output(b"2".to_vec()), DeviceMsg::Eof]);
    assert!(device.queue.is_empty());
}

#[test]
fn an_interrupt_ends_the_output() {
    let mut device = SimulatedDevice::new();
    device.receive(command("yes"));
    let msgs = device.run(&[b"y", b"y", b"y"], Some(1));
    assert_eq!(msgs, vec![DeviceMsg::Output(b"y".to_vec()), DeviceMsg::Eof]);
    assert!(!device.stop);
    assert!(!device.closed);
    // the next command is not affected
    device.receive(command("echo z"));
    let msgs = device.run(&[b"z"], None);
    assert_eq!(msgs, vec![DeviceMsg::Output(b"z".to_vec()), DeviceMsg::Eof]);
}

#[test]
fn an_interrupt_between_commands_closes() {
    let mut device = SimulatedDevice::new();
    device.receive(command("ls"));
    device.run(&[b"f"], None);
    device.receive(HostMsg::Ctrlc);
    assert!(device.closed);
    assert!(!device.stop);
}

#[test]
fn an_interrupt_concerns_one_command() {
    let mut device = SimulatedDevice::new();
    device.receive(command("ls"));
    device.run(&[b"f"], None);
    // a CTRL C that arrives when the output is complete, but the process is not forgotten yet
    device.handler.spawned("ls".to_string(), Ok(2)).unwrap();
    device.receive(HostMsg::Ctrlc);
    assert!(device.stop);
    // the next command writes all of its output
    device.receive(command("echo z"));
    assert!(!device.stop);
    let msgs = device.run(&[b"z"], None);
    assert_eq!(msgs, vec![DeviceMsg::Output(b"z".to_vec()), DeviceMsg::Eof]);
}
