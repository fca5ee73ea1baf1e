//! A basic logger that keeps its messages in memory, and the slot that
//! holds the one logger of a program.

use crate::destinations::console_line::{format_utc, time_text, CONSOLE_TIME_PATTERN};
use crate::model::ident::{id_to_string, is_random_id, new_id, uuid_text};
use crate::model::log_entry::LogMessageType;
use crate::model::log_service::text_views;
use crate::model::timestamp::Timestamp;
use vstd::prelude::*;
use vstd::string::StringExecFns;

verus! {

/// A message of the basic logger.
#[derive(Debug)]
pub struct LogMessage {
    pub id: u128,
    pub log_type: LogMessageType,
    pub message: String,
    pub timestamp: Timestamp,
}

/// The mathematical value of a [`LogMessage`].
pub struct LogMessageView {
    pub id: u128,
    pub log_type: LogMessageType,
    pub message: Seq<char>,
    pub timestamp: Timestamp,
}

impl View for LogMessage {
    type V = LogMessageView;

    open spec fn view(&self) -> LogMessageView {
        LogMessageView {
            id: self.id,
            log_type: self.log_type,
            message: self.message@,
            timestamp: self.timestamp,
        }
    }
}

impl LogMessage {
    /// A message of the given kind with a fresh random identifier and the
    /// current time.
    pub fn new(log_type: LogMessageType, message: String) -> (log: LogMessage)
        ensures
            log.log_type == log_type,
            log.message@ == message@,
            is_random_id(log.id),
            log.id != 0,
    {
        LogMessage { id: new_id(), log_type, message, timestamp: Timestamp::now() }
    }
}

/// The values of a sequence of messages.
pub open spec fn message_views(logs: Seq<LogMessage>) -> Seq<LogMessageView> {
    logs.map_values(|m: LogMessage| m@)
}

/// The name of a message kind.
pub open spec fn kind_name(log_type: LogMessageType) -> Seq<char> {
    match log_type {
        LogMessageType::Error => "Error"@,
        LogMessageType::Warning => "Warning"@,
        LogMessageType::Info => "Info"@,
        LogMessageType::Success => "Success"@,
    }
}

/// The line by which the basic logger shows a message.
pub open spec fn log_line(log: LogMessageView) -> Seq<char> {
    "Log ID: "@ + uuid_text(log.id) + ", Type: "@ + kind_name(log.log_type) + ", Message: "@
        + log.message + ", Timestamp: "@ + time_text(log.timestamp.nanos, CONSOLE_TIME_PATTERN@)
}

/// The lines by which the basic logger shows a sequence of messages.
pub open spec fn log_lines(logs: Seq<LogMessageView>) -> Seq<Seq<char>> {
    logs.map_values(|m: LogMessageView| log_line(m))
}

/// The line that the basic logger shows when it saves its messages.
pub open spec fn save_notice() -> Seq<char> {
    "Saving logs..."@
}

/// A log service that keeps its messages in memory.
pub struct BasicLogService {
    pub logs: Vec<LogMessage>,
}

impl BasicLogService {
    /// A logger without messages.
    pub fn new() -> (service: BasicLogService)
        ensures
            service.logs@ == Seq::<LogMessage>::empty(),
    {
        BasicLogService { logs: Vec::new() }
    }

    /// Adds a message after those that the logger holds.
    pub fn add_message(&mut self, log: LogMessage)
        ensures
            final(self).logs@ == old(self).logs@.push(log),
    {
        self.logs.push(log);
    }

    /// Drops all messages.
    pub fn flush_log(&mut self)
        ensures
            final(self).logs@ == Seq::<LogMessage>::empty(),
    {
        self.logs.clear();
    }

    /// Saves the messages: the basic logger has no store, so all there is
    /// to it is the notice to show. The messages stay.
    pub fn save_log(&mut self) -> (notice: String)
        ensures
            notice@ == save_notice(),
            final(self).logs@ == old(self).logs@,
    {
        String::from_str("Saving logs...")
    }

    /// The line that shows one message.
    pub fn format_message(log: &LogMessage) -> (line: String)
        ensures
            line@ == log_line(log@),
    {
        let id_text: String = id_to_string(log.id);
        let time: String = format_utc(log.timestamp.nanos, CONSOLE_TIME_PATTERN);
        let mut line: String = String::from_str("Log ID: ");
        line.append(id_text.as_str());
        line.append(", Type: ");
        line.append(
            match log.log_type {
                LogMessageType::Error => "Error",
                LogMessageType::Warning => "Warning",
                LogMessageType::Info => "Info",
                LogMessageType::Success => "Success",
            },
        );
        line.append(", Message: ");
        line.append(log.message.as_str());
        line.append(", Timestamp: ");
        line.append(time.as_str());
        line
    }

    /// The lines that show the messages, one for each message, in the
    /// order of the messages. The messages stay.
    pub fn print_logs(&mut self) -> (lines: Vec<String>)
        ensures
            text_views(lines@) == log_lines(message_views(old(self).logs@)),
            final(self).logs@ == old(self).logs@,
    {
        let mut lines: Vec<String> = Vec::new();
        let mut i: usize = 0;
        while i < self.logs.len()
            invariant
                i <= self.logs.len(),
                self.logs@ == old(self).logs@,
                lines.len() == i,
                forall|j: int| 0 <= j < i ==> (#[trigger] lines[j])@ == log_line(self.logs[j]@),
            decreases self.logs.len() - i,
        {
            lines.push(BasicLogService::format_message(&self.logs[i]));
            i = i + 1;
        }
        assert(text_views(lines@) =~= log_lines(message_views(self.logs@)));
        lines
    }
}

/// The error of a second initialisation of the logger.
pub open spec fn already_initialized() -> Seq<char> {
    "Logger already initialized"@
}

/// The place of the one logger of a program. Whoever composes the program
/// owns the slot and hands it to those that log; the logger is put in once.
pub struct LoggerSlot {
    logger: Option<BasicLogService>,
}

impl LoggerSlot {
    /// The messages of the logger, or `None` while there is no logger.
    pub closed spec fn logs(&self) -> Option<Seq<LogMessageView>> {
        match self.logger {
            Some(service) => Some(message_views(service.logs@)),
            None => None,
        }
    }

    /// An empty slot.
    pub fn new() -> (slot: LoggerSlot)
        ensures
            slot.logs() is None,
    {
        LoggerSlot { logger: None }
    }

    /// Whether a logger was put in.
    pub fn is_initialized(&self) -> (initialized: bool)
        ensures
            initialized == self.logs() is Some,
    {
        self.logger.is_some()
    }

    /// Puts the logger in. A slot that holds a logger keeps it and refuses
    /// the new one.
    pub fn init_logger(&mut self, service: BasicLogService) -> (r: Result<(), &'static str>)
        ensures
            match r {
                Ok(_) => old(self).logs() is None && final(self).logs() == Some(
                    message_views(service.logs@),
                ),
                Err(reason) => old(self).logs() is Some && final(self).logs() == old(self).logs()
                    && reason@ == already_initialized(),
            },
    {
        if self.logger.is_some() {
            Err("Logger already initialized")
        } else {
            self.logger = Some(service);
            Ok(())
        }
    }

    /// Hands a message to the logger. Returns whether there is a logger;
    /// without one the message is dropped.
    pub fn add_message(&mut self, log: LogMessage) -> (added: bool)
        ensures
            added == old(self).logs() is Some,
            match old(self).logs() {
                Some(logs) => final(self).logs() == Some(logs.push(log@)),
                None => final(self).logs() is None,
            },
    {
        match self.logger.take() {
            Some(mut service) => {
                let ghost before = message_views(service.logs@);
                service.add_message(log);
                assert(message_views(service.logs@) =~= before.push(log@));
                self.logger = Some(service);
                true
            },
            None => false,
        }
    }

    /// Logs an info message. Returns whether there is a logger.
    pub fn info(&mut self, message: String) -> (added: bool)
        ensures
            added == old(self).logs() is Some,
            match old(self).logs() {
                Some(logs) => final(self).logs() matches Some(now) && now.len() == logs.len() + 1
                    && now.drop_last() == logs && now.last().message == message@
                    && now.last().log_type == LogMessageType::Info,
                None => final(self).logs() is None,
            },
    {
        let ghost before = self.logs();
        let added = self.add_message(LogMessage::new(LogMessageType::Info, message));
        proof {
            if before is Some {
                assert(self.logs()->0.drop_last() =~= before->0);
            }
        }
        added
    }

    /// Logs a warning message. Returns whether there is a logger.
    pub fn warn(&mut self, message: String) -> (added: bool)
        ensures
            added == old(self).logs() is Some,
            match old(self).logs() {
                Some(logs) => final(self).logs() matches Some(now) && now.len() == logs.len() + 1
                    && now.drop_last() == logs && now.last().message == message@
                    && now.last().log_type == LogMessageType::Warning,
                None => final(self).logs() is None,
            },
    {
        let ghost before = self.logs();
        let added = self.add_message(LogMessage::new(LogMessageType::Warning, message));
        proof {
            if before is Some {
                assert(self.logs()->0.drop_last() =~= before->0);
            }
        }
        added
    }

    /// Logs an error message. Returns whether there is a logger.
    pub fn error(&mut self, message: String) -> (added: bool)
        ensures
            added == old(self).logs() is Some,
            match old(self).logs() {
                Some(logs) => final(self).logs() matches Some(now) && now.len() == logs.len() + 1
                    && now.drop_last() == logs && now.last().message == message@
                    && now.last().log_type == LogMessageType::Error,
                None => final(self).logs() is None,
            },
    {
        let ghost before = self.logs();
        let added = self.add_message(LogMessage::new(LogMessageType::Error, message));
        proof {
            if before is Some {
                assert(self.logs()->0.drop_last() =~= before->0);
            }
        }
        added
    }

    /// Drops the messages of the logger. Returns whether there is a logger.
    pub fn flush_log(&mut self) -> (flushed: bool)
        ensures
            flushed == old(self).logs() is Some,
            match old(self).logs() {
                Some(_) => final(self).logs() == Some(Seq::<LogMessageView>::empty()),
                None => final(self).logs() is None,
            },
    {
        match self.logger.take() {
            Some(mut service) => {
                service.flush_log();
                assert(message_views(service.logs@) =~= Seq::<LogMessageView>::empty());
                self.logger = Some(service);
                true
            },
            None => false,
        }
    }

    /// The notice that the logger shows when it saves its messages, or
    /// `None` while there is no logger. The messages stay.
    pub fn save_log(&mut self) -> (notice: Option<String>)
        ensures
            final(self).logs() == old(self).logs(),
            match old(self).logs() {
                Some(_) => notice matches Some(text) && text@ == save_notice(),
                None => notice is None,
            },
    {
        match self.logger.take() {
            Some(mut service) => {
                let notice = service.save_log();
                self.logger = Some(service);
                Some(notice)
            },
            None => None,
        }
    }

    /// The lines that show the messages of the logger, or `None` while
    /// there is no logger. The messages stay.
    pub fn print_logs(&mut self) -> (lines: Option<Vec<String>>)
        ensures
            final(self).logs() == old(self).logs(),
            match old(self).logs() {
                Some(logs) => lines matches Some(shown) && text_views(shown@) == log_lines(logs),
                None => lines is None,
            },
    {
        match self.logger.take() {
            Some(mut service) => {
                let lines = service.print_logs();
                self.logger = Some(service);
                Some(lines)
            },
            None => None,
        }
    }
}

/// Puts a new [`BasicLogService`] into the slot as the logger of the
/// program. Fails where the slot holds a logger already.
pub fn init_default_logger(slot: &mut LoggerSlot) -> (r: Result<(), &'static str>)
    ensures
        match r {
            Ok(_) => old(slot).logs() is None && final(slot).logs() == Some(
                Seq::<LogMessageView>::empty(),
            ),
            Err(reason) => old(slot).logs() is Some && final(slot).logs() == old(slot).logs()
                && reason@ == already_initialized(),
        },
{
    let service = BasicLogService::new();
    assert(message_views(service.logs@) =~= Seq::<LogMessageView>::empty());
    slot.init_logger(service)
}

} // verus!
