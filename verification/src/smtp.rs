//! The SMTP notification backend: per-recipient email construction for one
//! alert, and the state machine of the backend's dedicated serial delivery
//! worker. The network transport itself (building the SMTP client, the worker
//! thread, the wire protocol) lives outside the library; the library decides
//! what is sent, to whom, and when the worker stops.

use vstd::prelude::*;

use crate::notifier::Message;

verus! {

/// An email identity: an address with an optional display name.
#[derive(Debug)]
pub struct EmailIdent {
    pub address: String,
    pub name: Option<String>,
}

impl EmailIdent {
    pub fn new(address: String, name: Option<String>) -> (r: Self)
        ensures
            r.address == address,
            r.name == name,
    {
        Self { address, name }
    }
}

impl Clone for EmailIdent {
    fn clone(&self) -> (r: Self)
        ensures
            r == self,
    {
        let name = match &self.name {
            Some(n) => Some(n.clone()),
            None => None,
        };
        EmailIdent { address: self.address.clone(), name }
    }
}

/// Validated SMTP backend configuration.
#[derive(Debug)]
pub struct SmtpConfig {
    pub host: String,
    pub login: String,
    pub pwd: String,
    pub ident: Option<String>,
    pub recipients: Vec<EmailIdent>,
}

/// One outbound email, ready for the delivery worker.
#[derive(Debug)]
pub struct EmailRequest {
    pub from: EmailIdent,
    pub to: EmailIdent,
    pub subject: String,
    pub text: String,
}

/// The sending half of the SMTP backend: the data every delivery is built
/// from. Handles to one backend are clones of this value; the queue to the
/// worker lives with the unverified runner.
#[derive(Debug)]
pub struct SmtpSender {
    pub recipients: Vec<EmailIdent>,
    pub from: EmailIdent,
}

impl Clone for SmtpSender {
    fn clone(&self) -> (r: Self)
        ensures
            r.recipients@ == self.recipients@,
            r.from == self.from,
    {
        let mut recipients: Vec<EmailIdent> = Vec::new();
        let mut i: usize = 0;
        while i < self.recipients.len()
            invariant
                i <= self.recipients.len(),
                recipients@ =~= self.recipients@.take(i as int),
            decreases self.recipients.len() - i,
        {
            recipients.push(self.recipients[i].clone());
            i = i + 1;
        }
        proof {
            assert(recipients@ =~= self.recipients@);
        }
        SmtpSender { recipients, from: self.from.clone() }
    }
}

/// The sender a configuration yields: its recipients, from the login
/// address under the configured display name.
pub open spec fn sender_of(c: SmtpConfig) -> SmtpSender {
    SmtpSender { recipients: c.recipients, from: EmailIdent { address: c.login, name: c.ident } }
}

impl SmtpSender {
    /// Builds the sender from validated configuration: the `From` identity is
    /// the login address under the configured display name.
    pub fn from_config(config: SmtpConfig) -> (s: Self)
        ensures
            s == sender_of(config),
    {
        let SmtpConfig { host: _, login, pwd: _, ident, recipients } = config;
        let login_copy = login.clone();
        SmtpSender { recipients, from: EmailIdent::new(login_copy, ident) }
    }

    /// Builds one outbound email per configured recipient for one alert:
    /// every recipient gets the same subject and text, from the backend's own
    /// identity. A failure to deliver one of them is independent of the
    /// others.
    pub fn build_emails(&self, msg: &Message) -> (emails: Vec<EmailRequest>)
        ensures
            emails@.len() == self.recipients@.len(),
            forall|i: int|
                0 <= i < emails@.len() ==> {
                    &&& #[trigger] emails@[i].to == self.recipients@[i]
                    &&& emails@[i].from == self.from
                    &&& emails@[i].subject == msg.title
                    &&& emails@[i].text == msg.body
                },
    {
        let mut emails: Vec<EmailRequest> = Vec::new();
        let mut i: usize = 0;
        while i < self.recipients.len()
            invariant
                i <= self.recipients.len(),
                emails@.len() == i as int,
                forall|j: int|
                    0 <= j < i as int ==> {
                        &&& #[trigger] emails@[j].to == self.recipients@[j]
                        &&& emails@[j].from == self.from
                        &&& emails@[j].subject == msg.title
                        &&& emails@[j].text == msg.body
                    },
            decreases self.recipients.len() - i,
        {
            emails.push(EmailRequest {
                from: self.from.clone(),
                to: self.recipients[i].clone(),
                subject: msg.title.clone(),
                text: msg.body.clone(),
            });
            i = i + 1;
        }
        emails
    }
}

/// One command for the delivery worker's queue.
#[derive(Debug)]
pub enum SmtpCommand {
    Email(EmailRequest),
    Shutdown,
}

/// What the worker does with one command.
#[derive(Debug)]
pub enum WorkerAction {
    /// Attempt this delivery over the one protocol session, then report the
    /// attempt's result on the command's reply channel.
    Deliver(EmailRequest),
    /// Stop processing; the queue accepts nothing further.
    Stop,
}

/// The state of the backend's dedicated serial delivery worker. Commands are
/// handed to it one at a time, in queue order; once shut down it takes no
/// more.
#[derive(Debug)]
pub struct SmtpWorker {
    pub running: bool,
}

impl SmtpWorker {
    pub fn new() -> (w: Self)
        ensures
            w.running,
    {
        SmtpWorker { running: true }
    }

    /// Decides what one queued command means for the worker: an email is
    /// delivered and the worker keeps running; a shutdown stops it for good.
    pub fn handle(&mut self, cmd: SmtpCommand) -> (action: WorkerAction)
        requires
            old(self).running,
        ensures
            match cmd {
                SmtpCommand::Email(e) => {
                    &&& final(self).running
                    &&& action matches WorkerAction::Deliver(d) && d == e
                },
                SmtpCommand::Shutdown => {
                    &&& !final(self).running
                    &&& action is Stop
                },
            },
    {
        match cmd {
            SmtpCommand::Email(e) => WorkerAction::Deliver(e),
            SmtpCommand::Shutdown => {
                self.running = false;
                WorkerAction::Stop
            },
        }
    }
}

} // verus!
