//! The notification that reports a run: who it goes to, what it says, and
//! how the answer of the mail service is read.

use crate::text::{chars_of, strip_end, stripped_end, text_of};
use vstd::prelude::*;
use vstd::string::StringExecFns;

verus! {

/// The sender that every notification names.
pub const SENDER: &'static str = "Dessert <dessert@mg.jonstodle.no>";

/// The user name under which the mail service is addressed; the password
/// is the API key.
pub const API_USER: &'static str = "api";

/// The mail service's account and the recipient of the notifications.
#[derive(Debug, PartialEq, Eq)]
pub struct Client {
    /// The address of the recipient
    pub to: String,
    /// The host name of the sender
    pub domain: String,
    /// MailGun API base path
    pub api_base_path: String,
    /// MailGun API key
    pub api_key: String,
}

/// A notification, ready to be posted.
#[derive(Debug, PartialEq, Eq)]
pub struct Email {
    /// Where it is posted.
    pub url: String,
    /// The user name and the password of the post.
    pub user: String,
    pub password: String,
    /// The form: sender, recipient, subject and text.
    pub from: String,
    pub to: String,
    pub subject: String,
    pub text: String,
}

/// An `Email` as plain values.
pub struct EmailView {
    pub url: Seq<char>,
    pub user: Seq<char>,
    pub password: Seq<char>,
    pub from: Seq<char>,
    pub to: Seq<char>,
    pub subject: Seq<char>,
    pub text: Seq<char>,
}

impl View for Email {
    type V = EmailView;

    open spec fn view(&self) -> EmailView {
        EmailView {
            url: self.url@,
            user: self.user@,
            password: self.password@,
            from: self.from@,
            to: self.to@,
            subject: self.subject@,
            text: self.text@,
        }
    }
}

/// What the mail service answered.
#[derive(Debug, PartialEq, Eq)]
pub struct Response {
    /// The status code of the answer.
    pub status: u16,
    /// The text of the answer.
    pub body: String,
}

/// Why a post got no answer, in the words of whoever posted it.
#[derive(Debug, PartialEq, Eq)]
pub struct TransportError {
    pub message: String,
}

/// Why a notification was not sent.
#[derive(Debug, PartialEq, Eq)]
pub enum SendError {
    /// The post got no answer.
    NotDelivered(TransportError),
    /// The mail service turned the notification down; the message ends
    /// with the text of its answer.
    Rejected { message: String },
}

/// The answer to a post as plain values: status and text, or `None`
/// where no answer came.
pub open spec fn answer_of(r: Result<Response, TransportError>) -> Option<(u16, Seq<char>)> {
    match r {
        Ok(response) => Some((response.status, response.body@)),
        Err(_) => None,
    }
}

/// The way to the mail service. An implementation that states no model
/// of its own leaves open what was posted and answered.
pub trait MailTransport {
    /// What was posted so far, oldest first.
    open spec fn posted(&self) -> Seq<EmailView> {
        arbitrary()
    }

    /// What each post was answered, oldest first.
    open spec fn answers(&self) -> Seq<Option<(u16, Seq<char>)>> {
        arbitrary()
    }

    /// Posts a notification and hands back the answer.
    fn post(&mut self, email: &Email) -> (r: Result<Response, TransportError>)
        ensures
            final(self).posted() == old(self).posted().push(email@),
            final(self).answers() == old(self).answers().push(answer_of(r)),
    ;
}

/// Where the notifications of an account are posted: the base path
/// without the slashes it ends with, then the domain, then `messages`.
pub open spec fn url_of(api_base_path: Seq<char>, domain: Seq<char>) -> Seq<char> {
    stripped_end(api_base_path, '/') + "/"@ + domain + "/messages"@
}

/// The subject of the notification: with the destination file's name
/// after a run that succeeded, without after one that failed.
pub open spec fn subject_of(file: Option<Seq<char>>) -> Seq<char> {
    match file {
        Some(name) => "Dessert has been served: "@ + name,
        None => "Dessert is ruined"@,
    }
}

/// The text of the notification: the destination file's name, if there is
/// one, an empty line, and the log, indented.
pub open spec fn text_of_report(file: Option<Seq<char>>, log: Seq<char>) -> Seq<char> {
    (match file {
        Some(name) => name,
        None => Seq::empty(),
    }) + "\n\n                            "@ + log
}

/// The notification of an account about a run.
pub open spec fn composed(client: Client, file: Option<Seq<char>>, log: Seq<char>) -> EmailView {
    EmailView {
        url: url_of(client.api_base_path@, client.domain@),
        user: API_USER@,
        password: client.api_key@,
        from: SENDER@,
        to: client.to@,
        subject: subject_of(file),
        text: text_of_report(file, log),
    }
}

/// Whether a status code reports success: 200 to 299.
pub open spec fn is_success(status: u16) -> bool {
    200 <= status < 300
}

/// How the answer of the mail service is read.
pub open spec fn delivery_of(status: u16, body: Seq<char>) -> Result<(), Seq<char>> {
    if is_success(status) {
        Ok(())
    } else {
        Err("Failed to send email: "@ + body)
    }
}

/// Whether `r` is what an answer to a post amounts to.
pub open spec fn delivered(answer: Option<(u16, Seq<char>)>, r: Result<(), SendError>) -> bool {
    match answer {
        None => r matches Err(SendError::NotDelivered(_)),
        Some((status, body)) => match r {
            Ok(()) => delivery_of(status, body) == Ok::<(), Seq<char>>(()),
            Err(SendError::Rejected { message }) => delivery_of(status, body) == Err::<
                (),
                Seq<char>,
            >(message@),
            Err(SendError::NotDelivered(_)) => false,
        },
    }
}

/// The text of an optional string.
pub open spec fn optional_text(text: Option<&str>) -> Option<Seq<char>> {
    match text {
        Some(t) => Some(t@),
        None => None,
    }
}

/// Reads the answer of the mail service: a status from 200 to 299 is a
/// success, any other a rejection that quotes the answer's text.
pub fn delivery(response: &Response) -> (r: Result<(), SendError>)
    ensures
        delivered(Some((response.status, response.body@)), r),
{
    if 200 <= response.status && response.status < 300 {
        Ok(())
    } else {
        let mut message = "Failed to send email: ".to_owned();
        message.append(response.body.as_str());
        Err(SendError::Rejected { message })
    }
}

impl Client {
    /// An account of the mail service and the recipient of its
    /// notifications.
    pub fn new(to: String, domain: String, api_base_path: String, api_key: String) -> (client:
        Client)
        ensures
            client.to == to,
            client.domain == domain,
            client.api_base_path == api_base_path,
            client.api_key == api_key,
    {
        Client { to, domain, api_base_path, api_key }
    }

    /// Writes the notification about a run: `file` is the destination
    /// file's name after a run that succeeded, `log` what the run logged.
    pub fn compose(&self, file: Option<&str>, log: &str) -> (email: Email)
        ensures
            email@ == composed(*self, optional_text(file), log@),
    {
        let base = chars_of(self.api_base_path.as_str());
        let mut url = text_of(&strip_end(&base, '/'));
        url.append("/");
        url.append(self.domain.as_str());
        url.append("/messages");
        let subject = match file {
            Some(name) => {
                let mut subject = "Dessert has been served: ".to_owned();
                subject.append(name);
                subject
            },
            None => "Dessert is ruined".to_owned(),
        };
        let mut text = match file {
            Some(name) => name.to_owned(),
            None => String::new(),
        };
        text.append("\n\n                            ");
        text.append(log);
        Email {
            url,
            user: API_USER.to_owned(),
            password: self.api_key.clone(),
            from: SENDER.to_owned(),
            to: self.to.clone(),
            subject,
            text,
        }
    }

    /// Posts the notification about a run and reads the answer. Exactly
    /// one notification is posted, whatever the answer, and the result is
    /// what that answer amounts to.
    pub fn send_email<T: MailTransport>(
        &self,
        file: Option<&str>,
        log: &str,
        transport: &mut T,
    ) -> (r: Result<(), SendError>)
        ensures
            final(transport).posted() == old(transport).posted().push(
                composed(*self, optional_text(file), log@),
            ),
            final(transport).answers().len() == old(transport).answers().len() + 1,
            final(transport).answers().drop_last() == old(transport).answers(),
            delivered(final(transport).answers().last(), r),
    {
        let email = self.compose(file, log);
        match transport.post(&email) {
            Ok(response) => delivery(&response),
            Err(e) => Err(SendError::NotDelivered(e)),
        }
    }
}

/// A transport that keeps what is posted and gives every post the same
/// answer, or none.
pub struct Outbox {
    emails: Vec<Email>,
    answer: Option<Response>,
}

/// Emails as plain values.
pub open spec fn email_views(emails: Seq<Email>) -> Seq<EmailView> {
    Seq::new(emails.len(), |i: int| emails[i]@)
}

impl Outbox {
    /// What every post is answered: status and text, or `None` where posts
    /// get no answer.
    pub closed spec fn answer(&self) -> Option<(u16, Seq<char>)> {
        match self.answer {
            Some(response) => Some((response.status, response.body@)),
            None => None,
        }
    }

    /// An empty outbox that answers every post with the given status and
    /// text.
    pub fn answering(status: u16, body: &str) -> (outbox: Outbox)
        ensures
            outbox.posted() == Seq::<EmailView>::empty(),
            outbox.answers() == Seq::<Option<(u16, Seq<char>)>>::empty(),
            outbox.answer() == Some((status, body@)),
    {
        Outbox { emails: Vec::new(), answer: Some(Response { status, body: body.to_owned() }) }
    }

    /// An empty outbox in which no post gets an answer.
    pub fn silent() -> (outbox: Outbox)
        ensures
            outbox.posted() == Seq::<EmailView>::empty(),
            outbox.answers() == Seq::<Option<(u16, Seq<char>)>>::empty(),
            outbox.answer() is None,
    {
        Outbox { emails: Vec::new(), answer: None }
    }

    /// What was posted so far, oldest first.
    pub fn emails(&self) -> (emails: &Vec<Email>)
        ensures
            email_views(emails@) == self.posted(),
    {
        &self.emails
    }
}

impl MailTransport for Outbox {
    closed spec fn posted(&self) -> Seq<EmailView> {
        email_views(self.emails@)
    }

    closed spec fn answers(&self) -> Seq<Option<(u16, Seq<char>)>> {
        Seq::new(self.emails@.len(), |i: int| self.answer())
    }

    fn post(&mut self, email: &Email) -> (r: Result<Response, TransportError>)
        ensures
            answer_of(r) == old(self).answer(),
            final(self).answer() == old(self).answer(),
    {
        self.emails.push(
            Email {
                url: email.url.clone(),
                user: email.user.clone(),
                password: email.password.clone(),
                from: email.from.clone(),
                to: email.to.clone(),
                subject: email.subject.clone(),
                text: email.text.clone(),
            },
        );
        assert(email_views(self.emails@) == email_views(old(self).emails@).push(email@));
        assert(self.answers() == old(self).answers().push(self.answer()));
        match &self.answer {
            Some(response) => Ok(
                Response { status: response.status, body: response.body.clone() },
            ),
            None => Err(TransportError { message: "no answer".to_owned() }),
        }
    }
}

} // verus!
