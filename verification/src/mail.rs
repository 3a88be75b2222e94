//! The mails that the server sends, and the mail server that it sends them
//! through.

use lettre::message::header::{ContentType, Date};
use lettre::Message;
use std::time::{Duration, UNIX_EPOCH};
use vstd::prelude::*;

use crate::clock::{utc_now, Timestamp};
use crate::reply::opt_text;
use crate::text::{equal_ignoring_case, parse_port, port_number, same_ignoring_case};

verus! {

/// The first second that the date of a mail cannot be written for: the start
/// of the year 10000.
pub const MAIL_DATE_END: u64 = 253402300800;

/// The variables that say how mail is sent, as far as they are set.
#[derive(Clone, Debug)]
pub struct MailVariables {
    /// `SMTP_HOST`
    pub host: Option<String>,
    /// `SMTP_PORT`
    pub port: Option<String>,
    /// `SMTP_USER`
    pub user: Option<String>,
    /// `SMTP_PASS`
    pub password: Option<String>,
    /// `FROM_EMAIL`
    pub from_email: Option<String>,
    /// `FROM_NAME`
    pub from_name: Option<String>,
    /// `SMTP_MODE`
    pub mode: Option<String>,
    /// `SMTP_ACCEPT_INVALID_CERTS`
    pub accept_invalid_certs: Option<String>,
}

/// How the connection to the mail server is protected.
#[derive(Clone, Copy, Debug, PartialEq, Eq, Structural)]
pub enum MailSecurity {
    /// TLS from the first byte on.
    Wrapper,
    /// No TLS at all.
    Plain,
    /// TLS is required after a plain greeting.
    StartTls,
}

/// How mail is sent.
#[derive(Clone, Debug)]
pub struct MailSettings {
    pub host: String,
    pub port: u16,
    pub user: String,
    pub password: String,
    pub from_email: String,
    pub from_name: String,
    pub security: MailSecurity,
    pub accept_invalid_certs: bool,
}

/// A mail in the form in which a mail server takes it, with the addresses that
/// it goes from and to.
#[derive(Clone, Debug)]
pub struct RenderedMail {
    pub sender: String,
    pub recipient: String,
    pub content: Vec<u8>,
}

/// Why a mail cannot be sent.
#[derive(Clone, Copy, Debug, PartialEq, Eq, Structural)]
pub enum MailError {
    MissingHost,
    MissingPort,
    InvalidPort,
    MissingUser,
    MissingPassword,
    MissingSender,
    /// The sender or the recipient has no proper address.
    InvalidMessage,
    /// The clock stands past the last date that a mail can carry.
    ClockOutOfRange,
}

/// The sender, the recipient and the content that the mail crate makes of a
/// plain text mail with the given `From`, `To`, `Subject`, body and date in
/// seconds since 1970; nothing where it refuses one of them.
pub uninterp spec fn rendered_mail(
    from: Seq<char>,
    to: Seq<char>,
    subject: Seq<char>,
    body: Seq<char>,
    sent_at: u64,
) -> Option<(Seq<char>, Seq<char>, Seq<u8>)>;

impl View for RenderedMail {
    type V = (Seq<char>, Seq<char>, Seq<u8>);

    open spec fn view(&self) -> (Seq<char>, Seq<char>, Seq<u8>) {
        (self.sender@, self.recipient@, self.content@)
    }
}

/// Puts a plain text mail together with `lettre::Message::builder`, and writes
/// it with `formatted`; the date is set to `sent_at` once the message stands.
///
/// Claimed: what comes out depends on the arguments alone. How headers and body
/// are encoded, and which addresses are taken, is left to the mail crate. On the
/// way the builder reads the clock for a date that is not kept, and panics where
/// the clock itself stands at `MAIL_DATE_END` or later.
#[verifier::external_body]
fn lettre_render(from: &str, to: &str, subject: &str, body: &str, sent_at: u64) -> (mail: Option<
    RenderedMail,
>)
    requires
        sent_at < MAIL_DATE_END,
    ensures
        rendered_mail(from@, to@, subject@, body@, sent_at) == (match mail {
            Some(mail) => Some(mail@),
            None => None,
        }),
{
    let builder = Message::builder().from(from.parse().ok()?).to(to.parse().ok()?);
    let builder = builder.subject(subject).header(ContentType::TEXT_PLAIN);
    let mut message = builder.body(body.to_string()).ok()?;
    message.headers_mut().set(Date::new(UNIX_EPOCH + Duration::from_secs(sent_at)));
    let envelope = message.envelope();
    Some(
        RenderedMail {
            sender: envelope.from()?.to_string(),
            recipient: envelope.to().first()?.to_string(),
            content: message.formatted(),
        },
    )
}

/// The protection that a mode stands for; what is not known means `StartTls`.
pub open spec fn security_of(mode: Option<Seq<char>>) -> MailSecurity {
    match mode {
        Some(mode) => if mode == "wrapper"@ || mode == "smtps"@ {
            MailSecurity::Wrapper
        } else if mode == "insecure"@ || mode == "plain"@ {
            MailSecurity::Plain
        } else {
            MailSecurity::StartTls
        },
        None => MailSecurity::StartTls,
    }
}

/// Whether a setting is switched on: `true` in any case, or `1`.
pub open spec fn is_switched_on(value: Option<Seq<char>>) -> bool {
    match value {
        Some(value) => equal_ignoring_case(value, "true"@) || value == "1"@,
        None => false,
    }
}

impl MailVariables {
    /// The first thing about the variables that keeps mail from being sent.
    pub open spec fn fault(self) -> Option<MailError> {
        match (self.host, self.port, self.user, self.password, self.from_email) {
            (None, _, _, _, _) => Some(MailError::MissingHost),
            (_, None, _, _, _) => Some(MailError::MissingPort),
            (_, Some(port), _, _, _) if port_number(port@) is None => Some(MailError::InvalidPort),
            (_, _, None, _, _) => Some(MailError::MissingUser),
            (_, _, _, None, _) => Some(MailError::MissingPassword),
            (_, _, _, _, None) => Some(MailError::MissingSender),
            _ => None,
        }
    }

    /// The name that mails are sent under.
    pub open spec fn sender_name(self) -> Seq<char> {
        match self.from_name {
            Some(name) => name@,
            None => "Realtime Chat"@,
        }
    }

    /// Whether `settings` are what the variables say.
    pub open spec fn give(self, settings: MailSettings) -> bool {
        &&& self.host == Some(settings.host)
        &&& self.port matches Some(port) && port_number(port@) == Some(settings.port)
        &&& self.user == Some(settings.user)
        &&& self.password == Some(settings.password)
        &&& self.from_email == Some(settings.from_email)
        &&& settings.from_name@ == self.sender_name()
        &&& settings.security == security_of(opt_text(self.mode))
        &&& settings.accept_invalid_certs == is_switched_on(
            opt_text(self.accept_invalid_certs),
        )
    }
}

/// The protection that a mode stands for.
fn security(mode: Option<String>) -> (security: MailSecurity)
    ensures
        security == security_of(opt_text(mode)),
{
    match mode {
        None => MailSecurity::StartTls,
        Some(mode) => {
            if mode == "wrapper".to_owned() || mode == "smtps".to_owned() {
                MailSecurity::Wrapper
            } else if mode == "insecure".to_owned() || mode == "plain".to_owned() {
                MailSecurity::Plain
            } else {
                MailSecurity::StartTls
            }
        },
    }
}

/// Whether a setting is switched on.
fn switched_on(value: Option<String>) -> (on: bool)
    ensures
        on == is_switched_on(opt_text(value)),
{
    match value {
        None => false,
        Some(value) => {
            same_ignoring_case(value.as_str(), "true") || value == "1".to_owned()
        },
    }
}

impl MailSettings {
    /// What the variables say about how mail is sent.
    pub fn from_variables(variables: MailVariables) -> (res: Result<MailSettings, MailError>)
        ensures
            match res {
                Ok(settings) => variables.fault() is None && variables.give(settings),
                Err(e) => variables.fault() == Some(e),
            },
    {
        let host = match variables.host {
            None => return Err(MailError::MissingHost),
            Some(host) => host,
        };
        let port: u16 = match variables.port {
            None => return Err(MailError::MissingPort),
            Some(port) => match parse_port(port.as_str()) {
                None => return Err(MailError::InvalidPort),
                Some(port) => port,
            },
        };
        let user = match variables.user {
            None => return Err(MailError::MissingUser),
            Some(user) => user,
        };
        let password = match variables.password {
            None => return Err(MailError::MissingPassword),
            Some(password) => password,
        };
        let from_email = match variables.from_email {
            None => return Err(MailError::MissingSender),
            Some(from_email) => from_email,
        };
        let from_name = match variables.from_name {
            None => "Realtime Chat".to_owned(),
            Some(from_name) => from_name,
        };
        Ok(
            MailSettings {
                host,
                port,
                user,
                password,
                from_email,
                from_name,
                security: security(variables.mode),
                accept_invalid_certs: switched_on(variables.accept_invalid_certs),
            },
        )
    }
}

/// A mail that is ready to be sent, and how to send it.
#[derive(Clone, Debug)]
pub struct OutgoingMail {
    pub settings: MailSettings,
    pub mail: RenderedMail,
}

/// A name and an address as mail headers write them.
pub open spec fn mailbox_text(name: Seq<char>, email: Seq<char>) -> Seq<char> {
    name + " <"@ + email + ">"@
}

/// The subject of the mail that carries a one-time code.
pub open spec fn otp_subject() -> Seq<char> {
    "Your Login Verification Code"@
}

/// The body of the mail that carries a one-time code.
pub open spec fn otp_body(name: Seq<char>, code: Seq<char>) -> Seq<char> {
    "Hello "@ + name + ",\n\nYour verification code is: "@ + code
        + "\n\nThis code will expire in 10 minutes.\nIf you didn't request this code, please ignore this email.\n\nBest regards,\nCode Exploration Real Time Chat Team"@
}

/// The subject of the mail that carries a link to set a new password.
pub open spec fn reset_subject() -> Seq<char> {
    "Password Reset Request"@
}

/// The body of the mail that carries a link to set a new password.
pub open spec fn reset_body(name: Seq<char>, link: Seq<char>) -> Seq<char> {
    "Hello "@ + name
        + ",\n\nWe received a request to reset your password.\n\nClick the link to set a new password (valid for 30 minutes):\n"@
        + link + "\n\nIf you did not request this, you can ignore this email."@
}

/// Whether `res` is what a mail to the given recipient comes to, if it is sent
/// at `sent_at`.
pub open spec fn is_mail(
    res: Result<OutgoingMail, MailError>,
    variables: MailVariables,
    to_name: Seq<char>,
    to_email: Seq<char>,
    subject: Seq<char>,
    body: Seq<char>,
    sent_at: u64,
) -> bool {
    match (variables.fault(), variables.from_email) {
        (Some(e), _) => res == Err::<OutgoingMail, MailError>(e),
        (None, None) => false,
        (None, Some(from_email)) => match rendered_mail(
            mailbox_text(variables.sender_name(), from_email@),
            mailbox_text(to_name, to_email),
            subject,
            body,
            sent_at,
        ) {
            Some(parts) => {
                &&& res matches Ok(outgoing)
                &&& variables.give(outgoing.settings)
                &&& outgoing.mail@ == parts
            },
            None => res == Err::<OutgoingMail, MailError>(MailError::InvalidMessage),
        },
    }
}

/// Whether `res` is what a mail to the given recipient comes to, if the clock
/// stands at `now`.
pub open spec fn is_mail_at(
    res: Result<OutgoingMail, MailError>,
    variables: MailVariables,
    to_name: Seq<char>,
    to_email: Seq<char>,
    subject: Seq<char>,
    body: Seq<char>,
    now: Timestamp,
) -> bool {
    if variables.fault() is None && now.secs >= MAIL_DATE_END {
        res == Err::<OutgoingMail, MailError>(MailError::ClockOutOfRange)
    } else {
        is_mail(res, variables, to_name, to_email, subject, body, now.secs as u64)
    }
}

/// A name and an address as mail headers write them.
fn write_mailbox(name: &str, email: &str) -> (text: String)
    ensures
        text@ == mailbox_text(name@, email@),
{
    name.to_owned().concat(" <").concat(email).concat(">")
}

/// What comes of a mail, once it is known whether it could be put together.
pub fn conclude_mail(settings: MailSettings, mail: Option<RenderedMail>) -> (res: Result<
    OutgoingMail,
    MailError,
>)
    ensures
        res == (match mail {
            Some(mail) => Ok(OutgoingMail { settings, mail }),
            None => Err(MailError::InvalidMessage),
        }),
{
    match mail {
        Some(mail) => Ok(OutgoingMail { settings, mail }),
        None => Err(MailError::InvalidMessage),
    }
}

/// Puts a mail together that is sent `sent_at` seconds after the start of 1970.
pub fn prepare_mail(
    variables: MailVariables,
    to_name: &str,
    to_email: &str,
    subject: &str,
    body: &str,
    sent_at: u64,
) -> (res: Result<OutgoingMail, MailError>)
    requires
        sent_at < MAIL_DATE_END,
    ensures
        is_mail(res, variables, to_name@, to_email@, subject@, body@, sent_at),
{
    let settings = match MailSettings::from_variables(variables) {
        Err(e) => return Err(e),
        Ok(settings) => settings,
    };
    let from = write_mailbox(settings.from_name.as_str(), settings.from_email.as_str());
    let to = write_mailbox(to_name, to_email);
    let mail = lettre_render(from.as_str(), to.as_str(), subject, body, sent_at);
    conclude_mail(settings, mail)
}

/// Puts a mail together that is sent at `now`.
pub fn prepare_mail_at(
    variables: MailVariables,
    to_name: &str,
    to_email: &str,
    subject: &str,
    body: &str,
    now: Timestamp,
) -> (res: Result<OutgoingMail, MailError>)
    requires
        now.is_reading(),
    ensures
        is_mail_at(res, variables, to_name@, to_email@, subject@, body@, now),
{
    if now.secs >= MAIL_DATE_END as i64 {
        return match MailSettings::from_variables(variables) {
            Err(e) => Err(e),
            Ok(_) => Err(MailError::ClockOutOfRange),
        };
    }
    prepare_mail(variables, to_name, to_email, subject, body, now.secs as u64)
}

/// Puts the mail together that carries a one-time code.
pub fn send_otp_email(
    variables: MailVariables,
    to_email: &str,
    to_name: &str,
    otp_code: &str,
) -> (res: Result<OutgoingMail, MailError>)
    ensures
        exists|now: Timestamp| #[trigger]
            now.is_reading() && is_mail_at(
                res,
                variables,
                to_name@,
                to_email@,
                otp_subject(),
                otp_body(to_name@, otp_code@),
                now,
            ),
{
    let body = "Hello ".to_owned().concat(to_name).concat(
        ",\n\nYour verification code is: ",
    ).concat(otp_code).concat(
        "\n\nThis code will expire in 10 minutes.\nIf you didn't request this code, please ignore this email.\n\nBest regards,\nCode Exploration Real Time Chat Team",
    );
    let now = utc_now();
    let subject = "Your Login Verification Code";
    prepare_mail_at(variables, to_name, to_email, subject, body.as_str(), now)
}

/// Puts the mail together that carries a link to set a new password.
pub fn send_reset_email(
    variables: MailVariables,
    to_email: &str,
    to_name: &str,
    link_url: &str,
) -> (res: Result<OutgoingMail, MailError>)
    ensures
        exists|now: Timestamp| #[trigger]
            now.is_reading() && is_mail_at(
                res,
                variables,
                to_name@,
                to_email@,
                reset_subject(),
                reset_body(to_name@, link_url@),
                now,
            ),
{
    let body = "Hello ".to_owned().concat(to_name).concat(
        ",\n\nWe received a request to reset your password.\n\nClick the link to set a new password (valid for 30 minutes):\n",
    ).concat(link_url).concat("\n\nIf you did not request this, you can ignore this email.");
    let now = utc_now();
    prepare_mail_at(variables, to_name, to_email, "Password Reset Request", body.as_str(), now)
}

} // verus!
