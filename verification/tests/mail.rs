use realtime_chat::auth::two_fa::send_otp_email;
use realtime_chat::clock::Timestamp;
use realtime_chat::mail::{
    conclude_mail, prepare_mail, prepare_mail_at, send_reset_email, MailError, MailSecurity, MailSettings,
    MailVariables, OutgoingMail,
};

fn variables() -> MailVariables {
    MailVariables {
        host: Some("mail.example.com".into()),
        port: Some("587".into()),
        user: Some("robot".into()),
        password: Some("secret".into()),
        from_email: Some("chat@example.com".into()),
        from_name: None,
        mode: None,
        accept_invalid_certs: None,
    }
}

fn fault(variables: MailVariables) -> MailError {
    MailSettings::from_variables(variables).unwrap_err()
}

fn content(outgoing: &OutgoingMail) -> String {
    String::from_utf8(outgoing.mail.content.clone()).unwrap()
}

#[test]
fn settings_are_read_from_the_variables() {
    let settings = MailSettings::from_variables(variables()).unwrap();
    assert_eq!(settings.host, "mail.example.com");
    assert_eq!(settings.port, 587);
    assert_eq!(settings.user, "robot");
    assert_eq!(settings.password, "secret");
    assert_eq!(settings.from_email, "chat@example.com");
    assert_eq!(settings.from_name, "Realtime Chat");
    assert_eq!(settings.security, MailSecurity::StartTls);
    assert!(!settings.accept_invalid_certs);
    let named = MailVariables { from_name: Some("Chat".into()), ..variables() };
    assert_eq!(MailSettings::from_variables(named).unwrap().from_name, "Chat");
}

#[test]
fn missing_variables_are_named_in_order() {
    assert_eq!(fault(MailVariables { host: None, ..variables() }), MailError::MissingHost);
    assert_eq!(fault(MailVariables { port: None, ..variables() }), MailError::MissingPort);
    let port = Some("many".to_string());
    assert_eq!(fault(MailVariables { port, ..variables() }), MailError::InvalidPort);
    assert_eq!(fault(MailVariables { user: None, ..variables() }), MailError::MissingUser);
    assert_eq!(fault(MailVariables { password: None, ..variables() }), MailError::MissingPassword);
    assert_eq!(fault(MailVariables { from_email: None, ..variables() }), MailError::MissingSender);
    let several = MailVariables { host: None, user: None, port: None, ..variables() };
    assert_eq!(fault(several), MailError::MissingHost);
    let several = MailVariables { port: Some("70000".into()), user: None, ..variables() };
    assert_eq!(fault(several), MailError::InvalidPort);
}

#[test]
fn modes_decide_the_protection() {
    let modes = [
        ("wrapper", MailSecurity::Wrapper),
        ("smtps", MailSecurity::Wrapper),
        ("insecure", MailSecurity::Plain),
        ("plain", MailSecurity::Plain),
        ("starttls", MailSecurity::StartTls),
        ("Wrapper", MailSecurity::StartTls),
        ("", MailSecurity::StartTls),
    ];
    for (mode, security) in modes {
        let set = MailVariables { mode: Some(mode.into()), ..variables() };
        assert_eq!(MailSettings::from_variables(set).unwrap().security, security, "{}", mode);
    }
}

#[test]
fn invalid_certificates_are_accepted_on_request() {
    let values = [("true", true), ("TRUE", true), ("1", true), ("yes", false), ("11", false)];
    for (value, accepted) in values {
        let set = MailVariables { accept_invalid_certs: Some(value.into()), ..variables() };
        let settings = MailSettings::from_variables(set).unwrap();
        assert_eq!(settings.accept_invalid_certs, accepted, "{}", value);
    }
}

#[test]
fn mail_is_put_together() {
    let outgoing =
        prepare_mail(variables(), "Ada", "ada@example.com", "Hi", "How are you?", 784111777).unwrap();
    assert_eq!(outgoing.mail.sender, "chat@example.com");
    assert_eq!(outgoing.mail.recipient, "ada@example.com");
    assert_eq!(outgoing.settings.host, "mail.example.com");
    let again =
        prepare_mail(variables(), "Ada", "ada@example.com", "Hi", "How are you?", 784111777).unwrap();
    assert_eq!(again.mail.content, outgoing.mail.content);
    let text = content(&outgoing);
    assert!(text.contains("From: \"Realtime Chat\" <chat@example.com>\r\n"), "{}", text);
    assert!(text.contains("To: Ada <ada@example.com>\r\n"), "{}", text);
    assert!(text.contains("Subject: Hi\r\n"), "{}", text);
    assert!(text.contains("Content-Type: text/plain; charset=utf-8\r\n"), "{}", text);
    assert!(text.contains("Date: Sun, 06 Nov 1994 08:49:37 +0000\r\n"), "{}", text);
    assert!(text.contains("\r\n\r\nHow are you?"), "{}", text);
}

#[test]
fn improper_addresses_are_refused() {
    let wrong_to = prepare_mail(variables(), "Ada", "nobody", "Hi", "", 0);
    assert_eq!(wrong_to.unwrap_err(), MailError::InvalidMessage);
    let wrong_from = MailVariables { from_email: Some("@".into()), ..variables() };
    let refused = prepare_mail(wrong_from, "Ada", "ada@example.com", "Hi", "", 0);
    assert_eq!(refused.unwrap_err(), MailError::InvalidMessage);
    let settings = MailSettings::from_variables(variables()).unwrap();
    assert_eq!(conclude_mail(settings, None).unwrap_err(), MailError::InvalidMessage);
}

#[test]
fn put_together_mail_is_passed_on() {
    let made = prepare_mail(variables(), "Ada", "ada@example.com", "Hi", "Ho", 0).unwrap();
    let passed = conclude_mail(made.settings.clone(), Some(made.mail.clone())).unwrap();
    assert_eq!(passed.mail.content, made.mail.content);
    assert_eq!(passed.settings.port, 587);
}

#[test]
fn code_is_mailed_in_words() {
    let outgoing = send_otp_email(variables(), "ada@example.com", "Ada", "012345").unwrap();
    assert_eq!(outgoing.mail.recipient, "ada@example.com");
    let text = content(&outgoing);
    assert!(text.contains("Subject: Your Login Verification Code\r\n"), "{}", text);
    let body = "\r\n\r\nHello Ada,\r\n\r\nYour verification code is: 012345\r\n\r\n\
        This code will expire in 10 minutes.\r\n\
        If you didn't request this code, please ignore this email.\r\n\r\n\
        Best regards,\r\nCode Exploration Real Time Chat Team";
    assert!(text.ends_with(body), "{}", text);
    let unset = MailVariables { host: None, ..variables() };
    let refused = send_otp_email(unset, "ada@example.com", "Ada", "012345");
    assert_eq!(refused.unwrap_err(), MailError::MissingHost);
}

#[test]
fn reset_link_is_mailed_in_words() {
    let link = "http://a/reset?token=1";
    let outgoing = send_reset_email(variables(), "ada@example.com", "Ada", link).unwrap();
    let text = content(&outgoing);
    assert!(text.contains("Subject: Password Reset Request\r\n"), "{}", text);
    assert!(text.contains("Hello Ada,\r\n\r\nWe received a request to reset your password."));
    assert!(text.contains("(valid for 30 minutes):\r\nhttp://a/reset?token"), "{}", text);
    assert!(text.ends_with("If you did not request this, you can ignore this email."), "{}", text);
}

#[test]
fn mails_have_no_date_past_the_year_9999() {
    let at = |secs: i64| Timestamp::new(secs, 0).unwrap();
    let mail = |variables: MailVariables, now: Timestamp| {
        prepare_mail_at(variables, "Ada", "ada@example.com", "Hi", "Ho", now)
    };
    let last = mail(variables(), at(253402300799)).unwrap();
    assert!(content(&last).contains("Date: Fri, 31 Dec 9999 23:59:59 +0000\r\n"));
    let late = mail(variables(), at(253402300800)).unwrap_err();
    assert_eq!(late, MailError::ClockOutOfRange);
    let unset = MailVariables { host: None, ..variables() };
    assert_eq!(mail(unset, at(253402300800)).unwrap_err(), MailError::MissingHost);
    let now = mail(variables(), at(0)).unwrap();
    assert!(content(&now).contains("Date: Thu, 01 Jan 1970 00:00:00 +0000\r\n"));
}
