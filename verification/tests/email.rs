use dessert::email::{delivery, Client, Outbox, Response, SendError, TransportError};

fn client(api_base_path: &str) -> Client {
    Client::new(
        "me@example.org".to_string(),
        "mg.example.org".to_string(),
        api_base_path.to_string(),
        "key-123".to_string(),
    )
}

#[test]
fn notification_of_success_names_the_file() {
    let email = client("https://api.mailgun.net/v3").compose(Some("The Show - S01E02"), "log line");
    assert_eq!(email.url, "https://api.mailgun.net/v3/mg.example.org/messages");
    assert_eq!(email.user, "api");
    assert_eq!(email.password, "key-123");
    assert_eq!(email.from, "Dessert <dessert@mg.jonstodle.no>");
    assert_eq!(email.to, "me@example.org");
    assert_eq!(email.subject, "Dessert has been served: The Show - S01E02");
    assert_eq!(email.text, format!("The Show - S01E02\n\n{}log line", " ".repeat(28)));
}

#[test]
fn notification_of_failure_names_no_file() {
    let email = client("https://api.mailgun.net/v3").compose(None, "it broke");
    assert_eq!(email.subject, "Dessert is ruined");
    assert_eq!(email.text, format!("\n\n{}it broke", " ".repeat(28)));
}

#[test]
fn slashes_at_the_end_of_the_base_path_are_dropped() {
    assert_eq!(client("http://h/v3///").compose(None, "").url, "http://h/v3/mg.example.org/messages");
    assert_eq!(client("").compose(None, "").url, "/mg.example.org/messages");
    assert_eq!(client("/").compose(None, "").url, "/mg.example.org/messages");
}

#[test]
fn statuses_from_200_to_299_are_successes() {
    let answer = |status: u16| Response { status, body: "no".to_string() };
    assert_eq!(delivery(&answer(200)), Ok(()));
    assert_eq!(delivery(&answer(299)), Ok(()));
    let rejected = Err(SendError::Rejected { message: "Failed to send email: no".to_string() });
    assert_eq!(delivery(&answer(199)), rejected);
    assert_eq!(delivery(&answer(300)), rejected);
    assert_eq!(delivery(&answer(404)), rejected);
    assert_eq!(delivery(&answer(0)), rejected);
}

#[test]
fn sending_posts_one_notification_and_reads_the_answer() {
    let sender = client("https://api.mailgun.net/v3/");
    let mut accepted = Outbox::answering(200, "Queued");
    assert_eq!(sender.send_email(Some("A (2015)"), "done", &mut accepted), Ok(()));
    assert_eq!(accepted.emails(), &vec![sender.compose(Some("A (2015)"), "done")]);

    let mut refused = Outbox::answering(401, "Forbidden");
    assert_eq!(
        sender.send_email(None, "failed", &mut refused),
        Err(SendError::Rejected { message: "Failed to send email: Forbidden".to_string() })
    );
    assert_eq!(refused.emails().len(), 1);
    assert_eq!(refused.emails()[0].subject, "Dessert is ruined");
}

#[test]
fn post_without_answer_is_not_delivered() {
    let sender = client("https://api.mailgun.net/v3");
    let mut silent = Outbox::silent();
    assert_eq!(
        sender.send_email(Some("A (2015)"), "done", &mut silent),
        Err(SendError::NotDelivered(TransportError { message: "no answer".to_string() }))
    );
    assert_eq!(silent.emails().len(), 1);
}
