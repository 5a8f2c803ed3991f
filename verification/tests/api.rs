use linkify::{LinkFinder, LinkKind};
use reqwest::Url;
use zero2prod::domain::SubscriberEmail;
use zero2prod::email_client::{compose, delivery_result, NotifierFailure, SendEmailRequest};
use zero2prod::routes::subscriptions::{
    sign_up_step, ConfirmationEmail, SignUpAction, SignUpEvent, SignUpState,
};
use zero2prod::routes::subscriptions_confirm::{
    confirm_step, ConfirmAction, ConfirmEvent, ConfirmState,
};
use zero2prod::routes::{Parameters, SubscriberCreateRequest};
use zero2prod::store::{StoreError, SubscriberId, SubscriberStatus};

struct Saved {
    id: SubscriberId,
    email: String,
    name: String,
    status: String,
}

/// The service with a store held in memory and a mail server that records
/// what it is sent and answers with a fixed status.
struct TestApp {
    address: String,
    subscriptions: Vec<Saved>,
    subscription_tokens: Vec<(String, SubscriberId)>,
    received_requests: Vec<SendEmailRequest>,
    email_server_status: u16,
    token_table_is_down: bool,
}

struct ConfirmationLinks {
    html: Url,
    plain: Url,
}

fn spawn_app() -> TestApp {
    TestApp {
        address: "http://127.0.0.1".to_string(),
        subscriptions: Vec::new(),
        subscription_tokens: Vec::new(),
        received_requests: Vec::new(),
        email_server_status: 200,
        token_table_is_down: false,
    }
}

impl TestApp {
    fn insert_pending_subscriber(
        &mut self,
        name: String,
        email: String,
    ) -> Result<SubscriberId, StoreError> {
        if self.subscriptions.iter().any(|saved| saved.email == email) {
            return Err(StoreError::Conflict);
        }
        let id = SubscriberId(self.subscriptions.len() as u128 + 1);
        let status = SubscriberStatus::PendingConfirmation.as_str().to_string();
        self.subscriptions.push(Saved { id, email, name, status });
        Ok(id)
    }

    fn insert_token(&mut self, token: String, id: SubscriberId) -> Result<(), StoreError> {
        if self.token_table_is_down {
            return Err(StoreError::StorageUnavailable);
        }
        if !self.subscriptions.iter().any(|saved| saved.id == id) {
            return Err(StoreError::Conflict);
        }
        self.subscription_tokens.push((token, id));
        Ok(())
    }

    fn find_subscriber_id_by_token(&self, token: &str) -> Option<SubscriberId> {
        self.subscription_tokens.iter().find(|(kept, _)| kept == token).map(|(_, id)| *id)
    }

    fn mark_confirmed(&mut self, id: SubscriberId) {
        for saved in self.subscriptions.iter_mut().filter(|saved| saved.id == id) {
            saved.status = SubscriberStatus::Confirmed.as_str().to_string();
        }
    }

    fn send(&mut self, email: ConfirmationEmail) -> Result<(), NotifierFailure> {
        let sender = SubscriberEmail::parse("news@example.com".to_string()).unwrap();
        let request = compose(
            &sender,
            &email.recipient,
            &email.subject,
            &email.html_body,
            &email.text_body,
        );
        self.received_requests.push(request);
        delivery_result(self.email_server_status)
    }

    fn post_subscription(&mut self, body: String) -> u16 {
        let fields: Vec<(String, String)> = serde_urlencoded::from_str(&body).unwrap();
        let field = |key: &str| {
            fields.iter().find(|(name, _)| name == key).map(|(_, value)| value.clone())
        };
        let request = match (field("name"), field("email")) {
            (Some(name), Some(email)) => Some(SubscriberCreateRequest { email, name }),
            _ => None,
        };
        let mut state = SignUpState::start();
        let mut event = SignUpEvent::Submitted(request);
        loop {
            let (next, action) = sign_up_step(state, event, &self.address);
            state = next;
            event = match action {
                SignUpAction::InsertPendingSubscriber { name, email } => {
                    SignUpEvent::SubscriberStored(self.insert_pending_subscriber(name, email))
                }
                SignUpAction::InsertToken { token, subscriber_id } => {
                    SignUpEvent::TokenStored(self.insert_token(token, subscriber_id))
                }
                SignUpAction::SendConfirmation(email) => {
                    SignUpEvent::ConfirmationSent(self.send(email))
                }
                SignUpAction::Respond(outcome) => {
                    assert_eq!(state.outcome(), Some(outcome));
                    return outcome.status_code();
                }
            };
        }
    }

    fn get(&mut self, url: Url) -> u16 {
        assert_eq!(url.path(), "/subscriptions/confirm");
        let parameters = url
            .query_pairs()
            .find(|(key, _)| key == "subscription_token")
            .map(|(_, value)| Parameters { subscription_token: value.into_owned() });
        let mut state = ConfirmState::start();
        let mut event = ConfirmEvent::Requested(parameters);
        loop {
            let (next, action) = confirm_step(state, event);
            state = next;
            event = match action {
                ConfirmAction::FindSubscriberIdByToken { token } => {
                    ConfirmEvent::LookedUp(Ok(self.find_subscriber_id_by_token(&token)))
                }
                ConfirmAction::MarkConfirmed { subscriber_id } => {
                    self.mark_confirmed(subscriber_id);
                    ConfirmEvent::Marked(Ok(()))
                }
                ConfirmAction::Respond(outcome) => {
                    assert_eq!(state.outcome(), Some(outcome));
                    return outcome.status_code();
                }
            };
        }
    }

    fn get_confirmation_links(&self, email_request: &SendEmailRequest) -> ConfirmationLinks {
        let get_link = |s: &str| {
            let links: Vec<_> =
                LinkFinder::new().links(s).filter(|l| *l.kind() == LinkKind::Url).collect();
            assert_eq!(links.len(), 1);
            let raw_links = links[0].as_str().to_owned();
            let confirmation_url = Url::parse(&raw_links).unwrap();
            assert_eq!(confirmation_url.host_str().unwrap(), "127.0.0.1");
            confirmation_url
        };
        let html = get_link(&email_request.html_body);
        let plain = get_link(&email_request.text_body);
        ConfirmationLinks { html, plain }
    }
}

#[test]
fn subscriptions_new_subscriber_returns_200() {
    let mut test_app = spawn_app();
    let new_subscriber = "name=le%20guin&email=ursula_le_guin%40gmail.com";

    let res = test_app.post_subscription(new_subscriber.into());

    assert_eq!(200, res);
    assert_eq!(test_app.received_requests.len(), 1);
}

#[test]
fn new_subscriber_persists_subscriber() {
    let mut test_app = spawn_app();
    let new_subscriber = "name=le%20guin&email=ursula_le_guin%40gmail.com";

    let _ = test_app.post_subscription(new_subscriber.into());
    assert_eq!(test_app.subscriptions.len(), 1);
    let saved = &test_app.subscriptions[0];

    assert_eq!(saved.name, "le guin");
    assert_eq!(saved.email, "ursula_le_guin@gmail.com");
    assert_eq!(saved.status, "pending_confirmation");
}

#[test]
fn subscriptions_bad_subscriber_returns_400() {
    let mut test_app = spawn_app();
    let test_cases = vec![
        ("name=le%20guin", "missing the email"),
        ("email=ursula_le_guin%40gmail.com", "missing the name"),
        ("", "missing both name and email"),
    ];

    for (new_subscriber, error_message) in test_cases {
        let res = test_app.post_subscription(new_subscriber.into());
        assert_eq!(400, res, "Api did not fail with payload [{}]", error_message);
    }
    assert!(test_app.subscriptions.is_empty());
    assert!(test_app.subscription_tokens.is_empty());
    assert!(test_app.received_requests.is_empty());
}

#[test]
fn subscriptions_subscribe_returns_a_400_when_fields_are_present_but_empty() {
    let mut test_app = spawn_app();
    let test_cases = vec![
        ("name=&email=ursula_le_guin%40gmail.com", "empty name"),
        ("name=Ursula&email=", "empty email"),
        ("name=Ursula&email=definitely-not-an-email", "invalid email"),
    ];
    for (body, description) in test_cases {
        let response = test_app.post_subscription(body.into());
        assert_eq!(
            400, response,
            "The API did not return a 200 OK when the payload was {}.",
            description
        );
    }
    assert!(test_app.subscriptions.is_empty());
    assert!(test_app.received_requests.is_empty());
}

#[test]
fn subscriber_sends_a_confirmation_email_for_valid_data() {
    let mut app = spawn_app();
    let email = "name=le%20guin&email=ursula_le_guin%40gmail.com";
    app.post_subscription(email.into());
    assert_eq!(app.received_requests.len(), 1);
    let request = &app.received_requests[0];
    assert_eq!(request.to, "ursula_le_guin@gmail.com");
    assert_eq!(request.from, "news@example.com");
    assert_eq!(request.subject, "Welcome");
}

#[test]
fn subscribe_sends_a_confirmation_email_with_link() {
    let mut app = spawn_app();
    let email = "name=le%20guin&email=ursula_le_guin%40gmail.com";

    app.post_subscription(email.into());

    let email_request = &app.received_requests[0];
    let confirmation_links = app.get_confirmation_links(email_request);

    assert_eq!(confirmation_links.html, confirmation_links.plain);
    let (token, _) = &app.subscription_tokens[0];
    assert_eq!(
        confirmation_links.html.as_str(),
        format!("http://127.0.0.1/subscriptions/confirm?subscription_token={}", token)
    );
}

#[test]
fn confirmation_without_a_token_rejected_with_400() {
    let mut app = spawn_app();
    let url = format!("{}/subscriptions/confirm", &app.address);

    let res = app.get(Url::parse(&url).unwrap());
    assert_eq!(res, 400);
}

#[test]
fn confirmation_with_an_unknown_token_rejected_with_401() {
    let mut app = spawn_app();
    app.post_subscription("name=le%20guin&email=ursula_le_guin%40gmail.com".into());
    let url = format!(
        "{}/subscriptions/confirm?subscription_token=0000000000000000000000000",
        &app.address
    );

    let res = app.get(Url::parse(&url).unwrap());
    assert_eq!(res, 401);
    assert_eq!(app.subscriptions[0].status, "pending_confirmation");
}

#[test]
fn the_link_returned_by_subscribe_returns_a_200_if_called() {
    let mut app = spawn_app();
    let email = "name=le%20guin&email=ursula_le_guin%40gmail.com";

    app.post_subscription(email.into());

    let confirmation_links = app.get_confirmation_links(&app.received_requests[0]);

    assert_eq!(app.get(confirmation_links.html), 200);

    assert_eq!(app.subscriptions.len(), 1);
    let saved = &app.subscriptions[0];

    assert_eq!(saved.email, "ursula_le_guin@gmail.com");
    assert_eq!(saved.name, "le guin");
    assert_eq!(saved.status, "confirmed");
}

#[test]
fn confirming_twice_returns_200_and_stays_confirmed() {
    let mut app = spawn_app();
    app.post_subscription("name=le%20guin&email=ursula_le_guin%40gmail.com".into());
    let confirmation_links = app.get_confirmation_links(&app.received_requests[0]);

    assert_eq!(app.get(confirmation_links.html.clone()), 200);
    assert_eq!(app.subscriptions[0].status, "confirmed");
    assert_eq!(app.get(confirmation_links.plain), 200);
    assert_eq!(app.get(confirmation_links.html), 200);

    assert_eq!(app.subscriptions.len(), 1);
    assert_eq!(app.subscriptions[0].status, "confirmed");
    assert_eq!(app.subscription_tokens.len(), 1);
    assert_eq!(app.received_requests.len(), 1);
}

#[test]
fn subscribing_twice_with_one_email_returns_500() {
    let mut app = spawn_app();
    assert_eq!(app.post_subscription("name=le%20guin&email=ursula_le_guin%40gmail.com".into()), 200);
    assert_eq!(app.post_subscription("name=ursula&email=ursula_le_guin%40gmail.com".into()), 500);

    assert_eq!(app.subscriptions.len(), 1);
    assert_eq!(app.subscriptions[0].name, "le guin");
    assert_eq!(app.subscription_tokens.len(), 1);
    assert_eq!(app.received_requests.len(), 1);
}

#[test]
fn subscribe_returns_500_if_the_token_cannot_be_stored() {
    let mut app = spawn_app();
    app.token_table_is_down = true;

    assert_eq!(app.post_subscription("name=le%20guin&email=ursula_le_guin%40gmail.com".into()), 500);

    // The subscriber stays pending, without a token; no email went out.
    assert_eq!(app.subscriptions.len(), 1);
    assert_eq!(app.subscriptions[0].status, "pending_confirmation");
    assert!(app.subscription_tokens.is_empty());
    assert!(app.received_requests.is_empty());
}

#[test]
fn subscribe_returns_500_if_the_mail_server_returns_500() {
    let mut app = spawn_app();
    app.email_server_status = 500;

    assert_eq!(app.post_subscription("name=le%20guin&email=ursula_le_guin%40gmail.com".into()), 500);

    // The subscriber stays pending with a token that confirms.
    assert_eq!(app.subscriptions.len(), 1);
    assert_eq!(app.subscriptions[0].status, "pending_confirmation");
    assert_eq!(app.subscription_tokens.len(), 1);
    assert_eq!(app.received_requests.len(), 1);
    let confirmation_links = app.get_confirmation_links(&app.received_requests[0]);
    assert_eq!(app.get(confirmation_links.html), 200);
    assert_eq!(app.subscriptions[0].status, "confirmed");
}

#[test]
fn every_subscriber_gets_a_token_of_its_own() {
    let mut app = spawn_app();
    assert_eq!(app.post_subscription("name=le%20guin&email=ursula_le_guin%40gmail.com".into()), 200);
    assert_eq!(app.post_subscription("name=atwood&email=margaret%40example.com".into()), 200);

    assert_eq!(app.subscription_tokens.len(), 2);
    assert_ne!(app.subscription_tokens[0].0, app.subscription_tokens[1].0);
    let second = app.get_confirmation_links(&app.received_requests[1]);
    assert_eq!(app.get(second.html), 200);
    assert_eq!(app.subscriptions[0].status, "pending_confirmation");
    assert_eq!(app.subscriptions[1].status, "confirmed");
}
