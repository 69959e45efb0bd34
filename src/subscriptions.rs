use vstd::prelude::*;

use crate::new_subscriber::{form_error, NewSubscriber};
use crate::subscriber_email::valid_email;
use crate::subscriber_name::valid_name;

verus! {

/// The raw fields of a subscription form, as submitted.
pub struct FormData {
    pub email: String,
    pub name: String,
}

/// The status every new subscription record starts in.
pub open spec fn pending_confirmation() -> Seq<char> {
    "pending_confirmation"@
}

/// A row of the subscriptions table.
pub struct SubscriptionRecord {
    /// A version 4 UUID, as a big-endian 128-bit integer.
    pub id: u128,
    pub email: String,
    pub name: String,
    /// Microseconds since the Unix epoch, UTC.
    pub subscribed_at: i64,
    pub status: String,
}

/// What a subscription record holds, as plain values.
pub struct RecordView {
    pub id: u128,
    pub email: Seq<char>,
    pub name: Seq<char>,
    pub subscribed_at: i64,
    pub status: Seq<char>,
}

impl View for SubscriptionRecord {
    type V = RecordView;

    open spec fn view(&self) -> RecordView {
        RecordView {
            id: self.id,
            email: self.email@,
            name: self.name@,
            subscribed_at: self.subscribed_at,
            status: self.status@,
        }
    }
}

/// The record created for a subscriber with this email and name, under
/// identifier `id`, at time `at`.
pub open spec fn new_record(email: Seq<char>, name: Seq<char>, id: u128, at: i64) -> RecordView {
    RecordView { id, email, name, subscribed_at: at, status: pending_confirmation() }
}

/// `id` has the version (4, random) and variant (RFC 4122) bits of a random UUID.
pub open spec fn is_random_uuid(id: u128) -> bool {
    &&& (id >> 76u128) & 0xfu128 == 4
    &&& (id >> 62u128) & 0x3u128 == 2
}

/// Relies on uuid's `Uuid::new_v4`, read back with `Uuid::as_u128`: random
/// bits with the version and variant bits of a random UUID set.
#[verifier::external_body]
fn new_subscription_id() -> (r: u128)
    ensures
        is_random_uuid(r),
{
    uuid::Uuid::new_v4().as_u128()
}

/// Relies on chrono's `Utc::now`, read with `timestamp_micros`: the current
/// time in microseconds since the Unix epoch.
#[verifier::external_body]
fn now_micros() -> (r: i64) {
    chrono::Utc::now().timestamp_micros()
}

/// The record to insert for `subscriber`, with the identifier and timestamp
/// drawn for it.
pub fn new_subscription_record(subscriber: &NewSubscriber, id: u128, subscribed_at: i64) -> (r:
    SubscriptionRecord)
    ensures
        r@ == new_record(subscriber.email@, subscriber.name@, id, subscribed_at),
{
    let email = String::from_str(subscriber.email.as_ref());
    let name = String::from_str(subscriber.name.as_ref());
    SubscriptionRecord {
        id,
        email,
        name,
        subscribed_at,
        status: String::from_str("pending_confirmation"),
    }
}

/// The same valid form, submitted twice, yields two records: both pending
/// confirmation with the submitted email and name, and distinct, since each
/// carries the identifier drawn for its own submission. Nothing deduplicates.
pub proof fn lemma_resubmission_creates_two_records(
    email: Seq<char>,
    name: Seq<char>,
    first_id: u128,
    first_at: i64,
    second_id: u128,
    second_at: i64,
)
    requires
        valid_name(name),
        valid_email(email),
        first_id != second_id,
    ensures
        ({
            let first = new_record(email, name, first_id, first_at);
            let second = new_record(email, name, second_id, second_at);
            &&& first != second
            &&& first.id != second.id
            &&& first.status == pending_confirmation() && second.status == pending_confirmation()
            &&& first.email == email && second.email == email
            &&& first.name == name && second.name == name
        }),
{
}

/// The fixed link a new subscriber follows to confirm.
pub open spec fn confirmation_link() -> Seq<char> {
    "https://there-is-no-such-domain.com/subscriptions/confirm"@
}

pub open spec fn confirmation_subject() -> Seq<char> {
    "Welcome!"@
}

pub open spec fn confirmation_html() -> Seq<char> {
    "Welcome to our newsletter!<br />Click <a href=\""@ + confirmation_link()
        + "\">here</a> to confirm your subscription."@
}

pub open spec fn confirmation_text() -> Seq<char> {
    "Welcome to our newsletter!\nVisit "@ + confirmation_link() + " to confirm your subscription."@
}

/// An email to hand to the email transport.
pub struct ConfirmationEmail {
    pub recipient: String,
    pub subject: String,
    pub html_body: String,
    pub text_body: String,
}

/// The confirmation email for `subscriber`: sent to its address, subject
/// "Welcome!", with the confirmation link in an HTML and a plain-text body.
pub fn confirmation_email(subscriber: &NewSubscriber) -> (r: ConfirmationEmail)
    ensures
        r.recipient@ == subscriber.email@,
        r.subject@ == confirmation_subject(),
        r.html_body@ == confirmation_html(),
        r.text_body@ == confirmation_text(),
{
    let link = "https://there-is-no-such-domain.com/subscriptions/confirm";
    let html_body = String::from_str("Welcome to our newsletter!<br />Click <a href=\"").concat(
        link,
    ).concat("\">here</a> to confirm your subscription.");
    let text_body = String::from_str("Welcome to our newsletter!\nVisit ").concat(link).concat(
        " to confirm your subscription.",
    );
    ConfirmationEmail {
        recipient: String::from_str(subscriber.email.as_ref()),
        subject: String::from_str("Welcome!"),
        html_body,
        text_body,
    }
}

/// How a subscription request ends.
pub enum Response {
    /// Stored and notified.
    Accepted,
    /// The form did not validate; `message` says why.
    RejectedInput { message: String },
    /// The record could not be stored.
    PersistenceFailed,
    /// The record was stored, but the confirmation email was not sent.
    NotificationFailed,
}

pub open spec fn status_code_of(r: &Response) -> u16 {
    match r {
        Response::Accepted => 200,
        Response::RejectedInput { .. } => 400,
        Response::PersistenceFailed => 500,
        Response::NotificationFailed => 500,
    }
}

impl Response {
    /// The HTTP status of the response.
    pub fn status_code(&self) -> (r: u16)
        ensures
            r == status_code_of(self),
    {
        match self {
            Response::Accepted => 200,
            Response::RejectedInput { .. } => 400,
            Response::PersistenceFailed => 500,
            Response::NotificationFailed => 500,
        }
    }

    /// The message of the failure payload, or `None` for a success, whose
    /// body is empty.
    pub fn failure_message(&self) -> (r: Option<String>)
        ensures
            self is Accepted <==> r is None,
            self matches Response::RejectedInput { message } ==> (r matches Some(m) && m@
                == message@),
            self is PersistenceFailed ==> (r matches Some(m) && m@
                == "Failed to insert subscriber"@),
            self is NotificationFailed ==> (r matches Some(m) && m@
                == "Unable to send confirmation email"@),
    {
        match self {
            Response::Accepted => None,
            Response::RejectedInput { message } => Some(message.clone()),
            Response::PersistenceFailed => Some(String::from_str("Failed to insert subscriber")),
            Response::NotificationFailed => Some(
                String::from_str("Unable to send confirmation email"),
            ),
        }
    }
}

/// The outcome of the action last asked for.
pub enum Event {
    Succeeded,
    Failed,
}

/// What the caller is to do next.
pub enum Action {
    /// Store this record, then report whether that succeeded.
    Insert(SubscriptionRecord),
    /// Send this email, then report whether that succeeded.
    SendEmail(ConfirmationEmail),
    /// Answer the request; the workflow is over.
    Respond(Response),
}

/// Where a subscription request stands.
pub enum SubscriptionFlow {
    /// Waiting for the record of `subscriber` to be stored.
    AwaitingInsert { subscriber: NewSubscriber },
    /// Stored; waiting for the confirmation email to be sent.
    AwaitingEmail,
    /// A response has been produced.
    Finished,
}

impl SubscriptionFlow {
    /// Starts handling a submitted form, with the identifier and timestamp
    /// that its record gets if the form is valid.
    pub fn start(form: FormData, id: u128, subscribed_at: i64) -> (r: (SubscriptionFlow, Action))
        ensures
            valid_name(form.name@) && valid_email(form.email@) ==> {
                &&& r.0 matches SubscriptionFlow::AwaitingInsert { subscriber } && subscriber.name@
                    == form.name@ && subscriber.email@ == form.email@
                &&& r.1 matches Action::Insert(rec) && rec@ == new_record(
                    form.email@,
                    form.name@,
                    id,
                    subscribed_at,
                )
            },
            !(valid_name(form.name@) && valid_email(form.email@)) ==> {
                &&& r.0 is Finished
                &&& r.1 matches Action::Respond(Response::RejectedInput { message }) && message@
                    == form_error(form.name@, form.email@)
            },
    {
        match NewSubscriber::parse(form) {
            Ok(subscriber) => {
                let record = new_subscription_record(&subscriber, id, subscribed_at);
                (SubscriptionFlow::AwaitingInsert { subscriber }, Action::Insert(record))
            },
            Err(message) => (
                SubscriptionFlow::Finished,
                Action::Respond(Response::RejectedInput { message }),
            ),
        }
    }

    /// Starts handling a submitted form, drawing a fresh random identifier
    /// and the current time for its record.
    pub fn begin(form: FormData) -> (r: (SubscriptionFlow, Action))
        ensures
            valid_name(form.name@) && valid_email(form.email@) ==> {
                &&& r.0 matches SubscriptionFlow::AwaitingInsert { subscriber } && subscriber.name@
                    == form.name@ && subscriber.email@ == form.email@
                &&& r.1 matches Action::Insert(rec) && is_random_uuid(rec.id) && rec@ == new_record(
                    form.email@,
                    form.name@,
                    rec.id,
                    rec.subscribed_at,
                )
            },
            !(valid_name(form.name@) && valid_email(form.email@)) ==> {
                &&& r.0 is Finished
                &&& r.1 matches Action::Respond(Response::RejectedInput { message }) && message@
                    == form_error(form.name@, form.email@)
            },
    {
        let id = new_subscription_id();
        let subscribed_at = now_micros();
        Self::start(form, id, subscribed_at)
    }

    /// Moves on once the pending action has succeeded or failed. A failed
    /// insert ends the request with no email; a failed email leaves the
    /// stored record as it is.
    pub fn advance(self, event: Event) -> (r: (SubscriptionFlow, Action))
        requires
            !(self is Finished),
        ensures
            self matches SubscriptionFlow::AwaitingInsert { subscriber } ==> match event {
                Event::Succeeded => r.0 is AwaitingEmail && (r.1 matches Action::SendEmail(m)
                    && m.recipient@ == subscriber.email@ && m.subject@ == confirmation_subject()
                    && m.html_body@ == confirmation_html() && m.text_body@ == confirmation_text()),
                Event::Failed => r.0 is Finished && (r.1 matches Action::Respond(
                    Response::PersistenceFailed,
                )),
            },
            self is AwaitingEmail ==> r.0 is Finished && (match event {
                Event::Succeeded => r.1 matches Action::Respond(Response::Accepted),
                Event::Failed => r.1 matches Action::Respond(Response::NotificationFailed),
            }),
    {
        match self {
            SubscriptionFlow::AwaitingInsert { subscriber } => match event {
                Event::Succeeded => {
                    let email = confirmation_email(&subscriber);
                    (SubscriptionFlow::AwaitingEmail, Action::SendEmail(email))
                },
                Event::Failed => (
                    SubscriptionFlow::Finished,
                    Action::Respond(Response::PersistenceFailed),
                ),
            },
            SubscriptionFlow::AwaitingEmail => match event {
                Event::Succeeded => (SubscriptionFlow::Finished, Action::Respond(Response::Accepted)),
                Event::Failed => (
                    SubscriptionFlow::Finished,
                    Action::Respond(Response::NotificationFailed),
                ),
            },
            SubscriptionFlow::Finished => (
                SubscriptionFlow::Finished,
                Action::Respond(Response::Accepted),
            ),
        }
    }
}

} // verus!
