use vstd::prelude::*;

use crate::subscriber_email::{invalid_email_message, valid_email, SubscriberEmail};
use crate::subscriber_name::{invalid_name_message, valid_name, SubscriberName};
use crate::subscriptions::FormData;

verus! {

/// A subscriber whose name and email both passed validation.
pub struct NewSubscriber {
    pub email: SubscriberEmail,
    pub name: SubscriberName,
}

/// The error reported for a form whose fields do not both validate: the
/// name is checked first, and its failure is the one reported.
pub open spec fn form_error(name: Seq<char>, email: Seq<char>) -> Seq<char> {
    if !valid_name(name) {
        invalid_name_message(name)
    } else {
        invalid_email_message(email)
    }
}

impl NewSubscriber {
    /// Builds a subscriber from raw form fields, validating the name, then
    /// the email; the first failure is returned.
    pub fn parse(form: FormData) -> (r: Result<NewSubscriber, String>)
        ensures
            r is Ok <==> valid_name(form.name@) && valid_email(form.email@),
            r matches Ok(s) ==> s.name@ == form.name@ && s.email@ == form.email@,
            r matches Err(e) ==> e@ == form_error(form.name@, form.email@),
    {
        let FormData { email, name } = form;
        let name = match SubscriberName::parse(name) {
            Ok(n) => n,
            Err(e) => return Err(e),
        };
        let email = match SubscriberEmail::parse(email) {
            Ok(e) => e,
            Err(e) => return Err(e),
        };
        Ok(NewSubscriber { name, email })
    }
}

} // verus!
