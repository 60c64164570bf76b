//! The verification mail: the request sent to the mail service.
use vstd::prelude::*;
use crate::ids::{uuid_text, uuid_to_text};
use crate::text::push_str;

verus! {

/// Credentials of the mail service account.
pub struct BrevoApi {
    api_key: String,
    email: String,
}

/// A mail to send: where to post it, its `Authorization` header, the
/// recipient, the subject, the sender and the content with its type.
#[derive(Debug, Clone, PartialEq, Eq)]
pub struct MailRequest {
    pub url: String,
    pub authorization: String,
    pub to: String,
    pub subject: String,
    pub from: String,
    pub content_type: String,
    pub content: String,
}

/// The body of a verification mail for the code with text `code`.
pub open spec fn verification_content(code: Seq<char>) -> Seq<char> {
    "\n        Click the link below to verify your email:\n\n        \n        http://localhost:8080/verify?code="@
        + code + "\n        \n        "@
}

impl BrevoApi {
    /// The account's API key.
    pub closed spec fn key(&self) -> Seq<char> {
        self.api_key@
    }

    /// The account's sender address.
    pub closed spec fn sender(&self) -> Seq<char> {
        self.email@
    }

    pub fn new(api_key: String, email: String) -> (r: Self)
        ensures
            r.key() == api_key@,
            r.sender() == email@,
    {
        Self { api_key, email }
    }

    /// The verification mail for `recipient` with code `code`: posted to
    /// the mail service with the account's key as bearer token, sent from
    /// the account's address, with subject "Welcome to OurService" and an
    /// HTML body holding the verification link.
    pub fn verification_email(&self, recipient: String, code: [u8; 16]) -> (r: MailRequest)
        ensures
            r.url@ == "https://api.sendgrid.com/v3/mail/send"@,
            r.authorization@ == "Bearer "@ + self.key(),
            r.to@ == recipient@,
            r.subject@ == "Welcome to OurService"@,
            r.from@ == self.sender(),
            r.content_type@ == "text/html"@,
            r.content@ == verification_content(uuid_text(code@)),
    {
        let mut authorization = String::new();
        push_str(&mut authorization, "Bearer ");
        push_str(&mut authorization, self.api_key.as_str());
        let mut content = String::new();
        push_str(
            &mut content,
            "\n        Click the link below to verify your email:\n\n        \n        http://localhost:8080/verify?code=",
        );
        let code_text = uuid_to_text(code);
        push_str(&mut content, code_text.as_str());
        push_str(&mut content, "\n        \n        ");
        MailRequest {
            url: "https://api.sendgrid.com/v3/mail/send".to_string(),
            authorization,
            to: recipient,
            subject: "Welcome to OurService".to_string(),
            from: self.email.clone(),
            content_type: "text/html".to_string(),
            content,
        }
    }
}

} // verus!
