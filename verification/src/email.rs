use crate::error::Error;
use crate::level::AlertLevel;
use vstd::prelude::*;
use vstd::string::StringExecFns;

verus! {

/// `tera::Context`, what a template is rendered with: values by key.
#[verifier::external_type_specification]
#[verifier::external_body]
pub struct ExContext(tera::Context);

/// The entries of a context whose value is a text, by key.
pub uninterp spec fn context_texts(context: tera::Context) -> Map<Seq<char>, Seq<char>>;

/// The entries of a context whose value is no text, by key, each value
/// written as JSON.
pub uninterp spec fn context_others(context: tera::Context) -> Map<Seq<char>, Seq<char>>;

/// Calls `tera::Context::insert` with a text value. Claims what its source
/// shows: the text is held under the key, in place of whatever value the key
/// had, and every other entry stays.
#[verifier::external_body]
pub(crate) fn context_insert(context: &mut tera::Context, key: &str, value: &str)
    ensures
        context_texts(*final(context)) == context_texts(*old(context)).insert(key@, value@),
        context_others(*final(context)) == context_others(*old(context)).remove(key@),
{
    context.insert(key, value);
}

/// The templates of the service's mails.
#[derive(Clone, Copy, Debug, PartialEq, Eq, Structural)]
pub enum Template {
    /// The frame that the other templates extend.
    Base,
    Alert,
    VerifyUser,
    UserAlreadyRegistered,
}

impl Template {
    /// The name of the template's file.
    pub open spec fn file_name(self) -> Seq<char> {
        match self {
            Template::Base => "base.html"@,
            Template::Alert => "alert.html"@,
            Template::VerifyUser => "verify.html"@,
            Template::UserAlreadyRegistered => "already_registered.html"@,
        }
    }

    /// The name of the template's file.
    pub fn to_string(&self) -> (name: String)
        ensures
            name@ == self.file_name(),
    {
        match self {
            Template::Base => "base.html".to_owned(),
            Template::Alert => "alert.html".to_owned(),
            Template::VerifyUser => "verify.html".to_owned(),
            Template::UserAlreadyRegistered => "already_registered.html".to_owned(),
        }
    }

    /// Every template, a parent before the templates that extend it.
    pub fn all_variants() -> (all: [Template; 4])
        ensures
            all@ == seq![
                Template::Base,
                Template::Alert,
                Template::VerifyUser,
                Template::UserAlreadyRegistered,
            ],
    {
        [Template::Base, Template::Alert, Template::VerifyUser, Template::UserAlreadyRegistered]
    }

    /// What a rendering of a template comes to, given what the engine made
    /// of it: the text, or a template error that carries the engine's
    /// message.
    pub fn rendered(outcome: Result<String, String>) -> (r: Result<String, Error>)
        ensures
            match outcome {
                Ok(text) => r == Ok::<String, Error>(text),
                Err(message) => r == Err::<String, Error>(Error::Template(message)),
            },
    {
        match outcome {
            Ok(text) => Ok(text),
            Err(message) => Err(Error::Template(message)),
        }
    }
}

/// The subject of an alert mail for `alert_level`.
pub open spec fn alert_subject(alert_level: AlertLevel) -> Seq<char> {
    "Aurora alert level is now "@ + alert_level.display_spec()
}

/// An alert mail in the making: addressed, without content yet.
pub struct AlertBuilder {
    template: Template,
    to_address: String,
}

impl AlertBuilder {
    /// The template that the mail is rendered with.
    pub closed spec fn template(&self) -> Template {
        self.template
    }

    /// The address that the mail goes to.
    pub closed spec fn to_address(&self) -> String {
        self.to_address
    }

    /// An alert mail to `to_address`.
    pub fn new(to_address: &str) -> (builder: AlertBuilder)
        ensures
            builder.template() == Template::Alert,
            builder.to_address()@ == to_address@,
    {
        AlertBuilder { template: Template::Alert, to_address: to_address.to_owned() }
    }

    /// Adds what the template shows: `context` holds the subscriber, and the
    /// name of the alert level is put in under `alert_level`.
    pub fn add_context(self, context: tera::Context, alert_level: &AlertLevel) -> (builder:
        RenderableEmailBuilder)
        ensures
            builder.template() == self.template(),
            builder.to_address() == self.to_address(),
            builder.subject()@ == alert_subject(*alert_level),
            context_texts(builder.context()) == context_texts(context).insert(
                "alert_level"@,
                alert_level.name_spec(),
            ),
            context_others(builder.context()) == context_others(context).remove("alert_level"@),
    {
        let mut context = context;
        context_insert(&mut context, "alert_level", alert_level.name());
        let shown = alert_level.to_string();
        RenderableEmailBuilder {
            template: self.template,
            to_address: self.to_address,
            subject: "Aurora alert level is now ".to_owned().concat(shown.as_str()),
            context,
        }
    }
}

/// A mail that asks a new subscriber to verify their address, in the making.
pub struct VerifyUserBuilder {
    template: Template,
    to_address: String,
    subject: String,
}

impl VerifyUserBuilder {
    /// The template that the mail is rendered with.
    pub closed spec fn template(&self) -> Template {
        self.template
    }

    /// The address that the mail goes to.
    pub closed spec fn to_address(&self) -> String {
        self.to_address
    }

    /// The subject of the mail.
    pub closed spec fn subject(&self) -> String {
        self.subject
    }

    /// A welcome mail to `to_address`.
    pub fn new(to_address: &str) -> (builder: VerifyUserBuilder)
        ensures
            builder.template() == Template::VerifyUser,
            builder.to_address()@ == to_address@,
            builder.subject()@ == "Welcome to Aurora Alert"@,
    {
        VerifyUserBuilder {
            template: Template::VerifyUser,
            to_address: to_address.to_owned(),
            subject: "Welcome to Aurora Alert".to_owned(),
        }
    }

    /// Adds what the template shows: `context` holds the subscriber.
    pub fn add_context(self, context: tera::Context) -> (builder: RenderableEmailBuilder)
        ensures
            builder.template() == self.template(),
            builder.to_address() == self.to_address(),
            builder.subject() == self.subject(),
            builder.context() == context,
    {
        RenderableEmailBuilder {
            template: self.template,
            to_address: self.to_address,
            subject: self.subject,
            context,
        }
    }
}

/// A mail to someone who registered an address that is registered already,
/// in the making.
pub struct UserAlreadyRegisteredBuilder {
    template: Template,
    to_address: String,
    subject: String,
}

impl UserAlreadyRegisteredBuilder {
    /// The template that the mail is rendered with.
    pub closed spec fn template(&self) -> Template {
        self.template
    }

    /// The address that the mail goes to.
    pub closed spec fn to_address(&self) -> String {
        self.to_address
    }

    /// The subject of the mail.
    pub closed spec fn subject(&self) -> String {
        self.subject
    }

    /// A mail to `to_address`, which is registered already.
    pub fn new(to_address: &str) -> (builder: UserAlreadyRegisteredBuilder)
        ensures
            builder.template() == Template::UserAlreadyRegistered,
            builder.to_address()@ == to_address@,
            builder.subject()@ == "Re-registering to Aurora Alert"@,
    {
        UserAlreadyRegisteredBuilder {
            template: Template::UserAlreadyRegistered,
            to_address: to_address.to_owned(),
            subject: "Re-registering to Aurora Alert".to_owned(),
        }
    }

    /// Adds what the template shows: `context` holds the subscriber.
    pub fn add_context(self, context: tera::Context) -> (builder: RenderableEmailBuilder)
        ensures
            builder.template() == self.template(),
            builder.to_address() == self.to_address(),
            builder.subject() == self.subject(),
            builder.context() == context,
    {
        RenderableEmailBuilder {
            template: self.template,
            to_address: self.to_address,
            subject: self.subject,
            context,
        }
    }
}

/// A mail with all that its template shows, not rendered yet.
pub struct RenderableEmailBuilder {
    template: Template,
    to_address: String,
    subject: String,
    context: tera::Context,
}

impl RenderableEmailBuilder {
    /// The template that the mail is rendered with.
    pub closed spec fn template(&self) -> Template {
        self.template
    }

    /// The address that the mail goes to.
    pub closed spec fn to_address(&self) -> String {
        self.to_address
    }

    /// The subject of the mail.
    pub closed spec fn subject(&self) -> String {
        self.subject
    }

    /// What the template is rendered with.
    pub closed spec fn context(&self) -> tera::Context {
        self.context
    }

    /// The template that the mail is rendered with.
    pub fn template_of(&self) -> (template: Template)
        ensures
            template == self.template(),
    {
        self.template
    }

    /// What the template is rendered with.
    pub fn context_of(&self) -> (context: &tera::Context)
        ensures
            *context == self.context(),
    {
        &self.context
    }

    /// The mail with its body, given what the engine made of the mail's
    /// template and context: a rendered body is taken as it is, with the
    /// mail's address and subject; a failure is a template error that carries
    /// the engine's message.
    pub fn render_body(self, outcome: Result<String, String>) -> (r: Result<
        RenderedEmailBuilder,
        Error,
    >)
        ensures
            match outcome {
                Ok(body) => r == Ok::<RenderedEmailBuilder, Error>(
                    (RenderedEmailBuilder {
                        to_address: self.to_address(),
                        subject: self.subject(),
                        body,
                    }),
                ),
                Err(message) => r == Err::<RenderedEmailBuilder, Error>(Error::Template(message)),
            },
    {
        match Template::rendered(outcome) {
            Ok(body) => Ok(RenderedEmailBuilder::new(self.to_address, self.subject, body)),
            Err(e) => Err(e),
        }
    }
}

/// A mail that is ready to be handed to the transport.
#[derive(Debug)]
pub struct RenderedEmailBuilder {
    pub to_address: String,
    pub subject: String,
    pub body: String,
}

impl RenderedEmailBuilder {
    /// A rendered mail of the given parts.
    pub fn new(to_address: String, subject: String, body: String) -> (rendered: RenderedEmailBuilder)
        ensures
            rendered.to_address == to_address,
            rendered.subject == subject,
            rendered.body == body,
    {
        RenderedEmailBuilder { to_address, subject, body }
    }
}

/// Entry point for constructing a mail which can be sent to the given
/// address.
pub struct Email;

impl Email {
    /// Start constructing a new mail for sending out an aurora alert.
    pub fn new_alert(to_address: &str) -> (builder: AlertBuilder)
        ensures
            builder.template() == Template::Alert,
            builder.to_address()@ == to_address@,
    {
        AlertBuilder::new(to_address)
    }

    /// Start constructing a mail to verify a new user's identity.
    pub fn new_verify_user(to_address: &str) -> (builder: VerifyUserBuilder)
        ensures
            builder.template() == Template::VerifyUser,
            builder.to_address()@ == to_address@,
            builder.subject()@ == "Welcome to Aurora Alert"@,
    {
        VerifyUserBuilder::new(to_address)
    }

    /// Start constructing a mail for a user who has tried to register an
    /// existing address.
    pub fn new_user_already_registered(to_address: &str) -> (builder: UserAlreadyRegisteredBuilder)
        ensures
            builder.template() == Template::UserAlreadyRegistered,
            builder.to_address()@ == to_address@,
            builder.subject()@ == "Re-registering to Aurora Alert"@,
    {
        UserAlreadyRegisteredBuilder::new(to_address)
    }
}

} // verus!
