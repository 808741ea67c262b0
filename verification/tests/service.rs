use aurora_alert::api::{
    ApiResponse, Clouds, JsonResponse, UserRegisterBody, Weather, WeatherBody, WeatherDetail,
};
use aurora_alert::config::Environment;
use aurora_alert::email::{Email, RenderableEmailBuilder, RenderedEmailBuilder, Template};
use aurora_alert::error::{ApiError, Error};
use aurora_alert::level::AlertLevel;
use aurora_alert::sanitise::{SanitisedLikeString, SanitisedString};

#[test]
fn search_text_loses_leading_whitespace_and_wildcards() {
    assert_eq!(SanitisedString::new("  Fort%_ Will_iam%  ").as_str(), "Fort William  ");
    assert_eq!(SanitisedString::new("\t\n\u{a0}\u{2003} x").as_str(), "x");
    assert_eq!(SanitisedString::new("%_%").as_str(), "");
    assert_eq!(SanitisedString::new(" % a").as_str(), " a");
    assert_eq!(SanitisedString::new("").as_str(), "");
    assert_eq!(SanitisedString::new("Inverness").as_str(), "Inverness");
    assert!(SanitisedString::new("   ").is_empty());
    assert!(SanitisedString::new(" %").is_empty());
    assert!(!SanitisedString::new(" a").is_empty());
    for text in ["  a%b_c ", "%", "\u{feff} x", "\u{200b}y", "plain"] {
        let expected = text.trim_start().replace('%', "").replace('_', "");
        assert_eq!(SanitisedString::new(text).as_str(), expected);
    }
}

#[test]
fn leading_white_space_is_the_unicode_set() {
    let listed = |c: char| {
        let code = c as u32;
        (0x09..=0x0d).contains(&code)
            || [0x20, 0x85, 0xa0, 0x1680, 0x2028, 0x2029, 0x202f, 0x205f, 0x3000].contains(&code)
            || (0x2000..=0x200a).contains(&code)
    };
    for code in 0..=0x10ffffu32 {
        if let Some(c) = char::from_u32(code) {
            assert_eq!(c.is_whitespace(), listed(c), "{:x}", code);
        }
    }
    for c in ['\t', '\u{b}', '\u{85}', '\u{1680}', '\u{2007}', '\u{3000}', '\u{200b}', 'a', '\u{feff}'] {
        let kept = if listed(c) { "x".to_string() } else { format!("{}x", c) };
        assert_eq!(SanitisedString::new(&format!("{}x", c)).as_str(), kept);
    }
}

#[test]
fn like_text_loses_wildcards_only() {
    assert_eq!(SanitisedLikeString::new("  Fort%_ Will_iam%".to_string()).as_str(), "  Fort William");
    assert!(SanitisedLikeString::new("%__%".to_string()).is_empty());
    assert!(SanitisedLikeString::new(String::new()).is_empty());
    assert!(!SanitisedLikeString::new(" ".to_string()).is_empty());
}

#[test]
fn environment_is_read_in_any_case() {
    assert_eq!(Environment::try_from("dev".to_string()), Ok(Environment::Dev));
    assert_eq!(Environment::try_from("DEV".to_string()), Ok(Environment::Dev));
    assert_eq!(Environment::try_from("Production".to_string()), Ok(Environment::Production));
    assert_eq!(
        Environment::try_from("Staging".to_string()),
        Err("staging is not a supported environment. Use either `dev` or `production`.".to_string())
    );
    assert_eq!(
        Environment::from_lowercase("DEV"),
        Err("DEV is not a supported environment. Use either `dev` or `production`.".to_string())
    );
    assert_eq!(Environment::Dev.as_str(), "dev");
    assert_eq!(Environment::Production.as_str(), "production");
}

#[test]
fn errors_have_status_codes_and_generic_texts() {
    assert_eq!(Error::NotFound.status_code(), 404);
    assert_eq!(Error::NotFound.to_generic_string(), "request path not found");
    assert_eq!(Error::NotFound.to_string(), "request path not found");
    let cases = [
        (Error::Database("no pool".to_string()), "an error occurred with the database", "database error: no pool"),
        (Error::Email("no relay".to_string()), "an error occurred with the email system", "email error: no relay"),
        (
            Error::Template("no file".to_string()),
            "an error occurred with the template system",
            "template error: no file",
        ),
        (Error::Anyhow("boom".to_string()), "an internal server error occurred", "internal server error: boom"),
    ];
    for (error, generic, full) in cases {
        assert_eq!(error.status_code(), 500);
        assert_eq!(error.to_generic_string(), generic);
        assert_eq!(error.to_string(), full);
    }
}

#[test]
fn api_errors_report_their_context() {
    let cases = [
        (ApiError::Database { context: "a".to_string() }, "Database Error", "a"),
        (ApiError::Template { context: "b".to_string() }, "Template Error", "b"),
        (ApiError::Email { context: "c".to_string() }, "Email Error", "c"),
        (ApiError::Api { context: "d".to_string() }, "Api Error", "d"),
    ];
    for (error, kind, context) in cases {
        assert_eq!(error.get_context(), Some(context.to_string()));
        assert_eq!(error.to_string(), kind);
        assert_eq!(error.status_code(), 500);
        let body = error.error_response();
        assert_eq!(body.error, kind);
        assert_eq!(body.context, context);
    }
}

#[test]
fn responses() {
    assert!(ApiResponse::success().is_success());
    assert!(ApiResponse::failure().is_success());
    assert_eq!(JsonResponse::new("done").payload, "done");
    assert!(matches!(ApiResponse::for_user(Some(7)), Ok(response) if response.is_success()));
    assert!(matches!(ApiResponse::for_user(None), Err(Error::NotFound)));
}

#[test]
fn registration_needs_an_address_and_a_place() {
    let body = |email: &str, locations: Vec<i64>| UserRegisterBody {
        email: email.to_string(),
        alert_threshold: "yellow".to_string(),
        locations,
    };
    assert!(body("a@example.org", vec![1]).is_valid());
    assert!(!body("", vec![1]).is_valid());
    assert!(!body("a@example.org", Vec::new()).is_valid());
    assert!(!body("", Vec::new()).is_valid());
}

#[test]
fn weather_is_the_primary_condition() {
    let weather = Weather::from(WeatherBody {
        clouds: Clouds { all: 75 },
        weather: vec![
            WeatherDetail { description: "broken clouds".to_string() },
            WeatherDetail { description: "mist".to_string() },
        ],
        id: 2649169,
    });
    assert_eq!(weather.location_id, 2649169);
    assert_eq!(weather.description, "broken clouds");
    assert_eq!(weather.cloud_cover, 75);
}

#[test]
fn templates_have_file_names() {
    let names: Vec<String> = Template::all_variants().iter().map(|t| t.to_string()).collect();
    assert_eq!(names, vec!["base.html", "alert.html", "verify.html", "already_registered.html"]);
    assert_eq!(Template::all_variants()[0], Template::Base);
}

fn engine() -> tera::Tera {
    let mut engine = tera::Tera::default();
    engine
        .add_raw_templates(vec![
            ("base.html", "<html>{% block body %}{% endblock body %}</html>"),
            ("alert.html", "{% extends \"base.html\" %}{% block body %}{{ email }}: {{ alert_level }}{% endblock body %}"),
            ("verify.html", "Verify {{ email }}"),
        ])
        .unwrap();
    engine
}

fn context(email: &str) -> tera::Context {
    let mut context = tera::Context::new();
    context.insert("email", email);
    context
}

fn outcome_of(builder: &RenderableEmailBuilder) -> Result<String, String> {
    engine().render(&builder.template_of().to_string(), builder.context_of()).map_err(|e| e.to_string())
}

#[test]
fn alert_mail_is_rendered() {
    let builder =
        Email::new_alert("a@example.org").add_context(context("a@example.org"), &AlertLevel::Amber);
    assert_eq!(builder.template_of(), Template::Alert);
    assert_eq!(builder.context_of().get("alert_level"), Some(&tera::Value::String("amber".to_string())));
    assert_eq!(builder.context_of().get("email"), Some(&tera::Value::String("a@example.org".to_string())));
    let outcome = outcome_of(&builder);
    let rendered = builder.render_body(outcome).unwrap();
    assert_eq!(rendered.to_address, "a@example.org");
    assert_eq!(rendered.subject, "Aurora alert level is now Amber");
    assert_eq!(rendered.body, "<html>a@example.org: amber</html>");
}

#[test]
fn alert_level_replaces_what_the_context_held_under_its_key() {
    let mut held = context("a@example.org");
    held.insert("alert_level", &7);
    held.insert("places", &vec![1, 2]);
    let builder = Email::new_alert("a@example.org").add_context(held.clone(), &AlertLevel::Red);
    let mut expected = held;
    expected.insert("alert_level", "red");
    assert_eq!(builder.context_of(), &expected);
}

#[test]
fn verification_mail_is_rendered() {
    let builder = Email::new_verify_user("b@example.org").add_context(context("b@example.org"));
    assert_eq!(builder.template_of(), Template::VerifyUser);
    assert_eq!(builder.context_of(), &context("b@example.org"));
    let outcome = outcome_of(&builder);
    let rendered = builder.render_body(outcome).unwrap();
    assert_eq!(rendered.to_address, "b@example.org");
    assert_eq!(rendered.subject, "Welcome to Aurora Alert");
    assert_eq!(rendered.body, "Verify b@example.org");
}

#[test]
fn missing_template_is_a_template_error() {
    let builder =
        Email::new_user_already_registered("c@example.org").add_context(context("c@example.org"));
    assert_eq!(builder.template_of(), Template::UserAlreadyRegistered);
    assert_eq!(builder.context_of(), &context("c@example.org"));
    let outcome = outcome_of(&builder);
    match builder.render_body(outcome) {
        Err(Error::Template(message)) => assert!(message.contains("already_registered.html")),
        Err(other) => panic!("another error: {}", other.to_string()),
        Ok(_) => panic!("rendered a template that does not exist"),
    }
}

#[test]
fn failed_rendering_is_a_template_error_with_the_engines_message() {
    let builder = Email::new_verify_user("d@example.org").add_context(context("d@example.org"));
    match builder.render_body(Err("no such variable".to_string())) {
        Err(Error::Template(message)) => assert_eq!(message, "no such variable"),
        _ => panic!("a failed rendering must be a template error"),
    }
    let builder = Email::new_verify_user("d@example.org").add_context(context("d@example.org"));
    let rendered = builder.render_body(Ok("<p>hello</p>".to_string())).unwrap();
    assert_eq!(rendered.to_address, "d@example.org");
    assert_eq!(rendered.subject, "Welcome to Aurora Alert");
    assert_eq!(rendered.body, "<p>hello</p>");
}

#[test]
fn rendering_outcome_is_mapped() {
    assert!(matches!(Template::rendered(Ok("text".to_string())), Ok(text) if text == "text"));
    assert!(matches!(
        Template::rendered(Err("no such template".to_string())),
        Err(Error::Template(message)) if message == "no such template"
    ));
    let mail = RenderedEmailBuilder::new("to".to_string(), "subject".to_string(), "body".to_string());
    assert_eq!((mail.to_address, mail.subject, mail.body), ("to".to_string(), "subject".to_string(), "body".to_string()));
}
