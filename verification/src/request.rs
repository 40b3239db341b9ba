//! What to answer to a request: the decisions that stand around the
//! operations of the store.

use crate::config::Config;
use crate::content::ContentType;
use crate::error::PastyError;
use crate::pasty::Pasty;
use crate::pasty::PastyView;
use crate::text::joined;
use crate::text::same_text;
use url::Url;
use vstd::prelude::*;

verus! {

/// An answer to a request: a status code with a message for a program, with
/// text served as it is, or with the target of a redirect.
#[derive(Debug)]
pub enum Answer {
    Json { status: u16, message: String },
    Plaintext { status: u16, content: String },
    Redirect { status: u16, target: String },
}

/// An answer as a value of specifications.
pub enum AnswerView {
    Json { status: u16, message: Seq<char> },
    Plaintext { status: u16, content: Seq<char> },
    Redirect { status: u16, target: Seq<char> },
}

impl View for Answer {
    type V = AnswerView;

    open spec fn view(&self) -> AnswerView {
        match *self {
            Answer::Json { status, message } => AnswerView::Json { status, message: message@ },
            Answer::Plaintext { status, content } => AnswerView::Plaintext {
                status,
                content: content@,
            },
            Answer::Redirect { status, target } => AnswerView::Redirect { status, target: target@ },
        }
    }
}

/// Why a request is turned away before the store is asked.
#[derive(Debug, Clone, Copy, PartialEq, Eq, Structural)]
pub enum Rejection {
    /// The deployment has a password and the request does not carry it.
    Unauthorized,
    /// The identifier is empty.
    MissingParameter,
    /// The kind asked for is none that the store knows.
    UnsupportedType,
    /// A redirect was asked for and its target is no URL.
    InvalidUrl,
}

impl Rejection {
    /// The status code of the rejection.
    pub open spec fn status(self) -> u16 {
        match self {
            Rejection::Unauthorized => 401,
            _ => 400,
        }
    }

    /// The message of the rejection.
    pub open spec fn wording(self) -> Seq<char> {
        match self {
            Rejection::Unauthorized => "Access password is incorrect."@,
            Rejection::MissingParameter => "Missing parameter"@,
            Rejection::UnsupportedType => "Unsupported short link type"@,
            Rejection::InvalidUrl => "The given link is not a valid URL"@,
        }
    }

    /// The answer that tells of the rejection.
    pub open spec fn answer_view(self) -> AnswerView {
        AnswerView::Json { status: self.status(), message: self.wording() }
    }

    /// Builds the answer that tells of the rejection.
    pub fn answer(self) -> (answer: Answer)
        ensures
            answer@ == self.answer_view(),
    {
        match self {
            Rejection::Unauthorized => Answer::Json {
                status: 401,
                message: "Access password is incorrect.".to_owned(),
            },
            Rejection::MissingParameter => Answer::Json {
                status: 400,
                message: "Missing parameter".to_owned(),
            },
            Rejection::UnsupportedType => Answer::Json {
                status: 400,
                message: "Unsupported short link type".to_owned(),
            },
            Rejection::InvalidUrl => Answer::Json {
                status: 400,
                message: "The given link is not a valid URL".to_owned(),
            },
        }
    }
}

/// Whether the text parses as a URL, as the `url` crate judges it.
pub uninterp spec fn is_url(content: Seq<char>) -> bool;

/// `url::Url::parse`, asked only whether the text parses: the answer depends
/// on the text alone.
#[verifier::external_body]
fn parses_as_url(content: &str) -> (valid: bool)
    ensures
        valid == is_url(content@),
{
    Url::parse(content).is_ok()
}

/// Whether a request that carries `access` passes a deployment whose
/// password is `password`: an empty password admits everyone.
pub open spec fn access_granted(password: Seq<char>, access: Seq<char>) -> bool {
    password.len() == 0 || access == password
}

/// The kind that the parameter of a request asks for: `link` for a
/// redirect, `plain` or no parameter for text.
pub open spec fn kind_named(kind: Option<Seq<char>>) -> Option<ContentType> {
    match kind {
        None => Some(ContentType::Plaintext),
        Some(name) => if name == "link"@ {
            Some(ContentType::Redirect)
        } else if name == "plain"@ {
            Some(ContentType::Plaintext)
        } else {
            None
        },
    }
}

/// Whether a request to store `content` under `id` is let through to the
/// store, and as which kind. The password is looked at first, then the
/// identifier, then the kind, and last the target of a redirect.
pub open spec fn post_verdict(
    password: Seq<char>,
    access: Seq<char>,
    id: Seq<char>,
    kind: Option<Seq<char>>,
    content_is_url: bool,
) -> Result<ContentType, Rejection> {
    if !access_granted(password, access) {
        Err(Rejection::Unauthorized)
    } else if id.len() == 0 {
        Err(Rejection::MissingParameter)
    } else {
        match kind_named(kind) {
            None => Err(Rejection::UnsupportedType),
            Some(ContentType::Redirect) => if content_is_url {
                Ok(ContentType::Redirect)
            } else {
                Err(Rejection::InvalidUrl)
            },
            Some(ContentType::Plaintext) => Ok(ContentType::Plaintext),
        }
    }
}

/// The answer to a failure of the store, where the store words it.
pub open spec fn refusal_view(error: PastyError) -> Option<AnswerView> {
    match error {
        PastyError::NotFound => Some(
            AnswerView::Json { status: 404, message: "The short link does not exist."@ },
        ),
        PastyError::TokenRequired => Some(
            AnswerView::Json {
                status: 400,
                message: "An access token is required for this action."@,
            },
        ),
        PastyError::TokenMismatch => Some(
            AnswerView::Json { status: 400, message: "The access token is incorrect."@ },
        ),
        PastyError::StorageFailure(_) => None,
    }
}

/// Whether an answer tells of a fault of the storage: status 500, and a
/// message that begins with the words for it.
pub open spec fn is_fault_answer(answer: AnswerView) -> bool {
    let head = "Internal server error: "@;
    answer matches AnswerView::Json { status, message } && status == 500 && message.len()
        >= head.len() && message.subrange(0, head.len() as int) == head
}

/// The answer to a creation or change of `id` that went through.
pub open spec fn updated_view(id: Seq<char>) -> AnswerView {
    AnswerView::Json { status: 200, message: "The short link has been updated: "@ + id }
}

/// The answer to a removal of `id` that went through.
pub open spec fn deleted_view(id: Seq<char>) -> AnswerView {
    AnswerView::Json { status: 200, message: "The short link has been deleted: "@ + id }
}

/// The answer that serves an entry: text as it is, a redirect as a redirect
/// to its target.
pub open spec fn served_view(pasty: PastyView) -> AnswerView {
    match pasty.content_type {
        ContentType::Plaintext => AnswerView::Plaintext { status: 200, content: pasty.content },
        ContentType::Redirect => AnswerView::Redirect { status: 302, target: pasty.content },
    }
}

/// The answer at the root: a redirect to the link of the deployment where
/// it has one, else its text.
pub open spec fn index_view(link: Seq<char>, text: Seq<char>) -> AnswerView {
    if link.len() != 0 {
        AnswerView::Redirect { status: 303, target: link }
    } else {
        AnswerView::Json { status: 200, message: text }
    }
}

/// Answers a request for the root.
pub fn get_index(config: &Config) -> (answer: Answer)
    ensures
        answer@ == index_view(config.index_link@, config.index_text@),
{
    if !config.index_link.as_str().is_empty() {
        Answer::Redirect { status: 303, target: config.index_link.clone() }
    } else {
        Answer::Json { status: 200, message: config.index_text.clone() }
    }
}

/// Answers a failure of the store: a missing entry with 404, a token that
/// is wanting or wrong with 400, a fault of the storage with 500 and its
/// wording.
pub fn handle_pasty_error(error: &PastyError) -> (answer: Answer)
    ensures
        match refusal_view(*error) {
            Some(refusal) => answer@ == refusal,
            None => is_fault_answer(answer@),
        },
{
    match error {
        PastyError::NotFound => Answer::Json {
            status: 404,
            message: "The short link does not exist.".to_owned(),
        },
        PastyError::TokenRequired => Answer::Json {
            status: 400,
            message: "An access token is required for this action.".to_owned(),
        },
        PastyError::TokenMismatch => Answer::Json {
            status: 400,
            message: "The access token is incorrect.".to_owned(),
        },
        PastyError::StorageFailure(_) => {
            let words = error.message();
            let message = joined("Internal server error: ", words.as_str());
            proof {
                let head = "Internal server error: "@;
                assert(message@.subrange(0, head.len() as int) =~= head);
            }
            Answer::Json { status: 500, message }
        },
    }
}

/// Checks the password of the deployment against what a request carries:
/// the answer that turns the request away, or none where it passes.
pub fn check_access(config: &Config, access: &str) -> (refusal: Option<Answer>)
    ensures
        match refusal {
            None => access_granted(config.access_password@, access@),
            Some(answer) => !access_granted(config.access_password@, access@) && answer@
                == Rejection::Unauthorized.answer_view(),
        },
{
    if !config.access_password.as_str().is_empty() && !same_text(
        access,
        config.access_password.as_str(),
    ) {
        Some(Rejection::Unauthorized.answer())
    } else {
        None
    }
}

/// Reads the kind that the parameter of a request asks for.
pub fn parse_kind(kind: Option<&str>) -> (parsed: Option<ContentType>)
    ensures
        parsed == kind_named(kind.deep_view()),
{
    match kind {
        None => Some(ContentType::Plaintext),
        Some(name) => {
            if same_text(name, "link") {
                Some(ContentType::Redirect)
            } else if same_text(name, "plain") {
                Some(ContentType::Plaintext)
            } else {
                None
            }
        },
    }
}

/// Decides whether a request to store content under `id` is let through,
/// given whether the content parses as a URL.
pub fn admit_post(
    config: &Config,
    access: &str,
    id: &str,
    kind: Option<&str>,
    content_is_url: bool,
) -> (verdict: Result<ContentType, Rejection>)
    ensures
        verdict == post_verdict(
            config.access_password@,
            access@,
            id@,
            kind.deep_view(),
            content_is_url,
        ),
{
    if check_access(config, access).is_some() {
        return Err(Rejection::Unauthorized);
    }
    if id.is_empty() {
        return Err(Rejection::MissingParameter);
    }
    match parse_kind(kind) {
        None => Err(Rejection::UnsupportedType),
        Some(ContentType::Plaintext) => Ok(ContentType::Plaintext),
        Some(ContentType::Redirect) => {
            if content_is_url {
                Ok(ContentType::Redirect)
            } else {
                Err(Rejection::InvalidUrl)
            }
        },
    }
}

/// Decides whether a request to store `content` under `id` is let through.
/// The content is parsed only where a redirect is asked for.
pub fn check_post(config: &Config, access: &str, id: &str, kind: Option<&str>, content: &str) -> (verdict:
    Result<ContentType, Rejection>)
    ensures
        verdict == post_verdict(
            config.access_password@,
            access@,
            id@,
            kind.deep_view(),
            is_url(content@),
        ),
{
    let content_is_url = match parse_kind(kind) {
        Some(ContentType::Redirect) => parses_as_url(content),
        _ => true,
    };
    admit_post(config, access, id, kind, content_is_url)
}

/// Answers with an entry that was fetched.
pub fn serve(pasty: Pasty) -> (answer: Answer)
    ensures
        answer@ == served_view(pasty@),
{
    match pasty.content_type {
        ContentType::Plaintext => Answer::Plaintext { status: 200, content: pasty.content },
        ContentType::Redirect => Answer::Redirect { status: 302, target: pasty.content },
    }
}

} // verus!
