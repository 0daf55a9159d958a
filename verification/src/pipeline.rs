//! The request pipeline: validate the command, resolve language and model,
//! build the prompt, and shape the response. Every stage either produces the
//! input of the next or short-circuits with a client-facing error.
use vstd::prelude::*;
use vstd::string::StringExecFns;
use crate::command::{parse_command, spec_command_op, OperationKind};
use crate::errors::{ApiError, ErrorView};
use crate::language::{get_language_name, is_valid_language_code, spec_language_name, spec_valid_code};
use crate::model::{resolve_model, spec_model_allowed, spec_resolve_model};
use crate::prompt::{build_system_prompt, spec_system_prompt};
use crate::text::spec_trim;
use crate::text::trim_str;

verus! {

/// One decoded inbound request, read-only for its lifetime.
pub struct IncomingRequest {
    /// The raw command field.
    pub command: String,
    /// The content to process, passed upstream unmodified.
    pub text: String,
    /// An optional model identifier, checked against the allow-list.
    pub model: Option<String>,
    /// An optional language code.
    pub lang: Option<String>,
}

/// Abstract value of an [`IncomingRequest`].
pub ghost struct RequestView {
    pub command: Seq<char>,
    pub text: Seq<char>,
    pub model: Option<Seq<char>>,
    pub lang: Option<Seq<char>>,
}

impl View for IncomingRequest {
    type V = RequestView;

    open spec fn view(&self) -> RequestView {
        RequestView {
            command: self.command@,
            text: self.text@,
            model: match self.model {
                Some(m) => Some(m@),
                None => None,
            },
            lang: match self.lang {
                Some(l) => Some(l@),
                None => None,
            },
        }
    }
}

/// The validated and resolved parameters of one request.
pub struct ResolvedParameters {
    /// The operation the command mapped to.
    pub op: OperationKind,
    /// The resolved model identifier, from the allow-list.
    pub model: String,
    /// The resolved language code; `en` when the request named none.
    pub lang_code: String,
    /// The display name the code resolved to, used in the prompt.
    pub language_name: String,
}

/// Abstract value of a [`ResolvedParameters`].
pub ghost struct ParametersView {
    pub op: OperationKind,
    pub model: Seq<char>,
    pub lang_code: Seq<char>,
    pub language_name: Seq<char>,
}

impl View for ResolvedParameters {
    type V = ParametersView;

    open spec fn view(&self) -> ParametersView {
        ParametersView {
            op: self.op,
            model: self.model@,
            lang_code: self.lang_code@,
            language_name: self.language_name@,
        }
    }
}

/// The two-message conversation sent upstream: the task-specific instruction
/// and the caller's text, unmodified.
pub struct ChatPrompt {
    /// The system instruction built for the operation and language.
    pub system_instruction: String,
    /// The caller's text, passed through unmodified.
    pub user_content: String,
}

/// Everything the transport needs for the upstream call.
pub struct UpstreamPlan {
    /// The resolved request parameters.
    pub params: ResolvedParameters,
    /// The conversation to send.
    pub prompt: ChatPrompt,
}

/// Abstract value of an [`UpstreamPlan`].
pub ghost struct PlanView {
    pub params: ParametersView,
    pub system_instruction: Seq<char>,
    pub user_content: Seq<char>,
}

impl View for UpstreamPlan {
    type V = PlanView;

    open spec fn view(&self) -> PlanView {
        PlanView {
            params: self.params@,
            system_instruction: self.prompt.system_instruction@,
            user_content: self.prompt.user_content@,
        }
    }
}

/// The body returned to the caller.
pub struct AiResponse {
    /// The extracted upstream answer, trimmed; empty when the upstream
    /// response carried no text.
    pub result: String,
    /// The model the request was resolved to.
    pub model: String,
    /// The resolved language code (not the display name).
    pub lang: String,
}

/// Abstract value of an [`AiResponse`].
pub ghost struct ResponseView {
    pub result: Seq<char>,
    pub model: Seq<char>,
    pub lang: Seq<char>,
}

impl View for AiResponse {
    type V = ResponseView;

    open spec fn view(&self) -> ResponseView {
        ResponseView { result: self.result@, model: self.model@, lang: self.lang@ }
    }
}

/// The rejection text for an unrecognized command; it names exactly the
/// three valid commands.
pub open spec fn spec_invalid_command_message(c: Seq<char>) -> Seq<char> {
    "Invalid command '"@ + c
        + "'. Valid commands: 'paraphrase', 'summarize', 'translate'"@
}

/// The rejection text for a translate request that names no language.
pub open spec fn spec_lang_required_message() -> Seq<char> {
    "lang parameter is required for translate command. Provide a language code (e.g., 'es', 'fra')."@
}

/// The rejection text for a language code that validation refuses.
pub open spec fn spec_invalid_language_message(l: Seq<char>) -> Seq<char> {
    "Invalid language code '"@ + l
        + "'. Provide a valid ISO 639-1 (e.g., 'es', 'fr') or ISO 639-3 (e.g., 'spa', 'fra') language code."@
}

/// The resolved language code of a request: the given code, or `en` when
/// none was given.
pub open spec fn spec_lang_code(lang: Option<Seq<char>>) -> Seq<char> {
    match lang {
        Some(l) => l,
        None => "en"@,
    }
}

/// What model resolution makes of a request whose command and language
/// already passed validation.
pub open spec fn spec_resolve_with_lang(op: OperationKind, r: RequestView) -> Result<
    ParametersView,
    ErrorView,
> {
    match spec_resolve_model(r.model) {
        Err(msg) => Err(ErrorView::BadRequest(msg)),
        Ok(m) => Ok(
            ParametersView {
                op,
                model: m,
                lang_code: spec_lang_code(r.lang),
                language_name: spec_language_name(spec_lang_code(r.lang)),
            },
        ),
    }
}

/// What validation and resolution make of a request: its resolved
/// parameters, or the first rejection in pipeline order — unknown command,
/// then a translate request without a language, then an invalid language
/// code, then an unsupported model.
pub open spec fn spec_resolve_parameters(r: RequestView) -> Result<ParametersView, ErrorView> {
    match spec_command_op(r.command) {
        None => Err(ErrorView::BadRequest(spec_invalid_command_message(r.command))),
        Some(op) => if op == OperationKind::Translate && r.lang is None {
            Err(ErrorView::BadRequest(spec_lang_required_message()))
        } else {
            match r.lang {
                Some(l) => if !spec_valid_code(l) {
                    Err(ErrorView::BadRequest(spec_invalid_language_message(l)))
                } else {
                    spec_resolve_with_lang(op, r)
                },
                None => spec_resolve_with_lang(op, r),
            }
        },
    }
}

/// What the whole pre-flight pipeline makes of a request: the upstream plan,
/// or the first rejection.
pub open spec fn spec_plan_request(r: RequestView) -> Result<PlanView, ErrorView> {
    match spec_resolve_parameters(r) {
        Err(e) => Err(e),
        Ok(p) => Ok(
            PlanView {
                params: p,
                system_instruction: spec_system_prompt(p.op, p.language_name),
                user_content: r.text,
            },
        ),
    }
}

/// Validates a request and resolves its operation, model, language code and
/// language name, rejecting bad input in pipeline order.
pub fn resolve_parameters(req: &IncomingRequest) -> (r: Result<ResolvedParameters, ApiError>)
    ensures
        match r {
            Ok(p) => spec_resolve_parameters(req@) == Ok::<ParametersView, ErrorView>(p@),
            Err(e) => spec_resolve_parameters(req@) == Err::<ParametersView, ErrorView>(e@),
        },
{
    let op = match parse_command(req.command.as_str()) {
        Some(op) => op,
        None => {
            let mut text = String::from_str("Invalid command '");
            text.append(req.command.as_str());
            text.append("'. Valid commands: 'paraphrase', 'summarize', 'translate'");
            proof {
                assert(text@ =~= spec_invalid_command_message(req@.command));
            }
            return Err(ApiError::BadRequest(text));
        },
    };
    if op == OperationKind::Translate && req.lang.is_none() {
        return Err(
            ApiError::BadRequest(
                String::from_str(
                    "lang parameter is required for translate command. Provide a language code (e.g., 'es', 'fra').",
                ),
            ),
        );
    }
    if let Some(l) = &req.lang {
        if !is_valid_language_code(l.as_str()) {
            let mut text = String::from_str("Invalid language code '");
            text.append(l.as_str());
            text.append(
                "'. Provide a valid ISO 639-1 (e.g., 'es', 'fr') or ISO 639-3 (e.g., 'spa', 'fra') language code.",
            );
            proof {
                assert(text@ =~= spec_invalid_language_message(l@));
            }
            return Err(ApiError::BadRequest(text));
        }
    }
    let lang_code: String = match &req.lang {
        Some(l) => l.clone(),
        None => String::from_str("en"),
    };
    let language_name = get_language_name(lang_code.as_str());
    let model = match resolve_model(&req.model) {
        Ok(m) => m,
        Err(e) => {
            return Err(e);
        },
    };
    Ok(ResolvedParameters { op, model, lang_code, language_name })
}

/// Runs the whole pre-flight pipeline: validation, resolution, and prompt
/// construction. On success the plan holds everything the upstream call
/// needs; on failure the first rejection is returned and nothing else runs.
pub fn plan_request(req: &IncomingRequest) -> (r: Result<UpstreamPlan, ApiError>)
    ensures
        match r {
            Ok(p) => spec_plan_request(req@) == Ok::<PlanView, ErrorView>(p@),
            Err(e) => spec_plan_request(req@) == Err::<PlanView, ErrorView>(e@),
        },
{
    match resolve_parameters(req) {
        Err(e) => Err(e),
        Ok(params) => {
            let system_instruction = build_system_prompt(params.op, params.language_name.as_str());
            let user_content = String::from_str(req.text.as_str());
            Ok(UpstreamPlan { params, prompt: ChatPrompt { system_instruction, user_content } })
        },
    }
}

/// Extracts the answer text from the upstream response's optional content
/// field: absent or non-text content yields the empty string rather than a
/// failure, and the text is trimmed of surrounding whitespace.
pub fn extract_answer(content: Option<&str>) -> (r: String)
    ensures
        match content {
            None => r@ == Seq::<char>::empty(),
            Some(s) => r@ == spec_trim(s@),
        },
{
    match content {
        None => String::new(),
        Some(s) => trim_str(s),
    }
}

/// Shapes the body returned to the caller: the extracted answer, the
/// resolved model, and the resolved language code.
pub fn build_response(params: &ResolvedParameters, content: Option<&str>) -> (r: AiResponse)
    ensures
        r@.result == (match content {
            None => Seq::<char>::empty(),
            Some(s) => spec_trim(s@),
        }),
        r@.model == params@.model,
        r@.lang == params@.lang_code,
{
    AiResponse {
        result: extract_answer(content),
        model: params.model.clone(),
        lang: params.lang_code.clone(),
    }
}

} // verus!
