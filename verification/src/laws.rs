//! Laws of the pipeline, stated over the same spec functions the executable
//! contracts use and proved once for all requests.
use vstd::prelude::*;
use crate::command::{spec_command_op, OperationKind};
use crate::errors::ErrorView;
use crate::language::spec_valid_code;
use crate::model::{spec_default_model, spec_invalid_model_message, spec_model_allowed};
use crate::pipeline::{
    spec_invalid_command_message, spec_lang_required_message, spec_plan_request, PlanView,
    RequestView,
};
use crate::prompt::spec_system_prompt;

verus! {

/// Law: a request whose command is none of the three recognized literals is
/// rejected with the text that names exactly the three valid commands, and
/// no plan is produced.
pub proof fn lemma_unknown_command_rejected(r: RequestView)
    requires
        spec_command_op(r.command) is None,
    ensures
        spec_plan_request(r) == Err::<PlanView, ErrorView>(
            ErrorView::BadRequest(spec_invalid_command_message(r.command)),
        ),
{
}

/// Law: a translate request without a language code is rejected with the
/// fixed text asking for one, and no plan is produced — so no upstream call
/// can be attempted.
pub proof fn lemma_translate_requires_lang(r: RequestView)
    requires
        r.command == "translate"@,
        r.lang is None,
    ensures
        spec_plan_request(r) == Err::<PlanView, ErrorView>(
            ErrorView::BadRequest(spec_lang_required_message()),
        ),
{
    reveal_strlit("translate");
    reveal_strlit("paraphrase");
    reveal_strlit("summarize");
    assert("translate"@[0] == 't');
    assert("paraphrase"@.len() == 10);
    assert("summarize"@[0] == 's');
    assert(spec_command_op(r.command) == Some(OperationKind::Translate));
}

/// Law: a request proceeds past validation — a plan is produced — exactly
/// when its command is recognized, a translate request names a language, any
/// language named is a valid code or extended tag, and any model named is on
/// the allow-list.
pub proof fn lemma_acceptance(r: RequestView)
    ensures
        spec_plan_request(r) is Ok <==> {
            &&& spec_command_op(r.command) is Some
            &&& (spec_command_op(r.command) == Some(OperationKind::Translate) ==> r.lang is Some)
            &&& (r.lang matches Some(l) ==> spec_valid_code(l))
            &&& (r.model matches Some(m) ==> spec_model_allowed(m))
        },
{
}

/// Law: a request that names no language resolves to the code `en`, and its
/// prompt is built from the display name that `en` resolves to.
pub proof fn lemma_default_language(r: RequestView)
    requires
        r.lang is None,
        spec_plan_request(r) is Ok,
    ensures
        spec_plan_request(r)->Ok_0.params.lang_code == "en"@,
        spec_plan_request(r)->Ok_0.params.language_name
            == crate::language::spec_language_name("en"@),
        spec_plan_request(r)->Ok_0.system_instruction == spec_system_prompt(
            spec_plan_request(r)->Ok_0.params.op,
            crate::language::spec_language_name("en"@),
        ),
{
}

/// Law: a request that names no model resolves to the fixed default
/// identifier.
pub proof fn lemma_default_model(r: RequestView)
    requires
        r.model is None,
        spec_plan_request(r) is Ok,
    ensures
        spec_plan_request(r)->Ok_0.params.model == spec_default_model(),
{
}

/// Law: a request that names a model off the allow-list produces no plan;
/// and when every earlier stage passes, the rejection is the text that names
/// both supported identifiers.
pub proof fn lemma_unsupported_model_rejected(r: RequestView, m: Seq<char>)
    requires
        r.model == Some(m),
        !spec_model_allowed(m),
    ensures
        spec_plan_request(r) is Err,
        ({
            &&& spec_command_op(r.command) is Some
            &&& (spec_command_op(r.command) == Some(OperationKind::Translate) ==> r.lang is Some)
            &&& (r.lang matches Some(l) ==> spec_valid_code(l))
        }) ==> spec_plan_request(r) == Err::<PlanView, ErrorView>(
            ErrorView::BadRequest(spec_invalid_model_message(m)),
        ),
{
}

} // verus!
