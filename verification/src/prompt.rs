//! Construction of the exact system instruction sent upstream for each
//! operation, with the resolved language name substituted in.
use vstd::prelude::*;
use vstd::string::StringExecFns;
use crate::command::OperationKind;

verus! {

/// The system instruction for an operation, with the resolved language name
/// substituted in: twice for paraphrase and summarize (write in it, and
/// translate into it if necessary), once for translate (the target).
pub open spec fn spec_system_prompt(op: OperationKind, name: Seq<char>) -> Seq<char> {
    match op {
        OperationKind::Paraphrase => "You are an expert writing assistant specialized in paraphrasing text. Your task is to rewrite the given text while preserving its original meaning in the "@
            + name
            + " language, but using different words, sentence structures, and phrasing. Make the paraphrased text clear, natural, and well-written. If necessary, translate the paraphrased text to the "@
            + name + " language. Only return the paraphrased text, nothing else."@,
        OperationKind::Summarize => "You are an expert text summarizer. Your task is to create a concise, accurate summary of the given text that captures the main points and key information in the "@
            + name
            + " language. Focus on the most important ideas while maintaining clarity and coherence. The summary should be significantly shorter than the original text. If necessary, translate the summary to the "@
            + name + " language. Only return the summary, nothing else."@,
        OperationKind::Translate => "You are an expert translator. Your task is to translate the given text to "@
            + name
            + ". Provide an accurate, natural-sounding translation that preserves the meaning and tone of the original text. Consider cultural context and idiomatic expressions when appropriate. Only return the translated text, nothing else."@,
    }
}

/// Builds the system instruction for an operation and resolved language name.
pub fn build_system_prompt(op: OperationKind, name: &str) -> (r: String)
    ensures
        r@ == spec_system_prompt(op, name@),
{
    match op {
        OperationKind::Paraphrase => {
            let mut text = String::from_str(
                "You are an expert writing assistant specialized in paraphrasing text. Your task is to rewrite the given text while preserving its original meaning in the ",
            );
            text.append(name);
            text.append(
                " language, but using different words, sentence structures, and phrasing. Make the paraphrased text clear, natural, and well-written. If necessary, translate the paraphrased text to the ",
            );
            text.append(name);
            text.append(" language. Only return the paraphrased text, nothing else.");
            proof {
                assert(text@ =~= spec_system_prompt(op, name@));
            }
            text
        },
        OperationKind::Summarize => {
            let mut text = String::from_str(
                "You are an expert text summarizer. Your task is to create a concise, accurate summary of the given text that captures the main points and key information in the ",
            );
            text.append(name);
            text.append(
                " language. Focus on the most important ideas while maintaining clarity and coherence. The summary should be significantly shorter than the original text. If necessary, translate the summary to the ",
            );
            text.append(name);
            text.append(" language. Only return the summary, nothing else.");
            proof {
                assert(text@ =~= spec_system_prompt(op, name@));
            }
            text
        },
        OperationKind::Translate => {
            let mut text = String::from_str(
                "You are an expert translator. Your task is to translate the given text to ",
            );
            text.append(name);
            text.append(
                ". Provide an accurate, natural-sounding translation that preserves the meaning and tone of the original text. Consider cultural context and idiomatic expressions when appropriate. Only return the translated text, nothing else.",
            );
            proof {
                assert(text@ =~= spec_system_prompt(op, name@));
            }
            text
        },
    }
}

} // verus!
