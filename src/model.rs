//! What every model offers, whatever its provider.
use crate::types::{
    CompletionMode, LanguageModelId, LanguageModelName, LanguageModelProviderId,
    LanguageModelProviderName, LanguageModelToolSchemaFormat,
};
use vstd::prelude::*;

verus! {

/// A model of some provider.
pub trait LanguageModel {
    /// The context window in tokens.
    spec fn spec_max_token_count(&self) -> u64;

    /// The context window in burn mode, where the model has a larger one.
    spec fn spec_max_token_count_in_burn_mode(&self) -> Option<u64>;

    spec fn spec_id(&self) -> Seq<char>;

    spec fn spec_name(&self) -> Seq<char>;

    spec fn spec_provider_id(&self) -> Seq<char>;

    spec fn spec_provider_name(&self) -> Seq<char>;

    /// The most tokens a response may have, where the model sets a limit.
    spec fn spec_max_output_tokens(&self) -> Option<u64>;

    spec fn spec_tool_input_format(&self) -> LanguageModelToolSchemaFormat;

    spec fn spec_supports_tools(&self) -> bool;

    spec fn spec_supports_burn_mode(&self) -> bool;

    fn id(&self) -> (r: LanguageModelId)
        ensures
            r.0@ == self.spec_id(),
    ;

    fn name(&self) -> (r: LanguageModelName)
        ensures
            r.0@ == self.spec_name(),
    ;

    fn provider_id(&self) -> (r: LanguageModelProviderId)
        ensures
            r.0@ == self.spec_provider_id(),
    ;

    fn provider_name(&self) -> (r: LanguageModelProviderName)
        ensures
            r.0@ == self.spec_provider_name(),
    ;

    fn max_token_count(&self) -> (r: u64)
        ensures
            r == self.spec_max_token_count(),
    ;

    fn max_output_tokens(&self) -> (r: Option<u64>)
        ensures
            r == self.spec_max_output_tokens(),
    ;

    fn tool_input_format(&self) -> (r: LanguageModelToolSchemaFormat)
        ensures
            r == self.spec_tool_input_format(),
    ;

    fn supports_tools(&self) -> (r: bool)
        ensures
            r == self.spec_supports_tools(),
    ;

    fn supports_burn_mode(&self) -> (r: bool)
        ensures
            r == self.spec_supports_burn_mode(),
    ;

    fn max_token_count_in_burn_mode(&self) -> (r: Option<u64>)
        ensures
            r == self.spec_max_token_count_in_burn_mode(),
    ;
}

/// The context window that applies in `mode`: burn mode uses the larger
/// window where the model has one.
pub open spec fn token_limit_for_mode<M: LanguageModel + ?Sized>(m: &M, mode: CompletionMode) -> u64 {
    match mode {
        CompletionMode::Normal => m.spec_max_token_count(),
        CompletionMode::Max => match m.spec_max_token_count_in_burn_mode() {
            Some(n) => n,
            None => m.spec_max_token_count(),
        },
    }
}

pub trait LanguageModelExt: LanguageModel {
    fn max_token_count_for_mode(&self, mode: CompletionMode) -> (r: u64)
        ensures
            r == token_limit_for_mode(self, mode),
    ;
}

impl<M: LanguageModel + ?Sized> LanguageModelExt for M {
    fn max_token_count_for_mode(&self, mode: CompletionMode) -> (r: u64) {
        match mode {
            CompletionMode::Normal => self.max_token_count(),
            CompletionMode::Max => match self.max_token_count_in_burn_mode() {
                Some(n) => n,
                None => self.max_token_count(),
            },
        }
    }
}

} // verus!
