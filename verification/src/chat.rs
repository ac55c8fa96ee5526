//! Chat session state: the selected model variant, the assistant's system
//! prompt, the mode flags, and a bounded conversation history.
//!
//! Everything here is plain string and list computation.  Producing actual
//! replies is the inference engine's business and stays with the caller; it
//! reads the session's state and reports exchanges back through
//! [`ChatSession::record_exchange`].

use crate::phi_models::PhiModel;
use crate::strutil::{spec_contains_sub, str_contains};
use vstd::prelude::*;
use vstd::string::StringExecFns;

verus! {

/// Longest conversation history kept, in exchanges.
pub const HISTORY_LIMIT: usize = 10;

/// The base system prompt used when the caller supplies none.
pub open spec fn spec_base_prompt() -> Seq<char> {
    "You are Phi, a helpful AI assistant created by Microsoft."@
}

/// The sentence added to the default prompt in coding mode.
pub open spec fn spec_default_coding_part() -> Seq<char> {
    " You specialize in helping with programming tasks, code generation, debugging, and software development best practices."@
}

/// The sentence added to the default prompt in math mode.
pub open spec fn spec_default_math_part() -> Seq<char> {
    " You excel at mathematical reasoning, problem solving, and explaining complex mathematical concepts clearly."@
}

/// The closing sentence of the default prompt.
pub open spec fn spec_default_tail() -> Seq<char> {
    " You provide accurate, helpful, and concise responses."@
}

/// The default system prompt for the given mode flags.
pub open spec fn spec_default_system_prompt(coding_mode: bool, math_mode: bool) -> Seq<char> {
    spec_base_prompt() + (if coding_mode {
        spec_default_coding_part()
    } else {
        Seq::empty()
    }) + (if math_mode {
        spec_default_math_part()
    } else {
        Seq::empty()
    }) + spec_default_tail()
}

/// The note appended to a caller-supplied prompt in coding mode.
pub open spec fn spec_coding_note() -> Seq<char> {
    "\n\nCoding Assistant Mode: Focus on programming tasks, code quality, and best practices."@
}

/// The note appended to a caller-supplied prompt in math mode.
pub open spec fn spec_math_note() -> Seq<char> {
    "\n\nMath Assistant Mode: Emphasize mathematical accuracy and clear step-by-step explanations."@
}

/// A caller-supplied prompt extended with the notes of the active modes.
pub open spec fn spec_enhance_system_prompt(
    base: Seq<char>,
    coding_mode: bool,
    math_mode: bool,
) -> Seq<char> {
    base + (if coding_mode {
        spec_coding_note()
    } else {
        Seq::empty()
    }) + (if math_mode {
        spec_math_note()
    } else {
        Seq::empty()
    })
}

/// Whether an input concerns coding work.
pub open spec fn spec_is_coding_input(input: Seq<char>) -> bool {
    spec_contains_sub(input, "code"@) || spec_contains_sub(input, "function"@)
        || spec_contains_sub(input, "bug"@)
}

/// Whether an input concerns mathematical work.
pub open spec fn spec_is_math_input(input: Seq<char>) -> bool {
    spec_contains_sub(input, "solve"@) || spec_contains_sub(input, "calculate"@)
        || spec_contains_sub(input, "equation"@)
}

/// An input tagged according to the active modes: a coding tag when coding
/// mode is on and the input mentions coding, then a math tag when math mode
/// is on and the input mentions mathematics.
pub open spec fn spec_enhance_input(
    coding_mode: bool,
    math_mode: bool,
    input: Seq<char>,
) -> Seq<char> {
    let tagged = if coding_mode && spec_is_coding_input(input) {
        "[CODING TASK] "@ + input
    } else {
        input
    };
    if math_mode && spec_is_math_input(input) {
        "[MATH PROBLEM] "@ + tagged
    } else {
        tagged
    }
}

/// One chat session: the selected variant, the effective system prompt, the
/// mode flags, and the bounded history of exchanges.
pub struct ChatSession {
    /// The model variant this session talks to.
    pub model: PhiModel,
    /// Past exchanges, oldest first, as (user, assistant) pairs.
    pub conversation_history: Vec<(String, String)>,
    /// The effective system prompt.
    pub system_prompt: Option<String>,
    /// Whether the coding assistant mode is active.
    pub coding_mode: bool,
    /// Whether the math assistant mode is active.
    pub math_mode: bool,
}

impl ChatSession {
    /// The default system prompt for the given mode flags.
    pub fn default_system_prompt(coding_mode: bool, math_mode: bool) -> (r: String)
        ensures
            r@ == spec_default_system_prompt(coding_mode, math_mode),
    {
        let mut prompt = "You are Phi, a helpful AI assistant created by Microsoft.".to_owned();
        if coding_mode {
            prompt.append(
                " You specialize in helping with programming tasks, code generation, debugging, and software development best practices.",
            );
        }
        if math_mode {
            prompt.append(
                " You excel at mathematical reasoning, problem solving, and explaining complex mathematical concepts clearly.",
            );
        }
        prompt.append(" You provide accurate, helpful, and concise responses.");
        proof {
            assert(prompt@ =~= spec_default_system_prompt(coding_mode, math_mode));
        }
        prompt
    }

    /// Extends a caller-supplied prompt with the notes of the active modes.
    pub fn enhance_system_prompt(base: String, coding_mode: bool, math_mode: bool) -> (r: String)
        ensures
            r@ == spec_enhance_system_prompt(base@, coding_mode, math_mode),
    {
        let ghost base0 = base@;
        let mut enhanced = base;
        if coding_mode {
            enhanced.append(
                "\n\nCoding Assistant Mode: Focus on programming tasks, code quality, and best practices.",
            );
        }
        if math_mode {
            enhanced.append(
                "\n\nMath Assistant Mode: Emphasize mathematical accuracy and clear step-by-step explanations.",
            );
        }
        proof {
            assert(enhanced@ =~= spec_enhance_system_prompt(base0, coding_mode, math_mode));
        }
        enhanced
    }

    /// A fresh session: empty history, and a system prompt built from the
    /// caller's prompt (extended with mode notes) or the default one.
    pub fn new(
        model: PhiModel,
        system_prompt: Option<String>,
        coding_mode: bool,
        math_mode: bool,
    ) -> (r: Self)
        ensures
            r.model == model,
            r.conversation_history@ == Seq::<(String, String)>::empty(),
            r.coding_mode == coding_mode,
            r.math_mode == math_mode,
            r.system_prompt matches Some(p) && p@ == (match system_prompt {
                Some(base) => spec_enhance_system_prompt(base@, coding_mode, math_mode),
                None => spec_default_system_prompt(coding_mode, math_mode),
            }),
    {
        let enhanced = match system_prompt {
            Some(base) => Self::enhance_system_prompt(base, coding_mode, math_mode),
            None => Self::default_system_prompt(coding_mode, math_mode),
        };
        let r = ChatSession {
            model,
            conversation_history: Vec::new(),
            system_prompt: Some(enhanced),
            coding_mode,
            math_mode,
        };
        proof {
            assert(r.conversation_history@ =~= Seq::<(String, String)>::empty());
        }
        r
    }

    /// Tags an input according to the session's active modes.
    pub fn enhance_input(&self, input: &str) -> (r: String)
        ensures
            r@ == spec_enhance_input(self.coding_mode, self.math_mode, input@),
    {
        let mut enhanced = input.to_owned();
        if self.coding_mode && (str_contains(input, "code") || str_contains(input, "function")
            || str_contains(input, "bug")) {
            let mut tagged = "[CODING TASK] ".to_owned();
            tagged.append(enhanced.as_str());
            enhanced = tagged;
        }
        if self.math_mode && (str_contains(input, "solve") || str_contains(input, "calculate")
            || str_contains(input, "equation")) {
            let mut tagged = "[MATH PROBLEM] ".to_owned();
            tagged.append(enhanced.as_str());
            enhanced = tagged;
        }
        enhanced
    }

    /// Records one exchange; the oldest exchange falls out once the history
    /// exceeds [`HISTORY_LIMIT`] entries.
    pub fn record_exchange(&mut self, user: String, reply: String)
        ensures
            final(self).model == old(self).model,
            final(self).system_prompt == old(self).system_prompt,
            final(self).coding_mode == old(self).coding_mode,
            final(self).math_mode == old(self).math_mode,
            final(self).conversation_history@ == (if old(self).conversation_history@.len()
                >= HISTORY_LIMIT {
                old(self).conversation_history@.push((user, reply)).drop_first()
            } else {
                old(self).conversation_history@.push((user, reply))
            }),
    {
        self.conversation_history.push((user, reply));
        if self.conversation_history.len() > HISTORY_LIMIT {
            self.conversation_history.remove(0);
            proof {
                assert(self.conversation_history@ =~= old(
                    self,
                ).conversation_history@.push((user, reply)).drop_first());
            }
        }
    }
}

} // verus!
