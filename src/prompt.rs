use vstd::prelude::*;

use crate::text::{signed_decimal, signed_decimal_text};

verus! {

/// A question whose empty answer stands for a default.
pub struct DefaultPrompt {
    /// Text shown to the user: the question, then the default in brackets.
    pub label: String,
    /// Value of an empty answer.
    pub default: String,
}

/// The label of a question with its default.
pub open spec fn label_with_default(prompt: Seq<char>, default: Seq<char>) -> Seq<char> {
    prompt + seq![' ', '['] + default + seq![']']
}

/// A question that offers `default`.
pub fn prompt_with_default(prompt: &str, default: &str) -> (r: DefaultPrompt)
    ensures
        r.label@ == label_with_default(prompt@, default@),
        r.default@ == default@,
{
    proof {
        reveal_strlit(" [");
        reveal_strlit("]");
    }
    let mut label = String::from_str(prompt);
    label.append(" [");
    label.append(default);
    label.append("]");
    assert(label@ =~= label_with_default(prompt@, default@));
    DefaultPrompt { label, default: String::from_str(default) }
}

/// A question for a number that offers `default`.
pub fn number_prompt(prompt: &str, default: i32) -> (r: DefaultPrompt)
    ensures
        r.label@ == label_with_default(prompt@, signed_decimal(default as int)),
        r.default@ == signed_decimal(default as int),
{
    let text = signed_decimal_text(default as i64);
    prompt_with_default(prompt, text.as_str())
}

impl DefaultPrompt {
    /// The value that `input` gives: the default when it is empty, else itself.
    pub fn answer(&self, input: &str) -> (r: String)
        ensures
            r@ == if input@.len() == 0 {
                self.default@
            } else {
                input@
            },
    {
        if input.unicode_len() == 0 {
            self.default.clone()
        } else {
            String::from_str(input)
        }
    }
}

/// An answer to a question that needs one: none when it is empty.
pub fn required_answer(input: &str) -> (r: Option<String>)
    ensures
        input@.len() == 0 ==> r is None,
        input@.len() > 0 ==> r is Some && r->Some_0@ == input@,
{
    if input.unicode_len() == 0 {
        None
    } else {
        Some(String::from_str(input))
    }
}

} // verus!
