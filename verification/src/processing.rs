//! Processors that turn one input into a result, one at a time or in a
//! batch.

use vstd::prelude::*;
use vstd::string::*;

verus! {

/// Something that turns an input into an output or into an error.
pub trait Processable<T> {
    type Output;

    type Error;

    /// True when `input` can be processed at all.
    spec fn accepts(&self, input: T) -> bool;

    /// True when `result` is what `input` is processed to.
    spec fn processed(&self, input: T, result: Result<Self::Output, Self::Error>) -> bool;

    /// Processes one input.
    fn process(&self, input: T) -> (r: Result<Self::Output, Self::Error>)
        requires
            self.accepts(input),
        ensures
            self.processed(input, r),
    ;

    /// Processes every input, in order; one failure does not stop the
    /// others.
    fn process_batch(&self, inputs: Vec<T>) -> (results: Vec<Result<Self::Output, Self::Error>>)
        requires
            forall|i: int| 0 <= i < inputs@.len() ==> self.accepts(#[trigger] inputs@[i]),
        ensures
            results@.len() == inputs@.len(),
            forall|i: int|
                0 <= i < inputs@.len() ==> self.processed(inputs@[i], #[trigger] results@[i]),
    {
        let ghost all = inputs@;
        let mut rest: Vec<T> = inputs;
        let mut results: Vec<Result<Self::Output, Self::Error>> = Vec::new();
        while rest.len() > 0
            invariant
                results@.len() + rest@.len() == all.len(),
                forall|i: int| 0 <= i < all.len() ==> self.accepts(#[trigger] all[i]),
                forall|i: int| 0 <= i < rest@.len() ==> rest@[i] == all[results@.len() + i],
                forall|i: int| 0 <= i < results@.len() ==> self.processed(all[i], #[trigger] results@[i]),
            decreases rest@.len(),
        {
            let input: T = rest.remove(0);
            let result = self.process(input);
            results.push(result);
        }
        results
    }
}

/// What `str::to_uppercase` makes of a text.
pub uninterp spec fn uppercase_of(text: Seq<char>) -> Seq<char>;

/// Calls `str::to_uppercase`. The result depends on the text alone; it is
/// Unicode's upper-case mapping, which can change the length of a text.
#[verifier::external_body]
fn to_uppercase(text: &str) -> (r: String)
    ensures
        r@ == uppercase_of(text@),
{
    text.to_uppercase()
}

/// Turns text into upper case and refuses empty text.
#[derive(Debug, Clone, Copy)]
pub struct TextProcessor;

/// Doubles a number and refuses negative numbers.
#[derive(Debug, Clone, Copy)]
pub struct NumberProcessor;

/// What a text is processed to: an error for the empty text, else the text
/// in upper case.
pub open spec fn text_outcome(input: Seq<char>) -> Result<Seq<char>, Seq<char>> {
    if input.len() == 0 {
        Err("Empty input"@)
    } else {
        Ok(uppercase_of(input))
    }
}

/// The text of a result, whichever way it went.
pub open spec fn outcome_text(result: Result<String, String>) -> Result<Seq<char>, Seq<char>> {
    match result {
        Ok(s) => Ok(s@),
        Err(e) => Err(e@),
    }
}

/// What a number is processed to: an error for a negative number, else
/// twice the number.
pub open spec fn number_outcome(input: int) -> Result<int, Seq<char>> {
    if input < 0 {
        Err("Negative number"@)
    } else {
        Ok(2 * input)
    }
}

/// The value of a result, whichever way it went.
pub open spec fn outcome_value(result: Result<i32, String>) -> Result<int, Seq<char>> {
    match result {
        Ok(n) => Ok(n as int),
        Err(e) => Err(e@),
    }
}

impl Processable<String> for TextProcessor {
    type Output = String;

    type Error = String;

    open spec fn accepts(&self, input: String) -> bool {
        true
    }

    open spec fn processed(&self, input: String, result: Result<String, String>) -> bool {
        outcome_text(result) == text_outcome(input@)
    }

    fn process(&self, input: String) -> (r: Result<String, String>) {
        if input.as_str().unicode_len() == 0 {
            Err("Empty input".to_owned())
        } else {
            Ok(to_uppercase(input.as_str()))
        }
    }
}

impl Processable<i32> for NumberProcessor {
    type Output = i32;

    type Error = String;

    /// Twice the number must fit in `i32`.
    open spec fn accepts(&self, input: i32) -> bool {
        2 * input <= i32::MAX
    }

    open spec fn processed(&self, input: i32, result: Result<i32, String>) -> bool {
        outcome_value(result) == number_outcome(input as int)
    }

    fn process(&self, input: i32) -> (r: Result<i32, String>) {
        if input < 0 {
            Err("Negative number".to_owned())
        } else {
            Ok(input * 2)
        }
    }
}

} // verus!
