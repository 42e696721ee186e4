//! Returning jobs to the database, with retries.

use vstd::prelude::*;
use vstd::string::*;

verus! {

/// What can go wrong with a local queue.
#[derive(Debug, PartialEq, Eq)]
pub enum LocalQueueError {
    /// Jobs could not be returned to the database.
    ReturnJobsError(String),
}

/// One decimal digit.
pub open spec fn digit_text(digit: int) -> Seq<char> {
    if digit == 0 {
        "0"@
    } else if digit == 1 {
        "1"@
    } else if digit == 2 {
        "2"@
    } else if digit == 3 {
        "3"@
    } else if digit == 4 {
        "4"@
    } else if digit == 5 {
        "5"@
    } else if digit == 6 {
        "6"@
    } else if digit == 7 {
        "7"@
    } else if digit == 8 {
        "8"@
    } else {
        "9"@
    }
}

/// A number in decimal digits, without leading zeros.
pub open spec fn decimal_text(number: nat) -> Seq<char>
    decreases number,
{
    if number < 10 {
        digit_text(number as int)
    } else {
        decimal_text(number / 10) + digit_text((number % 10) as int)
    }
}

/// Writes one decimal digit.
fn digit(value: u32) -> (text: &'static str)
    requires
        value < 10,
    ensures
        text@ == digit_text(value as int),
{
    match value {
        0 => "0",
        1 => "1",
        2 => "2",
        3 => "3",
        4 => "4",
        5 => "5",
        6 => "6",
        7 => "7",
        8 => "8",
        _ => "9",
    }
}

/// Writes a number in decimal digits.
fn decimal(number: u32) -> (text: String)
    ensures
        text@ == decimal_text(number as nat),
    decreases number,
{
    if number < 10 {
        digit(number).to_string()
    } else {
        let mut text: String = decimal(number / 10);
        text.append(digit(number % 10));
        text
    }
}

/// Jobs that are being returned.
#[derive(Debug, Clone, Copy, PartialEq, Eq, Structural)]
pub struct ReturnJobsRun {
    /// How often the return has failed.
    pub attempt: u32,
    pub max_attempts: u32,
}

/// What is to be done after an attempt to return jobs.
#[derive(Debug, PartialEq, Eq)]
pub enum ReturnJobsAction {
    /// Wait for the delay that follows this many earlier failures, and try again.
    RetryAfter(u32),
    /// Give the result to whoever asked for the return.
    Return(Result<(), LocalQueueError>),
}

/// Text of the error after the last attempt.
pub open spec fn gave_up_text(attempts: nat, error: Seq<char>) -> Seq<char> {
    "Failed after "@ + decimal_text(attempts) + " attempts: "@ + error
}

impl ReturnJobsRun {
    /// Whether another attempt is allowed.
    pub open spec fn wf(self) -> bool {
        self.attempt == 0 || self.attempt < self.max_attempts
    }

    /// Starts with the first attempt, which is always allowed.
    pub fn new(max_attempts: u32) -> (run: Self)
        ensures
            run.wf(),
            run == (ReturnJobsRun { attempt: 0, max_attempts }),
    {
        ReturnJobsRun { attempt: 0, max_attempts }
    }

    /// Takes the result of an attempt. A failure comes with its text.
    pub fn observe(&mut self, result: Result<(), String>) -> (action: ReturnJobsAction)
        requires
            old(self).wf(),
        ensures
            final(self).max_attempts == old(self).max_attempts,
            match result {
                Ok(_) => {
                    &&& *final(self) == *old(self)
                    &&& action == ReturnJobsAction::Return(Ok(()))
                },
                Err(error) => {
                    &&& final(self).attempt == old(self).attempt + 1
                    &&& if final(self).attempt < old(self).max_attempts {
                        &&& final(self).wf()
                        &&& action == ReturnJobsAction::RetryAfter(old(self).attempt)
                    } else {
                        action matches ReturnJobsAction::Return(
                            Err(LocalQueueError::ReturnJobsError(text)),
                        ) && text@ == gave_up_text(final(self).attempt as nat, error@) && text@
                            == "Failed after "@ + decimal_text(final(self).attempt as nat)
                            + " attempts: "@ + error@
                    }
                },
            },
    {
        match result {
            Ok(_) => ReturnJobsAction::Return(Ok(())),
            Err(error) => {
                let failed_before: u32 = self.attempt;
                self.attempt = self.attempt + 1;
                if self.attempt < self.max_attempts {
                    return ReturnJobsAction::RetryAfter(failed_before);
                }
                let mut text: String = "Failed after ".to_string();
                text.append(decimal(self.attempt).as_str());
                text.append(" attempts: ");
                text.append(error.as_str());
                ReturnJobsAction::Return(Err(LocalQueueError::ReturnJobsError(text)))
            },
        }
    }
}

/// The number that decimal digits stand for.
pub open spec fn decimal_value(text: Seq<char>) -> int
    decreases text.len(),
{
    if text.len() == 0 {
        0
    } else {
        decimal_value(text.drop_last()) * 10 + (text.last() as int - '0' as int)
    }
}

/// Law: a number that is written in decimal digits reads back as the same number. It is
/// written in digits alone, and without a zero in front unless it is zero itself.
pub proof fn law_decimals_read_back(number: nat)
    ensures
        decimal_value(decimal_text(number)) == number,
        decimal_text(number).len() >= 1,
        forall|i: int|
            0 <= i < decimal_text(number).len() ==> '0' as int <= #[trigger] decimal_text(
                number,
            )[i] as int <= '9' as int,
        number > 0 ==> decimal_text(number)[0] != '0',
        number < 10 ==> decimal_text(number).len() == 1,
    decreases number,
{
    let last = (number % 10) as int;
    lemma_digit(last);
    if number < 10 {
        assert(digit_text(last).drop_last() =~= Seq::<char>::empty());
        assert(decimal_value(digit_text(last).drop_last()) == 0);
    } else {
        law_decimals_read_back(number / 10);
        assert(decimal_text(number).drop_last() =~= decimal_text(number / 10));
    }
}

/// A digit is one character, as far behind zero as it counts.
proof fn lemma_digit(digit: int)
    requires
        0 <= digit < 10,
    ensures
        digit_text(digit).len() == 1,
        digit_text(digit)[0] as int == '0' as int + digit,
{
    reveal_strlit("0");
    reveal_strlit("1");
    reveal_strlit("2");
    reveal_strlit("3");
    reveal_strlit("4");
    reveal_strlit("5");
    reveal_strlit("6");
    reveal_strlit("7");
    reveal_strlit("8");
    reveal_strlit("9");
}

/// Law: the text of the last failure names the attempts and the error that it was about.
pub proof fn law_the_last_failure_is_told(attempts: nat, error: Seq<char>)
    ensures
        gave_up_text(attempts, error) == "Failed after "@ + decimal_text(attempts)
            + " attempts: "@ + error,
{
}

/// How many attempts are made from `attempt` failures on, if all of them fail.
pub open spec fn attempts_left(attempt: int, max_attempts: int) -> int
    decreases max_attempts - attempt,
{
    if attempt + 1 < max_attempts {
        1 + attempts_left(attempt + 1, max_attempts)
    } else {
        1
    }
}

/// Law: jobs whose return keeps failing are returned exactly as often as allowed,
/// and once in any case.
pub proof fn law_attempts_are_bounded(attempt: int, max_attempts: int)
    requires
        0 <= attempt,
        0 <= max_attempts,
        attempt == 0 || attempt < max_attempts,
    ensures
        attempts_left(attempt, max_attempts) == if max_attempts == 0 {
            1
        } else {
            max_attempts - attempt
        },
    decreases max_attempts - attempt,
{
    if attempt + 1 < max_attempts {
        law_attempts_are_bounded(attempt + 1, max_attempts);
    }
}

} // verus!
