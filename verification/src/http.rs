//! Responses of a server: a bare status code, or one of three named kinds.

use vstd::prelude::*;

verus! {

/// One response.
#[derive(Clone, Copy, Debug, PartialEq, Eq, Structural)]
pub enum Http {
    /// Any status, by its code.
    Status(u16),
    /// Success, code 200.
    Success,
    /// Nothing found, code 404.
    NotFound,
    /// The server failed, code 500.
    ServerError,
}

/// The status code of a response.
pub open spec fn code_of(response: Http) -> u16 {
    match response {
        Http::Status(code) => code,
        Http::Success => 200,
        Http::NotFound => 404,
        Http::ServerError => 500,
    }
}

/// Whether a response is a named failure.
pub open spec fn is_failure(response: Http) -> bool {
    response == Http::NotFound || response == Http::ServerError
}

/// How many responses at the end of `log` are bare status codes.
pub open spec fn trailing_statuses(log: Seq<Http>) -> nat
    decreases log.len(),
{
    if log.len() > 0 && log.last() is Status {
        1 + trailing_statuses(log.drop_last())
    } else {
        0
    }
}

/// How many responses at the end of `log` are named failures.
pub open spec fn trailing_failures(log: Seq<Http>) -> nat
    decreases log.len(),
{
    if log.len() > 0 && is_failure(log.last()) {
        1 + trailing_failures(log.drop_last())
    } else {
        0
    }
}

/// What is left of a log of `len` responses after a run of `run` responses
/// was taken off its end: the response that stopped the run, if there was one,
/// is taken off with it.
pub open spec fn left_after(len: int, run: int) -> int {
    if run < len {
        len - run - 1
    } else {
        0
    }
}

impl Http {
    /// The status code of this response.
    pub fn code(&self) -> (r: u16)
        ensures
            r == code_of(*self),
    {
        match self {
            Http::Status(code) => *code,
            Http::Success => 200,
            Http::NotFound => 404,
            Http::ServerError => 500,
        }
    }
}

/// Takes the bare status codes off the end of `responses`, last first, and
/// returns each code with the number of responses that were left when it was
/// taken. The response that ends the run is taken off too.
pub fn pop_statuses(responses: &mut Vec<Http>) -> (r: Vec<(u16, usize)>)
    ensures
        r@.len() == trailing_statuses(old(responses)@),
        forall|k: int|
            0 <= k < r@.len() ==> (#[trigger] r@[k]).0 == code_of(
                old(responses)@[old(responses)@.len() - 1 - k],
            ) && r@[k].1 == old(responses)@.len() - 1 - k,
        final(responses)@ == old(responses)@.take(
            left_after(old(responses)@.len() as int, r@.len() as int),
        ),
{
    let ghost log = responses@;
    let mut taken: Vec<(u16, usize)> = Vec::new();
    assert(log.take(log.len() as int) =~= log);
    loop
        invariant_except_break
            responses@ == log.take(log.len() - taken@.len()),
            trailing_statuses(log) == taken@.len() + trailing_statuses(responses@),
        invariant
            taken@.len() <= log.len(),
            forall|k: int|
                0 <= k < taken@.len() ==> (#[trigger] taken@[k]).0 == code_of(
                    log[log.len() - 1 - k],
                ) && taken@[k].1 == log.len() - 1 - k,
        ensures
            taken@.len() == trailing_statuses(log),
            responses@ == log.take(left_after(log.len() as int, taken@.len() as int)),
        decreases responses@.len(),
    {
        let ghost before = responses@;
        match responses.pop() {
            Some(Http::Status(code)) => {
                assert(before.drop_last() =~= log.take(log.len() - taken@.len() - 1));
                taken.push((code, responses.len()));
            },
            Some(_) => {
                assert(before.drop_last() =~= log.take(log.len() - taken@.len() - 1));
                break ;
            },
            None => {
                break ;
            },
        }
    }
    taken
}

/// Takes the named failures off the end of `responses`, last first, and
/// returns for each the number of responses that were left when it was taken.
/// The response that ends the run is taken off too.
pub fn pop_failures(responses: &mut Vec<Http>) -> (r: Vec<usize>)
    ensures
        r@.len() == trailing_failures(old(responses)@),
        forall|k: int|
            0 <= k < r@.len() ==> #[trigger] r@[k] == old(responses)@.len() - 1 - k,
        final(responses)@ == old(responses)@.take(
            left_after(old(responses)@.len() as int, r@.len() as int),
        ),
{
    let ghost log = responses@;
    let mut taken: Vec<usize> = Vec::new();
    assert(log.take(log.len() as int) =~= log);
    loop
        invariant_except_break
            responses@ == log.take(log.len() - taken@.len()),
            trailing_failures(log) == taken@.len() + trailing_failures(responses@),
        invariant
            taken@.len() <= log.len(),
            forall|k: int|
                0 <= k < taken@.len() ==> #[trigger] taken@[k] == log.len() - 1 - k,
        ensures
            taken@.len() == trailing_failures(log),
            responses@ == log.take(left_after(log.len() as int, taken@.len() as int)),
        decreases responses@.len(),
    {
        let ghost before = responses@;
        match responses.pop() {
            Some(Http::NotFound) | Some(Http::ServerError) => {
                assert(before.drop_last() =~= log.take(log.len() - taken@.len() - 1));
                taken.push(responses.len());
            },
            Some(_) => {
                assert(before.drop_last() =~= log.take(log.len() - taken@.len() - 1));
                break ;
            },
            None => {
                break ;
            },
        }
    }
    taken
}

} // verus!
