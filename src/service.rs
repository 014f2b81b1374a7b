//! The request handler run on every connection: it answers each line with
//! the same line reversed.
use vstd::prelude::*;
use vstd::string::StrSliceExecFns;

verus! {

/// Why a service could not answer a request.
#[derive(Clone, Copy, Debug, PartialEq, Eq)]
pub enum ServiceError {
    /// The handler gave up on the request.
    Unavailable,
}

/// The service that reverses each request.
pub struct Echo;

/// The characters of `s` in reverse order.
pub open spec fn reversed(s: Seq<char>) -> Seq<char> {
    Seq::new(s.len(), |i: int| s[s.len() - 1 - i])
}

/// Relies on `String::push`: the character is appended at the end.
#[verifier::external_body]
fn push_char(s: &mut String, c: char)
    ensures
        final(s)@ == old(s)@.push(c),
{
    s.push(c);
}

impl Echo {
    /// Answers `req` with its characters reversed; the answer is ready at once.
    pub fn call(&self, req: String) -> (r: Result<String, ServiceError>)
        ensures
            r is Ok,
            r->Ok_0@ == reversed(req@),
    {
        let text = req.as_str();
        let n = text.unicode_len();
        let mut rev = String::new();
        let mut i: usize = n;
        while i > 0
            invariant
                i <= n,
                n == text@.len(),
                text@ == req@,
                rev@ =~= reversed(req@).subrange(0, (n - i) as int),
            decreases i,
        {
            let c = text.get_char(i - 1);
            push_char(&mut rev, c);
            i = i - 1;
        }
        assert(rev@ =~= reversed(req@));
        Ok(rev)
    }
}

} // verus!
