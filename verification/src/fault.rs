//! Failures with the context they passed through.
use vstd::prelude::*;

use crate::text::texts;

verus! {

/// A failure: its messages, the outermost context first and the cause last.
///
/// A failure that a caller hands in (an operating-system error, the output of a
/// command) keeps its own messages; every step that fails because of it puts
/// one message in front.
#[derive(Debug, PartialEq, Eq)]
pub struct Fault {
    pub messages: Vec<String>,
}

impl View for Fault {
    type V = Seq<Seq<char>>;

    open spec fn view(&self) -> Seq<Seq<char>> {
        texts(self.messages@)
    }
}

/// The messages joined by a colon and a space.
pub open spec fn joined(messages: Seq<Seq<char>>) -> Seq<char>
    decreases messages.len(),
{
    if messages.len() == 0 {
        Seq::empty()
    } else if messages.len() == 1 {
        messages[0]
    } else {
        joined(messages.drop_last()) + ": "@ + messages.last()
    }
}

/// The outermost of a failure's messages.
pub open spec fn headline_of(messages: Seq<Seq<char>>) -> Seq<char> {
    if messages.len() == 0 {
        Seq::empty()
    } else {
        messages[0]
    }
}

impl Fault {
    /// A failure with one message.
    pub fn of(message: &str) -> (r: Self)
        ensures
            r@ == seq![message@],
    {
        Self::from_text(message.to_owned())
    }

    /// A failure with one message.
    pub fn from_text(message: String) -> (r: Self)
        ensures
            r@ == seq![message@],
    {
        let mut messages: Vec<String> = Vec::new();
        messages.push(message);
        let r = Fault { messages };
        assert(r@ =~= seq![message@]);
        r
    }

    /// A failure with the words of its cause.
    pub fn because(message: &str, cause: String) -> (r: Self)
        ensures
            r@ == seq![message@, cause@],
    {
        let r = Self::from_text(cause).within(message);
        assert(r@ =~= seq![message@, cause@]);
        r
    }

    /// The same failure, with a message put in front.
    pub fn context(self, message: String) -> (r: Self)
        ensures
            r@ == seq![message@] + self@,
    {
        let mut messages: Vec<String> = self.messages;
        messages.insert(0, message);
        let r = Fault { messages };
        assert(r@ =~= seq![message@] + self@);
        r
    }

    /// The same failure, with a message put in front.
    pub fn within(self, message: &str) -> (r: Self)
        ensures
            r@ == seq![message@] + self@,
    {
        self.context(message.to_owned())
    }

    /// The outermost message.
    pub fn headline(&self) -> (r: String)
        ensures
            r@ == headline_of(self@),
    {
        if self.messages.len() == 0 {
            String::new()
        } else {
            self.messages[0].clone()
        }
    }

    /// Every message, the outermost first.
    pub fn detail(&self) -> (r: String)
        ensures
            r@ == joined(self@),
    {
        let mut out = String::new();
        let mut i: usize = 0;
        assert(self@.take(0) =~= Seq::empty());
        while i < self.messages.len()
            invariant
                i <= self.messages@.len(),
                out@ == joined(self@.take(i as int)),
            decreases self.messages@.len() - i,
        {
            if i > 0 {
                out.append(": ");
            }
            out.append(self.messages[i].as_str());
            i = i + 1;
            proof {
                let now = self@.take(i as int);
                assert(now.drop_last() =~= self@.take(i - 1));
                assert(now.last() == self.messages@[i - 1]@);
                if i == 1 {
                    assert(joined(self@.take(0)) =~= Seq::empty());
                    assert(out@ =~= now[0]);
                }
            }
        }
        assert(self@.take(i as int) =~= self@);
        out
    }
}

/// Two parts of a message.
pub fn join2(a: &str, b: &str) -> (r: String)
    ensures
        r@ == a@ + b@,
{
    let mut out = a.to_owned();
    out.append(b);
    out
}

/// Three parts of a message.
pub fn join3(a: &str, b: &str, c: &str) -> (r: String)
    ensures
        r@ == a@ + b@ + c@,
{
    let mut out = join2(a, b);
    out.append(c);
    out
}

/// Four parts of a message.
pub fn join4(a: &str, b: &str, c: &str, d: &str) -> (r: String)
    ensures
        r@ == a@ + b@ + c@ + d@,
{
    let mut out = join3(a, b, c);
    out.append(d);
    out
}

/// Five parts of a message.
pub fn join5(a: &str, b: &str, c: &str, d: &str, e: &str) -> (r: String)
    ensures
        r@ == a@ + b@ + c@ + d@ + e@,
{
    let mut out = join4(a, b, c, d);
    out.append(e);
    out
}

} // verus!
