//! Failures of the outside world, kept as the messages of their cause chain,
//! and the way a chain is printed.

use vstd::prelude::*;
use vstd::string::*;

verus! {

/// The views of the strings of `v`, in order.
pub open spec fn texts(v: Seq<String>) -> Seq<Seq<char>> {
    Seq::new(v.len(), |i: int| v[i]@)
}

/// The kinds of failure that a caller tells apart.
#[derive(Clone, Copy, Debug, PartialEq, Eq, Structural)]
pub enum FailureKind {
    /// The input was malformed; sending it again as it is cannot help.
    ValidationFailed,
    /// The token does not resolve to a subscriber.
    Unauthorized,
    /// The store reported an error.
    PersistenceFailed,
    /// The e-mail transport reported an error.
    DispatchFailed,
}

impl FailureKind {
    /// The HTTP status that stands for this kind of failure.
    pub open spec fn spec_status_code(self) -> u16 {
        match self {
            FailureKind::ValidationFailed => 400,
            FailureKind::Unauthorized => 401,
            FailureKind::PersistenceFailed => 500,
            FailureKind::DispatchFailed => 500,
        }
    }

    /// The HTTP status that stands for this kind of failure.
    #[verifier::when_used_as_spec(spec_status_code)]
    pub fn status_code(self) -> (code: u16)
        ensures
            code == self.spec_status_code(),
    {
        match self {
            FailureKind::ValidationFailed => 400,
            FailureKind::Unauthorized => 401,
            FailureKind::PersistenceFailed => 500,
            FailureKind::DispatchFailed => 500,
        }
    }
}

/// A failure reported by the store or by the e-mail transport: its own
/// message, then the messages of its causes, nearest first.
#[derive(Debug)]
pub struct Fault {
    pub message: String,
    pub causes: Vec<String>,
}

/// What a [`Fault`] says, as plain text.
pub struct FaultView {
    pub message: Seq<char>,
    pub causes: Seq<Seq<char>>,
}

impl FaultView {
    /// The whole chain: the message, then the causes.
    pub open spec fn chain(self) -> Seq<Seq<char>> {
        seq![self.message] + self.causes
    }

    /// The fault that reports `message` and has this one as its cause.
    pub open spec fn context(self, message: Seq<char>) -> FaultView {
        FaultView { message, causes: self.chain() }
    }
}

impl View for Fault {
    type V = FaultView;

    open spec fn view(&self) -> FaultView {
        FaultView { message: self.message@, causes: texts(self.causes@) }
    }
}

/// How a piece of outside work went, as plain text: done, or the fault that
/// stopped it.
pub open spec fn outcome_view(outcome: Result<(), Fault>) -> Result<(), FaultView> {
    match outcome {
        Ok(()) => Ok(()),
        Err(fault) => Err(fault@),
    }
}

/// A copy of `v`, string by string.
pub fn clone_strings(v: &Vec<String>) -> (r: Vec<String>)
    ensures
        texts(r@) == texts(v@),
{
    let mut r: Vec<String> = Vec::new();
    let mut i: usize = 0;
    while i < v.len()
        invariant
            i <= v.len(),
            r.len() == i,
            forall|j: int| 0 <= j < i ==> r[j]@ == v[j]@,
        decreases v.len() - i,
    {
        r.push(v[i].clone());
        i = i + 1;
    }
    assert(texts(r@) =~= texts(v@));
    r
}

impl Fault {
    /// A fault with a message and no known cause.
    pub fn new(message: String) -> (fault: Fault)
        ensures
            fault@ == (FaultView { message: message@, causes: Seq::empty() }),
    {
        let fault = Fault { message, causes: Vec::new() };
        assert(texts(fault.causes@) =~= Seq::<Seq<char>>::empty());
        fault
    }

    /// Wraps the fault: the result reports `message` and has `self` as its cause.
    pub fn context(self, message: String) -> (fault: Fault)
        ensures
            fault@ == self@.context(message@),
    {
        let mut causes: Vec<String> = Vec::new();
        causes.push(self.message);
        let mut i: usize = 0;
        while i < self.causes.len()
            invariant
                i <= self.causes.len(),
                causes.len() == i + 1,
                causes[0]@ == self.message@,
                forall|j: int| 0 <= j < i ==> causes[j + 1]@ == self.causes[j]@,
            decreases self.causes.len() - i,
        {
            causes.push(self.causes[i].clone());
            i = i + 1;
        }
        let fault = Fault { message, causes };
        assert(texts(fault.causes@) =~= self@.chain());
        fault
    }

    /// The whole chain: the message, then the causes.
    pub fn chain(&self) -> (chain: Vec<String>)
        ensures
            texts(chain@) == self@.chain(),
    {
        let mut chain: Vec<String> = Vec::new();
        chain.push(self.message.clone());
        let mut i: usize = 0;
        while i < self.causes.len()
            invariant
                i <= self.causes.len(),
                chain.len() == i + 1,
                chain[0]@ == self.message@,
                forall|j: int| 0 <= j < i ==> chain[j + 1]@ == self.causes[j]@,
            decreases self.causes.len() - i,
        {
            chain.push(self.causes[i].clone());
            i = i + 1;
        }
        assert(texts(chain@) =~= self@.chain());
        chain
    }
}

impl Clone for Fault {
    fn clone(&self) -> (r: Self)
        ensures
            r@ == self@,
    {
        Fault { message: self.message.clone(), causes: clone_strings(&self.causes) }
    }
}

/// One entry of a printed chain: the words "Caused by:", then the cause,
/// indented, on a line of its own.
pub open spec fn cause_entry(cause: Seq<char>) -> Seq<char> {
    "Caused by:\n\t"@ + cause + "\n"@
}

/// The entries of the first `n` causes, one after the other.
pub open spec fn cause_entries(causes: Seq<Seq<char>>, n: int) -> Seq<char>
    decreases n,
{
    if n <= 0 {
        Seq::empty()
    } else {
        cause_entries(causes, n - 1) + cause_entry(causes[n - 1])
    }
}

/// A printed chain: the message, an empty line, then one entry for each cause.
pub open spec fn error_chain(message: Seq<char>, causes: Seq<Seq<char>>) -> Seq<char> {
    message + "\n\n"@ + cause_entries(causes, causes.len() as int)
}

/// Prints an error with everything that led to it: the message, an empty
/// line, and "Caused by:" with each cause in turn, nearest first.
pub fn error_chain_fmt(message: &str, causes: &Vec<String>) -> (out: String)
    ensures
        out@ == error_chain(message@, texts(causes@)),
{
    let mut out = String::from_str(message);
    out.append("\n\n");
    let ghost head = out@;
    let mut i: usize = 0;
    while i < causes.len()
        invariant
            i <= causes.len(),
            out@ == head + cause_entries(texts(causes@), i as int),
        decreases causes.len() - i,
    {
        proof {
            assert(texts(causes@)[i as int] == causes[i as int]@);
        }
        let ghost before = out@;
        out.append("Caused by:\n\t");
        out.append(causes[i].as_str());
        out.append("\n");
        proof {
            assert(out@ =~= before + cause_entry(causes[i as int]@));
            assert(cause_entries(texts(causes@), i + 1) == cause_entries(texts(causes@), i as int)
                + cause_entry(texts(causes@)[i as int]));
            assert(out@ =~= head + cause_entries(texts(causes@), i + 1));
        }
        i = i + 1;
    }
    out
}

} // verus!
