//! Errors that remember what caused them.

use vstd::prelude::*;
use vstd::string::*;

verus! {

/// What stands between two links of a rendered chain.
pub open spec fn cause_separator() -> Seq<char> {
    "\nCaused by:\n\t"@
}

/// The rendering of the causes in `causes`, each behind a separator.
pub open spec fn render_causes(causes: Seq<Seq<char>>) -> Seq<char>
    decreases causes.len(),
{
    if causes.len() == 0 {
        Seq::empty()
    } else {
        render_causes(causes.drop_last()) + cause_separator() + causes.last()
    }
}

/// The rendering of a whole chain: its first message, then every cause.
pub open spec fn render_chain(chain: Seq<Seq<char>>) -> Seq<char>
    recommends
        chain.len() > 0,
{
    chain[0] + render_causes(chain.skip(1))
}

/// The text of each string of `strings`, in order.
pub open spec fn texts_of(strings: Seq<String>) -> Seq<Seq<char>> {
    Seq::new(strings.len(), |i: int| strings[i]@)
}

/// An error with the chain of errors that led to it.
///
/// `message` says what was being attempted; `causes` holds the underlying
/// errors, the nearest cause first and the root cause last. Nothing is dropped
/// when context is added.
#[derive(Debug)]
pub struct ErrorChain {
    pub message: String,
    pub causes: Vec<String>,
}

impl View for ErrorChain {
    type V = Seq<Seq<char>>;

    /// The messages from the outermost to the root cause.
    open spec fn view(&self) -> Seq<Seq<char>> {
        seq![self.message@] + texts_of(self.causes@)
    }
}

impl ErrorChain {
    /// An error without a cause.
    pub fn new(message: &str) -> (chain: ErrorChain)
        ensures
            chain@ == seq![message@],
    {
        let chain = ErrorChain { message: String::from_str(message), causes: Vec::new() };
        assert(chain@ =~= seq![message@]);
        chain
    }

    /// An error with the given causes, the nearest first.
    pub fn from_parts(message: String, causes: Vec<String>) -> (chain: ErrorChain)
        ensures
            chain@ == seq![message@] + texts_of(causes@),
    {
        ErrorChain { message, causes }
    }

    /// Wraps the error in a new outermost message; the old chain follows it whole.
    pub fn context(self, message: &str) -> (chain: ErrorChain)
        ensures
            chain@ == seq![message@] + self@,
    {
        let ghost before = self@;
        let ErrorChain { message: inner, causes } = self;
        let mut causes = causes;
        causes.insert(0, inner);
        let chain = ErrorChain { message: String::from_str(message), causes };
        assert(chain@ =~= seq![message@] + before);
        chain
    }

    /// The outermost message.
    pub fn message(&self) -> (m: &str)
        ensures
            m@ == self@[0],
    {
        self.message.as_str()
    }

    /// A copy of the chain.
    pub fn duplicate(&self) -> (chain: ErrorChain)
        ensures
            chain@ == self@,
    {
        let mut causes: Vec<String> = Vec::new();
        let mut i: usize = 0;
        while i < self.causes.len()
            invariant
                i <= self.causes.len(),
                causes@.len() == i,
                forall|j: int| 0 <= j < i ==> (#[trigger] causes@[j])@ == self.causes@[j]@,
            decreases self.causes.len() - i,
        {
            causes.push(self.causes[i].clone());
            i += 1;
        }
        let chain = ErrorChain { message: self.message.clone(), causes };
        assert(chain@ =~= self@);
        chain
    }

    /// The whole chain as text: the outermost message, then each cause on a
    /// line of its own under `Caused by:`.
    pub fn render(&self) -> (text: String)
        ensures
            text@ == render_chain(self@),
    {
        let mut text = self.message.clone();
        let mut i: usize = 0;
        assert(self@.skip(1) =~= texts_of(self.causes@));
        assert(texts_of(self.causes@).take(0) =~= Seq::empty());
        while i < self.causes.len()
            invariant
                i <= self.causes.len(),
                text@ == self.message@ + render_causes(texts_of(self.causes@).take(i as int)),
            decreases self.causes.len() - i,
        {
            let ghost all = texts_of(self.causes@);
            assert(all.take(i + 1).drop_last() =~= all.take(i as int));
            assert(all.take(i + 1).last() == self.causes@[i as int]@);
            text.append("\nCaused by:\n\t");
            text.append(self.causes[i].as_str());
            i += 1;
        }
        assert(texts_of(self.causes@).take(i as int) =~= texts_of(self.causes@));
        text
    }
}

} // verus!
