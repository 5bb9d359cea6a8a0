use crate::encore::errors::OperationError;
use crate::encore::errors::OperationErrorView;
use vstd::prelude::*;

verus! {

/// An operation on byte strings.
pub trait Operation {
    /// Whether the operation takes an input. Only an input too long for its output to be laid
    /// out in memory is not taken.
    spec fn accepts(&self, input: Seq<u8>) -> bool;

    /// Tells whether the operation takes an input.
    fn is_accepted(&self, input: &[u8]) -> (b: bool)
        ensures
            b == self.accepts(input@),
    ;

    /// What the operation makes of an input: its output, or the error with which it fails.
    spec fn outcome(&self, input: Seq<u8>) -> Result<Seq<u8>, OperationErrorView>;

    /// Applies the operation to an input.
    fn execute(&self, input: &[u8]) -> (r: Result<Vec<u8>, OperationError>)
        requires
            self.accepts(input@),
        ensures
            match r {
                Ok(output) => self.outcome(input@) == Ok::<Seq<u8>, OperationErrorView>(output@),
                Err(e) => self.outcome(input@) == Err::<Seq<u8>, OperationErrorView>(e@),
            },
    ;
}

} // verus!
