//! Putting a machine together from a context and a program.

use vstd::prelude::*;

use crate::context::Context;
use crate::machine::{loaded_memory, Machine};
use crate::peach::Peach8;

verus! {

/// Collects what a machine is made of: the context that stands for the
/// platform, and the program.
pub struct Builder<'a, C: Context> {
    context: Option<C>,
    program: Option<&'a [u8]>,
}

impl<'a, C: Context> Builder<'a, C> {
    /// The context given so far.
    pub closed spec fn context(&self) -> Option<C> {
        self.context
    }

    /// The program given so far.
    pub closed spec fn program(&self) -> Option<Seq<u8>> {
        match self.program {
            Some(program) => Some(program@),
            None => None,
        }
    }

    /// A builder that has been given nothing yet.
    pub fn new() -> (builder: Self)
        ensures
            builder.context() is None,
            builder.program() is None,
    {
        Self { context: None, program: None }
    }

    /// Gives the context; an earlier one is replaced.
    pub fn with_context(self, ctx: C) -> (builder: Self)
        ensures
            builder.context() == Some(ctx),
            builder.program() == self.program(),
    {
        let mut builder = self;
        builder.context = Some(ctx);
        builder
    }

    /// Gives the program; an earlier one is replaced.
    pub fn with_program(self, prog: &'a [u8]) -> (builder: Self)
        ensures
            builder.context() == self.context(),
            builder.program() == Some(prog@),
    {
        let mut builder = self;
        builder.program = Some(prog);
        builder
    }

    /// The machine at rest, loaded with the program, that owns the
    /// context. A builder that lacks the context or the program is
    /// refused, and says which one it lacks; where it lacks both, the
    /// context.
    pub fn build(self) -> (built: Result<Peach8<C>, &'static str>)
        ensures
            built is Ok <==> self.context() is Some && self.program() is Some,
            built matches Ok(chip) ==> Some(chip.context()) == self.context() && chip@
                == Machine::fresh(loaded_memory(self.program()->Some_0)),
            built matches Err(reason) ==> reason@ == (if self.context() is None {
                "Context not provided"@
            } else {
                "Program not provided"@
            }),
    {
        let context = match self.context {
            Some(context) => context,
            None => {
                return Err("Context not provided");
            },
        };
        let program = match self.program {
            Some(program) => program,
            None => {
                return Err("Program not provided");
            },
        };
        Ok(Peach8::load(context, program))
    }
}

} // verus!
