use vstd::prelude::*;

verus! {

/// A reversible unit of work.
///
/// The invoker knows nothing of a command but its two actions. Either action may have
/// effects outside the program's values, so neither is a function of the command: the two
/// predicates say which results a call may yield, and every call yields one of them.
/// Both actions can be called at any time and any number of times.
pub trait CommandTrait<R, E, U>: Send + Sync {
    /// Whether the forward action may yield `result`. Unless a command says more,
    /// any result is possible.
    open spec fn exec_outcome(&self, result: Result<R, E>) -> bool {
        true
    }

    /// Whether the compensating action may yield `result`. Unless a command says more,
    /// any result is possible.
    open spec fn unexec_outcome(&self, result: Result<(), U>) -> bool {
        true
    }

    /// Performs the forward action.
    fn execute(&self) -> (result: Result<R, E>)
        ensures
            self.exec_outcome(result),
    ;

    /// Performs the compensating action.
    fn unexecute(&self) -> (result: Result<(), U>)
        ensures
            self.unexec_outcome(result),
    ;
}

/// A command of any concrete type, as an invoker takes and keeps it.
///
/// Commands of different types that agree on `R`, `E` and `U` can share one invoker.
#[verifier::reject_recursive_types(R)]
#[verifier::reject_recursive_types(E)]
#[verifier::reject_recursive_types(U)]
pub struct AnyCommand<R, E, U = E>(pub Box<dyn CommandTrait<R, E, U>>);

impl<R, E, U> CommandTrait<R, E, U> for AnyCommand<R, E, U> {
    open spec fn exec_outcome(&self, result: Result<R, E>) -> bool {
        self.0.exec_outcome(result)
    }

    open spec fn unexec_outcome(&self, result: Result<(), U>) -> bool {
        self.0.unexec_outcome(result)
    }

    fn execute(&self) -> (result: Result<R, E>)
        ensures
            self.0.exec_outcome(result),
    {
        self.0.execute()
    }

    fn unexecute(&self) -> (result: Result<(), U>)
        ensures
            self.0.unexec_outcome(result),
    {
        self.0.unexecute()
    }
}

/// Something that can be called without arguments, repeatedly and from any thread.
///
/// Every closure and function that takes no argument and is `Send + Sync` is a callback.
pub trait Callback: Send + Sync {
    type Output;

    /// Whether the callback may be called.
    spec fn callable(&self) -> bool;

    /// Whether a call may return `output`.
    spec fn yields(&self, output: Self::Output) -> bool;

    /// Calls the callback once.
    fn run(&self) -> (output: Self::Output)
        requires
            self.callable(),
        ensures
            self.yields(output),
    ;
}

impl<T, F: Fn() -> T + Send + Sync> Callback for F {
    type Output = T;

    open spec fn callable(&self) -> bool {
        call_requires(*self, ())
    }

    open spec fn yields(&self, output: T) -> bool {
        call_ensures(*self, (), output)
    }

    fn run(&self) -> (output: T) {
        self()
    }
}

/// A command made of two callbacks: `forward` does the work, `backward` compensates it.
///
/// Both callbacks are callable: `new` asks for it, and nothing can change them afterwards.
pub struct Command<X: Callback, Y: Callback> {
    forward: X,
    backward: Y,
}

impl<X: Callback, Y: Callback> Command<X, Y> {
    #[verifier::type_invariant]
    spec fn both_callable(self) -> bool {
        self.forward.callable() && self.backward.callable()
    }

    /// The callback that does the work.
    pub closed spec fn forward(self) -> X {
        self.forward
    }

    /// The callback that compensates the work.
    pub closed spec fn backward(self) -> Y {
        self.backward
    }

    /// Makes a command of the two callbacks.
    pub fn new(forward: X, backward: Y) -> (command: Self)
        requires
            forward.callable(),
            backward.callable(),
        ensures
            command.forward() == forward,
            command.backward() == backward,
    {
        Command { forward, backward }
    }
}

impl<R, E, U, X, Y> CommandTrait<R, E, U> for Command<X, Y> where
    X: Callback<Output = Result<R, E>>,
    Y: Callback<Output = Result<(), U>>,
 {
    open spec fn exec_outcome(&self, result: Result<R, E>) -> bool {
        self.forward().yields(result)
    }

    open spec fn unexec_outcome(&self, result: Result<(), U>) -> bool {
        self.backward().yields(result)
    }

    fn execute(&self) -> (result: Result<R, E>)
        ensures
            self.forward().yields(result),
    {
        proof {
            use_type_invariant(self);
        }
        self.forward.run()
    }

    fn unexecute(&self) -> (result: Result<(), U>)
        ensures
            self.backward().yields(result),
    {
        proof {
            use_type_invariant(self);
        }
        self.backward.run()
    }
}

} // verus!
