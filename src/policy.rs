use vstd::prelude::*;

verus! {

/// How one of the child's output streams is handled. `H` is an already-open
/// handle owned by the caller (a file, on the platforms that have them).
pub enum Output<H> {
    /// The stream passes through to the parent's own.
    Parent,
    /// The stream goes to the null device.
    Ignore,
    /// The stream is wired directly to the open handle; the parent copies
    /// nothing.
    ToFd(H),
}

/// The policies for the child's stdout and stderr, chosen independently.
pub struct DealWithOutput<H> {
    pub stderr: Output<H>,
    pub stdout: Output<H>,
}

/// Both streams passed through to the parent.
pub fn output<H>() -> (r: DealWithOutput<H>)
    ensures
        r.stdout is Parent,
        r.stderr is Parent,
{
    DealWithOutput { stdout: Output::Parent, stderr: Output::Parent }
}

impl<H> DealWithOutput<H> {
    /// Sets the stderr policy, keeping the stdout policy.
    pub fn stderr(&mut self, stderr: Output<H>) -> (r: &mut Self)
        ensures
            *r == (DealWithOutput { stderr: stderr, stdout: old(self).stdout }),
            *final(self) == *final(r),
    {
        self.stderr = stderr;
        self
    }

    /// Sets the stdout policy, keeping the stderr policy.
    pub fn stdout(&mut self, stdout: Output<H>) -> (r: &mut Self)
        ensures
            *r == (DealWithOutput { stderr: old(self).stderr, stdout: stdout }),
            *final(self) == *final(r),
    {
        self.stdout = stdout;
        self
    }
}

/// The arguments of a child whose stdout is handed back to the caller: the
/// stderr policy and, optionally, a source to feed to the child's stdin.
pub struct ProcessReaderArgs<R, H> {
    stderr: Output<H>,
    stdin: Option<R>,
}

/// No input, stderr passed through to the parent.
pub fn process_reader_args<R, H>() -> (r: ProcessReaderArgs<R, H>)
    ensures
        r.stderr_policy() is Parent,
        r.input() is None,
{
    ProcessReaderArgs { stderr: Output::Parent, stdin: None }
}

impl<R, H> ProcessReaderArgs<R, H> {
    /// The stderr policy.
    pub closed spec fn stderr_policy(&self) -> Output<H> {
        self.stderr
    }

    /// The source to feed to the child's stdin, if any.
    pub closed spec fn input(&self) -> Option<R> {
        self.stdin
    }

    /// Sets the stderr policy, keeping the input.
    pub fn stderr(&mut self, stderr: Output<H>) -> (r: &mut Self)
        ensures
            r.stderr_policy() == stderr,
            r.input() == old(self).input(),
            *final(self) == *final(r),
    {
        self.stderr = stderr;
        self
    }

    /// Sets the source to feed to the child's stdin, keeping the stderr policy.
    pub fn stdin(&mut self, stdin: R) -> (r: &mut Self)
        ensures
            r.stderr_policy() == old(self).stderr_policy(),
            r.input() == Some(stdin),
            *final(self) == *final(r),
    {
        self.stdin = Some(stdin);
        self
    }

    /// Leaves the arguments as they are.
    pub fn default(&mut self) -> (r: &mut Self)
        ensures
            *r == *old(self),
            *final(self) == *final(r),
    {
        self
    }

    /// The stderr policy.
    pub fn stderr_output(&self) -> (r: &Output<H>)
        ensures
            *r == self.stderr_policy(),
    {
        &self.stderr
    }

    /// Moves the input source out, leaving none behind.
    pub fn take_stdin(&mut self) -> (r: Option<R>)
        ensures
            r == old(self).input(),
            final(self).input() is None,
            final(self).stderr_policy() == old(self).stderr_policy(),
    {
        self.stdin.take()
    }
}

/// How one of the child's standard streams is set up before it is started.
pub enum Wiring<T> {
    /// Shared with the parent.
    Inherit,
    /// Bound to the null device.
    Null,
    /// A pipe whose other end the parent keeps.
    Piped,
    /// Bound directly to an open handle of the caller.
    Handle(T),
}

/// How the three standard streams of a child are set up before it is started.
pub struct LaunchPlan<T> {
    pub stdin: Wiring<T>,
    pub stdout: Wiring<T>,
    pub stderr: Wiring<T>,
}

/// The setup that an output policy asks for.
pub open spec fn policy_wiring<H>(o: &Output<H>) -> Wiring<&H> {
    match o {
        Output::Parent => Wiring::Inherit,
        Output::Ignore => Wiring::Null,
        Output::ToFd(h) => Wiring::Handle(h),
    }
}

/// The setup of an output stream under its policy.
pub fn output_wiring<'a, H>(o: &'a Output<H>) -> (r: Wiring<&'a H>)
    ensures
        r == policy_wiring(o),
{
    match o {
        Output::Parent => Wiring::Inherit,
        Output::Ignore => Wiring::Null,
        Output::ToFd(h) => Wiring::Handle(h),
    }
}

/// The setup of a child that consumes an input: stdin is a pipe that the
/// input is fed into, stdout and stderr follow their policies.
pub fn consumer_plan<'a, H>(deal_with: &'a DealWithOutput<H>) -> (r: LaunchPlan<&'a H>)
    ensures
        r.stdin is Piped,
        r.stdout == policy_wiring(&deal_with.stdout),
        r.stderr == policy_wiring(&deal_with.stderr),
{
    LaunchPlan {
        stdin: Wiring::Piped,
        stdout: output_wiring(&deal_with.stdout),
        stderr: output_wiring(&deal_with.stderr),
    }
}

/// The setup of a child whose stdout the caller reads: stdout is a pipe,
/// stdin is a pipe exactly when an input is to be fed and is shared with the
/// parent otherwise, and stderr follows its policy.
pub fn reader_plan<'a, H>(stderr: &'a Output<H>, has_stdin: bool) -> (r: LaunchPlan<&'a H>)
    ensures
        r.stdin == (if has_stdin { Wiring::<&H>::Piped } else { Wiring::Inherit }),
        r.stdout is Piped,
        r.stderr == policy_wiring(stderr),
{
    LaunchPlan {
        stdin: if has_stdin { Wiring::Piped } else { Wiring::Inherit },
        stdout: Wiring::Piped,
        stderr: output_wiring(stderr),
    }
}

} // verus!
