use vstd::prelude::*;
use vstd::string::*;

verus! {

/// What a bulk operation does to each chosen path.
#[derive(Clone, Copy, Debug, PartialEq, Eq, Structural)]
pub enum Operation {
    Move,
    Copy,
    Delete,
}

/// One run of an outside command: the program and its arguments.
pub struct Invocation {
    pub program: String,
    pub args: Vec<String>,
}

/// What one run of a command gave back: its exit status and its error output,
/// as text.
pub struct Outcome {
    pub status: String,
    pub stderr: String,
}

/// The program that carries out `op`.
pub open spec fn program_of(op: Operation) -> Seq<char> {
    match op {
        Operation::Move => seq!['m', 'v'],
        Operation::Copy => seq!['c', 'p'],
        Operation::Delete => seq!['r', 'm'],
    }
}

/// The arguments that carry out `op` on `source`: the destination follows the
/// source for a move or a copy; a delete takes the source alone.
pub open spec fn args_of(op: Operation, source: Seq<char>, dest: Seq<char>) -> Seq<Seq<char>> {
    match op {
        Operation::Delete => seq![source],
        _ => seq![source, dest],
    }
}

/// The log line of one run: the path, then the status, then the error output.
pub open spec fn line_of(source: Seq<char>, status: Seq<char>, stderr: Seq<char>) -> Seq<char> {
    source + seq![':', ' '] + status + seq![',', ' '] + stderr
}

/// The log line of a run that names no path: the status, then the error output.
pub open spec fn status_line_of(status: Seq<char>, stderr: Seq<char>) -> Seq<char> {
    status + seq![',', ' '] + stderr
}

impl Invocation {
    /// This run carries out `op` on `source` with `dest` as destination.
    pub open spec fn carries_out(&self, op: Operation, source: Seq<char>, dest: Seq<char>) -> bool {
        &&& self.program@ == program_of(op)
        &&& self.args@.map_values(|a: String| a@) == args_of(op, source, dest)
    }
}

/// The command that carries out `op` on `source`, with `dest` as destination.
pub fn invocation(op: Operation, source: &String, dest: &String) -> (r: Invocation)
    ensures
        r.carries_out(op, source@, dest@),
{
    let program = match op {
        Operation::Move => String::from_str("mv"),
        Operation::Copy => String::from_str("cp"),
        Operation::Delete => String::from_str("rm"),
    };
    proof {
        reveal_strlit("mv");
        reveal_strlit("cp");
        reveal_strlit("rm");
    }
    assert(program@ =~= program_of(op));
    let mut args: Vec<String> = Vec::new();
    args.push(source.clone());
    match op {
        Operation::Delete => {},
        _ => args.push(dest.clone()),
    }
    let r = Invocation { program, args };
    assert(r.args@.map_values(|a: String| a@) =~= args_of(op, source@, dest@));
    r
}

/// The commands that carry out `op` on each chosen path in turn, in the order
/// of the choice, with `dest` as destination.
pub fn plan(op: Operation, chosen: &Vec<String>, dest: &String) -> (r: Vec<Invocation>)
    ensures
        r@.len() == chosen@.len(),
        forall|i: int| 0 <= i < r@.len() ==> #[trigger] r@[i].carries_out(op, chosen@[i]@, dest@),
{
    let mut r: Vec<Invocation> = Vec::new();
    let mut i: usize = 0;
    while i < chosen.len()
        invariant
            i <= chosen@.len(),
            r@.len() == i,
            forall|j: int| 0 <= j < i ==> #[trigger] r@[j].carries_out(op, chosen@[j]@, dest@),
        decreases chosen.len() - i,
    {
        r.push(invocation(op, &chosen[i], dest));
        i = i + 1;
    }
    r
}

/// The log line of one run on `source`.
pub fn log_line(source: &String, outcome: &Outcome) -> (r: String)
    ensures
        r@ == line_of(source@, outcome.status@, outcome.stderr@),
{
    let mut r = source.clone();
    r.append(": ");
    r.append(outcome.status.as_str());
    r.append(", ");
    r.append(outcome.stderr.as_str());
    proof {
        reveal_strlit(": ");
        reveal_strlit(", ");
    }
    assert(r@ =~= line_of(source@, outcome.status@, outcome.stderr@));
    r
}

/// The log line of one run, without its path.
pub fn status_line(outcome: &Outcome) -> (r: String)
    ensures
        r@ == status_line_of(outcome.status@, outcome.stderr@),
{
    let mut r = outcome.status.clone();
    r.append(", ");
    r.append(outcome.stderr.as_str());
    proof {
        reveal_strlit(", ");
    }
    assert(r@ =~= status_line_of(outcome.status@, outcome.stderr@));
    r
}

} // verus!
