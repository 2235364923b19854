//! Recognising a running editor and the project it has open.
use crate::text::same_text;
use crate::ProcessId;
use vstd::prelude::*;

verus! {

/// A running editor and the project it has open.
pub struct UnityProcess {
    pid: ProcessId,
    project_path: String,
}

impl UnityProcess {
    pub closed spec fn spec_pid(&self) -> ProcessId {
        self.pid
    }

    pub closed spec fn spec_project_path(&self) -> Seq<char> {
        self.project_path@
    }

    pub fn new(pid: ProcessId, project_path: String) -> (r: Self)
        ensures
            r.spec_pid() == pid,
            r.spec_project_path() == project_path@,
    {
        UnityProcess { pid, project_path }
    }

    pub fn pid(&self) -> (r: ProcessId)
        ensures
            r == self.spec_pid(),
    {
        self.pid
    }

    pub fn project_path(&self) -> (r: &str)
        ensures
            r@ == self.spec_project_path(),
    {
        self.project_path.as_str()
    }
}

pub open spec fn has_arg(args: Seq<String>, flag: Seq<char>) -> bool {
    exists|i: int| 0 <= i < args.len() && #[trigger] args[i]@ == flag
}

/// `p` is the first position of `flag` in `args`.
pub open spec fn first_arg(args: Seq<String>, flag: Seq<char>, p: int) -> bool {
    &&& 0 <= p < args.len()
    &&& args[p]@ == flag
    &&& forall|q: int| 0 <= q < p ==> #[trigger] args[q]@ != flag
}

/// The project that an editor's command line opens: the argument after the
/// first `-projectPath`. A command line with `-srvPort` belongs to an
/// asset import worker, not to an editor, and gives none.
pub fn editor_project_path(args: &Vec<String>) -> (r: Option<String>)
    ensures
        match r {
            Some(path) => !has_arg(args@, "-srvPort"@) && exists|p: int|
                first_arg(args@, "-projectPath"@, p) && p + 1 < args@.len() && path@ == args@[p
                    + 1]@,
            None => has_arg(args@, "-srvPort"@) || !has_arg(args@, "-projectPath"@) || forall|
                p: int,
            | first_arg(args@, "-projectPath"@, p) ==> p + 1 == args@.len(),
        },
{
    let n = args.len();
    let mut i: usize = 0;
    while i < n
        invariant
            n == args@.len(),
            i <= n,
            forall|k: int| 0 <= k < i ==> #[trigger] args@[k]@ != "-srvPort"@,
        decreases n - i,
    {
        if same_text(args[i].as_str(), "-srvPort") {
            return None;
        }
        i = i + 1;
    }
    let mut j: usize = 0;
    while j < n
        invariant
            n == args@.len(),
            j <= n,
            !has_arg(args@, "-srvPort"@),
            forall|k: int| 0 <= k < j ==> #[trigger] args@[k]@ != "-projectPath"@,
        decreases n - j,
    {
        if same_text(args[j].as_str(), "-projectPath") {
            assert(first_arg(args@, "-projectPath"@, j as int));
            if j + 1 < n {
                return Some(args[j + 1].clone());
            }
            assert forall|p: int| first_arg(args@, "-projectPath"@, p) implies p + 1 == args@.len() by {
                if p < j {
                    assert(args@[p]@ != "-projectPath"@);
                } else if p > j {
                    assert(args@[j as int]@ == "-projectPath"@);
                }
            }
            return None;
        }
        j = j + 1;
    }
    None
}

} // verus!
