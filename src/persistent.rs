//! The persistent Python interpreter: one kernel per user, and the script
//! that carries a user's names from one execution to the next.
use vstd::prelude::*;

use crate::config::same_text;
use crate::text::{chars_of, concat3, string_from_chars};

verus! {

/// A user's kernel.
#[derive(Clone, Debug)]
pub struct KernelInfo {
    /// Short (unhyphenated) id of the kernel.
    pub kernel_id: String,
    pub user_id: String,
    pub container_id: String,
}

/// `'` and `\` escaped with a backslash, so the text fits in a Python
/// single-quoted string.
pub open spec fn escape_char(c: char) -> Seq<char> {
    if c == '\\' {
        seq!['\\', '\\']
    } else if c == '\'' {
        seq!['\\', '\'']
    } else {
        seq![c]
    }
}

pub open spec fn quote_escaped(s: Seq<char>) -> Seq<char>
    decreases s.len(),
{
    if s.len() == 0 {
        Seq::empty()
    } else {
        quote_escaped(s.drop_last()) + escape_char(s.last())
    }
}

/// The code with `\\` and `'` escaped.
fn escape_quotes(code: &str) -> (r: String)
    ensures
        r@ == quote_escaped(code@),
{
    let chars = chars_of(code);
    let mut out: Vec<char> = Vec::new();
    let mut i: usize = 0;
    while i < chars.len()
        invariant
            chars@ == code@,
            i <= chars@.len(),
            out@ == quote_escaped(chars@.take(i as int)),
        decreases chars@.len() - i,
    {
        let c = chars[i];
        proof {
            assert(chars@.take(i + 1).drop_last() =~= chars@.take(i as int));
            assert(chars@.take(i + 1).last() == c);
        }
        if c == '\\' {
            out.push('\\');
            out.push('\\');
        } else if c == '\'' {
            out.push('\\');
            out.push('\'');
        } else {
            out.push(c);
        }
        assert(out@ =~= quote_escaped(chars@.take(i + 1)));
        i = i + 1;
    }
    assert(chars@.take(chars@.len() as int) =~= chars@);
    string_from_chars(&out)
}

/// Script text before the namespace path.
pub const SCRIPT_HEAD: &'static str = "
import sys
import pickle
import os

namespace_file = '";

/// Script text between the namespace path and the user's code.
pub const SCRIPT_MIDDLE: &'static str = "'

# Load existing namespace if available
if os.path.exists(namespace_file):
    try:
        with open(namespace_file, 'rb') as f:
            saved_ns = pickle.load(f)
        globals().update(saved_ns)
    except:
        pass

# Execute user code
try:
    exec('''";

/// Script text after the user's code.
pub const SCRIPT_TAIL: &'static str = "''', globals())
except Exception as e:
    print(f'Error: {e}', file=sys.stderr)
    raise

# Save namespace (excluding builtins and modules)
save_ns = {k: v for k, v in globals().items()
           if not k.startswith('_') and
           not isinstance(v, type(sys)) and
           k not in ['sys', 'pickle', 'os']}

with open(namespace_file, 'wb') as f:
    pickle.dump(save_ns, f)
";

/// Where a kernel keeps its pickled names: `/tmp/namespace_<kernel id>.py`.
pub open spec fn namespace_path(kernel_id: Seq<char>) -> Seq<char> {
    "/tmp/namespace_"@ + kernel_id + ".py"@
}

/// The script that loads the kernel's names, runs the code with them, and
/// saves the non-private, non-module names back.
pub open spec fn kernel_script(kernel_id: Seq<char>, code: Seq<char>) -> Seq<char> {
    SCRIPT_HEAD@ + namespace_path(kernel_id) + SCRIPT_MIDDLE@ + quote_escaped(code) + SCRIPT_TAIL@
}

pub fn namespace_file(kernel: &KernelInfo) -> (r: String)
    ensures
        r@ == namespace_path(kernel.kernel_id@),
{
    concat3("/tmp/namespace_", kernel.kernel_id.as_str(), ".py")
}

/// The wrapped script for running `code` in the kernel.
pub fn wrap_code(kernel: &KernelInfo, code: &str) -> (r: String)
    ensures
        r@ == kernel_script(kernel.kernel_id@, code@),
{
    let ns = namespace_file(kernel);
    let escaped = escape_quotes(code);
    let head = concat3(SCRIPT_HEAD, ns.as_str(), SCRIPT_MIDDLE);
    concat3(head.as_str(), escaped.as_str(), SCRIPT_TAIL)
}

/// The shell command that writes `script` to `path` inside the container.
pub fn write_script_command(path: &str, script: &str) -> (r: String)
    ensures
        r@ == "cat > "@ + path@ + " << 'EOFPYTHON'\n"@ + script@ + "\nEOFPYTHON"@,
{
    let head = concat3("cat > ", path, " << 'EOFPYTHON'\n");
    concat3(head.as_str(), script, "\nEOFPYTHON")
}

/// Index of the user's kernel.
pub open spec fn kernel_index(k: Seq<KernelInfo>, user_id: Seq<char>) -> Option<int> {
    if exists|i: int| 0 <= i < k.len() && k[i].user_id@ == user_id {
        Some(choose|i: int| 0 <= i < k.len() && k[i].user_id@ == user_id)
    } else {
        None
    }
}

/// The kernels, one per user.
pub struct PersistentKernelManager {
    kernels: Vec<KernelInfo>,
}

impl PersistentKernelManager {
    pub closed spec fn spec_kernels(&self) -> Seq<KernelInfo> {
        self.kernels@
    }

    /// One kernel per user.
    pub open spec fn wf(&self) -> bool {
        forall|i: int, j: int|
            0 <= i < j < self.spec_kernels().len() ==> (#[trigger] self.spec_kernels()[i]).user_id@
                != (#[trigger] self.spec_kernels()[j]).user_id@
    }

    pub fn new() -> (r: PersistentKernelManager)
        ensures
            r.wf(),
            r.spec_kernels().len() == 0,
    {
        PersistentKernelManager { kernels: Vec::new() }
    }

    fn position(&self, user_id: &str) -> (r: Option<usize>)
        requires
            self.wf(),
        ensures
            match kernel_index(self.spec_kernels(), user_id@) {
                Some(i) => r is Some && r.unwrap() as int == i,
                None => r is None,
            },
            r is Some ==> r.unwrap() < self.spec_kernels().len(),
    {
        let mut i: usize = 0;
        while i < self.kernels.len()
            invariant
                self.wf(),
                i <= self.kernels@.len(),
                forall|j: int| 0 <= j < i ==> self.kernels@[j].user_id@ != user_id@,
            decreases self.kernels@.len() - i,
        {
            if same_text(self.kernels[i].user_id.as_str(), user_id) {
                proof {
                    let k = choose|k: int| 0 <= k < self.kernels@.len() && self.kernels@[k].user_id@ == user_id@;
                    if k > i {
                        assert(self.spec_kernels()[i as int].user_id@ != self.spec_kernels()[k].user_id@);
                    }
                }
                return Some(i);
            }
            i = i + 1;
        }
        None
    }

    /// The user's kernel, if one was started.
    pub fn get_kernel(&self, user_id: &str) -> (r: Option<&KernelInfo>)
        requires
            self.wf(),
        ensures
            match kernel_index(self.spec_kernels(), user_id@) {
                Some(i) => r is Some && *r.unwrap() == self.spec_kernels()[i],
                None => r is None,
            },
    {
        match self.position(user_id) {
            Some(i) => Some(&self.kernels[i]),
            None => None,
        }
    }

    /// Records a started kernel; a user who already has one keeps it.
    pub fn register_kernel(&mut self, kernel: KernelInfo) -> (r: bool)
        requires
            old(self).wf(),
        ensures
            final(self).wf(),
            r == (kernel_index(old(self).spec_kernels(), kernel.user_id@) is None),
            r ==> final(self).spec_kernels() == old(self).spec_kernels().push(kernel),
            !r ==> final(self).spec_kernels() == old(self).spec_kernels(),
    {
        if self.position(kernel.user_id.as_str()).is_some() {
            return false;
        }
        let ghost before = self.kernels@;
        let ghost uid = kernel.user_id@;
        self.kernels.push(kernel);
        assert forall|i: int, j: int|
            0 <= i < j < self.kernels@.len() implies (#[trigger] self.kernels@[i]).user_id@
            != (#[trigger] self.kernels@[j]).user_id@ by {
            assert(self.kernels@[i] == before[i]);
            if j < before.len() {
                assert(self.kernels@[j] == before[j]);
                assert(before[i].user_id@ != before[j].user_id@);
            } else {
                assert(before[i].user_id@ != uid);
            }
        }
        true
    }

    /// Forgets the user's kernel.
    pub fn stop_kernel(&mut self, user_id: &str)
        requires
            old(self).wf(),
        ensures
            final(self).wf(),
            kernel_index(final(self).spec_kernels(), user_id@) is None,
    {
        match self.position(user_id) {
            Some(i) => {
                let ghost before = self.kernels@;
                self.kernels.remove(i);
                assert forall|a: int, b: int|
                    0 <= a < b < self.kernels@.len() implies (#[trigger] self.kernels@[a]).user_id@
                    != (#[trigger] self.kernels@[b]).user_id@ by {
                    let a0 = if a < i { a } else { a + 1 };
                    let b0 = if b < i { b } else { b + 1 };
                    assert(self.kernels@[a] == before[a0]);
                    assert(self.kernels@[b] == before[b0]);
                    assert(before[a0].user_id@ != before[b0].user_id@);
                }
                assert forall|k: int| 0 <= k < self.kernels@.len() implies self.kernels@[k].user_id@ != user_id@ by {
                    let k0 = if k < i { k } else { k + 1 };
                    assert(self.kernels@[k] == before[k0]);
                    if k0 < i {
                        assert(before[k0].user_id@ != before[i as int].user_id@);
                    } else {
                        assert(before[i as int].user_id@ != before[k0].user_id@);
                    }
                }
            },
            None => {},
        }
    }
}

} // verus!
